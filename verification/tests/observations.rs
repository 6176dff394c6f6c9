use marketshield::error::AppError;
use marketshield::observations::{
    change_steps, check_observation_provenance, current_observation, in_force_at,
    record_observation, replaced_observation, ObservationRecord,
};

fn record(
    competitor_id: &str,
    feature_id: &str,
    observed_at: &str,
    superseded_at: Option<&str>,
) -> ObservationRecord {
    ObservationRecord {
        id: format!("{competitor_id}-{feature_id}-{observed_at}"),
        competitor_id: competitor_id.to_string(),
        feature_id: feature_id.to_string(),
        source_classification: "public".to_string(),
        source_reference: "test fixture".to_string(),
        observed_at: observed_at.to_string(),
        superseded_at: superseded_at.map(str::to_string),
    }
}

fn repriced_history() -> Vec<ObservationRecord> {
    vec![
        record("us", "cost", "2026-01-01T00:00:00Z", None),
        record("rival", "cost", "2026-01-01T00:00:00Z", Some("2026-05-01T00:00:00Z")),
        record("rival", "cost", "2026-05-01T00:00:00Z", None),
    ]
}

#[test]
fn superseded_values_are_not_in_force_today() {
    let history = repriced_history();
    assert!(in_force_at(&history[0], None));
    assert!(!in_force_at(&history[1], None));
    assert!(in_force_at(&history[2], None));
    assert_eq!(current_observation(&history, "cost", "rival", None), Some(2));
    assert_eq!(current_observation(&history, "cost", "us", None), Some(0));
    assert_eq!(current_observation(&history, "fees", "us", None), None);
}

#[test]
fn as_at_reconstructs_the_value_in_force_then() {
    let history = repriced_history();
    let march = Some("2026-03-01T00:00:00Z");
    assert!(in_force_at(&history[1], march));
    assert!(!in_force_at(&history[2], march));
    assert_eq!(current_observation(&history, "cost", "rival", march), Some(1));
    // A value superseded exactly at the comparison point no longer applies.
    assert_eq!(
        current_observation(&history, "cost", "rival", Some("2026-05-01T00:00:00Z")),
        Some(2)
    );
    // Before anything was observed there is nothing to compare.
    assert_eq!(
        current_observation(&history, "cost", "rival", Some("2025-12-31T00:00:00Z")),
        None
    );
}

#[test]
fn the_last_value_in_force_wins() {
    let history = vec![
        record("rival", "cost", "2026-01-01T00:00:00Z", None),
        record("rival", "cost", "2026-02-01T00:00:00Z", None),
    ];
    assert_eq!(current_observation(&history, "cost", "rival", None), Some(1));
}

#[test]
fn a_change_is_reported_with_the_value_it_replaced() {
    let history = repriced_history();
    assert_eq!(replaced_observation(&history, 2), Some(1));
    assert_eq!(replaced_observation(&history, 1), None);
    assert_eq!(replaced_observation(&history, 0), None);
    assert_eq!(change_steps(&history, None), vec![(1, 2)]);
}

#[test]
fn a_move_that_had_not_happened_is_not_shown_earlier() {
    let history = repriced_history();
    assert!(change_steps(&history, Some("2026-03-01T00:00:00Z")).is_empty());
    assert_eq!(change_steps(&history, Some("2026-05-01T00:00:00Z")), vec![(1, 2)]);
}

#[test]
fn changes_come_newest_first() {
    let history = vec![
        record("rival", "fee", "2026-01-01T00:00:00Z", Some("2026-02-01T00:00:00Z")),
        record("rival", "cost", "2026-01-01T00:00:00Z", Some("2026-06-01T00:00:00Z")),
        record("rival", "fee", "2026-02-01T00:00:00Z", Some("2026-04-01T00:00:00Z")),
        record("rival", "cost", "2026-06-01T00:00:00Z", None),
        record("rival", "fee", "2026-04-01T00:00:00Z", None),
    ];
    assert_eq!(change_steps(&history, None), vec![(1, 3), (2, 4), (0, 2)]);
}

#[test]
fn recording_a_value_supersedes_the_one_in_force() {
    let history = repriced_history();
    let added = record("rival", "cost", "2026-07-01T00:00:00Z", None);
    let updated = record_observation(history.clone(), added);
    assert_eq!(updated.len(), 4);
    assert_eq!(updated[2].superseded_at.as_deref(), Some("2026-07-01T00:00:00Z"));
    assert_eq!(updated[1].superseded_at.as_deref(), Some("2026-05-01T00:00:00Z"));
    assert_eq!(updated[0].superseded_at, None);
    assert_eq!(current_observation(&updated, "cost", "rival", None), Some(3));
    assert_eq!(change_steps(&updated, None), vec![(2, 3), (1, 2)]);
}

#[test]
fn an_observation_without_usable_provenance_is_refused_rule() {
    assert_eq!(
        check_observation_provenance("competitively_sensitive", "overheard at a conference"),
        Err(AppError::BadRequest(
            "source_classification must be public, approved_internal, consented or licensed"
                .to_string()
        ))
    );
    assert_eq!(
        check_observation_provenance("public", "   "),
        Err(AppError::BadRequest(
            "source_reference is required so every competitor value carries provenance"
                .to_string()
        ))
    );
    for classification in ["public", "approved_internal", "consented", "licensed"] {
        assert_eq!(
            check_observation_provenance(classification, "Public fee schedule, May 2026"),
            Ok(())
        );
    }
}
