use marketshield::monitor::{
    any_actionable, check_exit_code, is_actionable, is_monitored, line_actions,
    needs_baseline_run, new_competitor_moves, run_trigger, CheckOutcome, MoveStamp,
};
use marketshield::requests::MonitorRunRequest;

fn severities(values: &[&str]) -> Vec<String> {
    values.iter().map(|v| v.to_string()).collect()
}

#[test]
fn only_high_findings_need_a_human() {
    assert!(is_actionable("high"));
    assert!(!is_actionable("medium"));
    assert!(any_actionable(&severities(&["medium", "high"])));
    assert!(!any_actionable(&severities(&["medium", "low"])));
    assert!(!any_actionable(&vec![]));
}

#[test]
fn a_breach_opens_a_case_only_when_none_is_open() {
    let breach = severities(&["high", "medium"]);
    let quiet = severities(&["medium"]);
    assert!(line_actions(true, &breach, false).open_case);
    assert!(!line_actions(true, &breach, true).open_case);
    assert!(!line_actions(true, &quiet, false).open_case);
    let report_only = line_actions(false, &breach, false);
    assert!(!report_only.open_case);
    assert!(!report_only.raise_signals);
}

#[test]
fn a_competitor_move_before_the_last_run_is_not_repeated_rule() {
    let moves = vec![
        MoveStamp { favourable_to_them: true, changed_at: "2026-05-01T00:00:00Z".to_string() },
        MoveStamp { favourable_to_them: false, changed_at: "2026-05-02T00:00:00Z".to_string() },
        MoveStamp { favourable_to_them: true, changed_at: "2026-01-01T00:00:00Z".to_string() },
    ];
    assert_eq!(new_competitor_moves(&moves, "2026-02-01T00:00:00Z"), vec![0]);
    assert!(new_competitor_moves(&moves, "2026-06-01T00:00:00Z").is_empty());
    assert!(new_competitor_moves(&moves, "2026-05-01T00:00:00Z").is_empty());
}

#[test]
fn runs_default_to_a_manual_trigger() {
    assert_eq!(run_trigger(&MonitorRunRequest { trigger: None, raise_signals: true }), "manual");
    assert_eq!(
        run_trigger(&MonitorRunRequest { trigger: Some("scheduled".to_string()), raise_signals: true }),
        "scheduled"
    );
}

#[test]
fn lines_without_data_are_skipped_and_baselines_run_once() {
    assert!(is_monitored(8, 40));
    assert!(!is_monitored(0, 40));
    assert!(!is_monitored(8, 0));
    assert!(needs_baseline_run(0));
    assert!(!needs_baseline_run(3));
}

#[test]
fn a_breach_fails_the_scheduled_check() {
    assert_eq!(check_exit_code(CheckOutcome::Completed { breached: true }, false), 1);
    assert_eq!(check_exit_code(CheckOutcome::Completed { breached: true }, true), 0);
    assert_eq!(check_exit_code(CheckOutcome::Completed { breached: false }, false), 0);
    assert_eq!(check_exit_code(CheckOutcome::Failed, true), 2);
}
