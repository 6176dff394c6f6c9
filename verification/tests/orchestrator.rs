use marketshield::models::EvidenceItem;
use marketshield::orchestrator::{case_analysis, evidence_counts};

fn item(status: &str) -> EvidenceItem {
    EvidenceItem {
        id: "e".to_string(),
        case_id: "MS-2026-017".to_string(),
        label: "l".to_string(),
        detail: "d".to_string(),
        source_classification: "public".to_string(),
        admission_status: status.to_string(),
    }
}

#[test]
fn the_analysis_reports_the_evidence_ledger() {
    let evidence = vec![
        item("admitted"),
        item("admitted"),
        item("admitted"),
        item("excluded"),
        item("blocked"),
    ];
    assert_eq!(evidence_counts(&evidence), (3, 2));
    let result = case_analysis("MS-2026-017".to_string(), &evidence);
    assert_eq!(result.status, "completed");
    assert_eq!(result.run_id, "");
    assert_eq!(result.case_id, "MS-2026-017");
    let steps: Vec<&str> = result.steps.iter().map(|s| s.step.as_str()).collect();
    assert_eq!(steps, vec!["observe", "enrich", "diagnose", "simulate", "govern", "measure"]);
    assert_eq!(
        result.steps[1].summary,
        "Admitted 3 evidence items and excluded or blocked 2 items."
    );
    assert_eq!(result.steps[4].status, "completed_with_review");
}
