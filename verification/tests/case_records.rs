use marketshield::case_records::{
    demo_case_checks, demo_case_evidence, monitor_case_checks, monitor_case_evidence, next_case_id,
};

#[test]
fn case_ids_count_on_from_the_demonstration_case() {
    assert_eq!(next_case_id(0), "MS-2026-017");
    assert_eq!(next_case_id(1), "MS-2026-018");
    assert_eq!(next_case_id(83), "MS-2026-100");
    assert_eq!(next_case_id(1000), "MS-2026-1017");
}

#[test]
fn the_demonstration_ledger_blocks_sensitive_pricing() {
    let items = demo_case_evidence("MS-2026-017");
    assert_eq!(items.len(), 5);
    assert!(items.iter().all(|item| item.case_id == "MS-2026-017"));
    let admissions: Vec<&str> = items.iter().map(|item| item.admission_status.as_str()).collect();
    assert_eq!(admissions, vec!["admitted", "admitted", "admitted", "excluded", "blocked"]);
    assert_eq!(items[4].label, "Non-public competitor pricing");
    assert_eq!(items[4].source_classification, "competitively_sensitive");
    assert_eq!(items[2].detail, "Aggregated responses from 214 advisers.");
    assert_ne!(items[0].id, items[1].id);
}

#[test]
fn the_demonstration_checks_leave_outsourcing_for_review() {
    let checks = demo_case_checks("MS-2026-017");
    let codes: Vec<&str> = checks.iter().map(|check| check.code.as_str()).collect();
    assert_eq!(codes, vec!["TCF", "POPIA-71", "COMP-INFO", "OUTSOURCE"]);
    let statuses: Vec<&str> = checks.iter().map(|check| check.status.as_str()).collect();
    assert_eq!(statuses, vec!["pass", "pass", "pass", "review"]);
}

#[test]
fn a_monitor_case_names_the_size_of_its_comparison() {
    let items = monitor_case_evidence("MS-2026-018", 9, 4);
    assert_eq!(items.len(), 3);
    assert_eq!(items[0].label, "Competitor feature comparison");
    assert_eq!(
        items[0].detail,
        "9 tracked dimensions across 4 providers, drawn from published disclosures and approved internal product data."
    );
    assert_eq!(items[1].admission_status, "admitted");
    assert_eq!(items[2].admission_status, "blocked");
    assert!(items.iter().all(|item| item.case_id == "MS-2026-018"));
}

#[test]
fn a_monitor_case_leaves_outcomes_and_model_validation_for_review() {
    let checks = monitor_case_checks("MS-2026-018");
    let codes: Vec<&str> = checks.iter().map(|check| check.code.as_str()).collect();
    assert_eq!(codes, vec!["COMP-INFO", "POPIA-71", "TCF", "MODEL-VAL"]);
    let statuses: Vec<&str> = checks.iter().map(|check| check.status.as_str()).collect();
    assert_eq!(statuses, vec!["pass", "pass", "review", "review"]);
}
