use marketshield::approvals::initial_approval_chain;
use marketshield::decisions::{decision_receipt, validate_decision};
use marketshield::error::AppError;
use marketshield::requests::SubmitDecisionRequest;

fn request(case_id: &str, decision: &str) -> SubmitDecisionRequest {
    SubmitDecisionRequest {
        case_id: case_id.to_string(),
        scenario_id: "scenario-1".to_string(),
        decision: decision.to_string(),
        notes: None,
    }
}

#[test]
fn a_decision_cannot_reference_another_cases_scenario_rule() {
    assert_eq!(
        validate_decision(&request("MS-2026-017", "submit_for_review"), "MS-2026-018"),
        Err(AppError::BadRequest(
            "scenario does not belong to the requested case".to_string()
        ))
    );
}

#[test]
fn only_known_decisions_are_recorded() {
    for decision in ["submit_for_review", "hold", "reject"] {
        assert_eq!(validate_decision(&request("c", decision), "c"), Ok(()));
    }
    assert_eq!(
        validate_decision(&request("c", "approve"), "c"),
        Err(AppError::BadRequest(
            "decision must be submit_for_review, hold or reject".to_string()
        ))
    );
}

#[test]
fn the_receipt_names_the_next_approver() {
    let chain = initial_approval_chain("c");
    let receipt = decision_receipt(
        request("c", "submit_for_review"),
        "d-1".to_string(),
        &chain,
        "2026-07-26T00:00:00Z".to_string(),
    );
    assert_eq!(receipt.next_approval_role.as_deref(), Some("Product actuary"));
    assert_eq!(receipt.decision_id, "d-1");
    assert_eq!(receipt.decision, "submit_for_review");
    let none = decision_receipt(request("c", "hold"), "d-2".to_string(), &vec![], "t".to_string());
    assert_eq!(none.next_approval_role, None);
}
