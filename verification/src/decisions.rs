//! Recording a decision maker's decision on an evaluated scenario.

use vstd::prelude::*;

use crate::approvals::{has_pending, is_first_pending, next_pending_approval};
use crate::error::AppError;
use crate::models::Approval;
use crate::requests::{DecisionReceipt, SubmitDecisionRequest};
use crate::text::same_text;

verus! {

/// The decisions an approver may record on a scenario.
pub open spec fn allowed_decision(decision: Seq<char>) -> bool {
    decision == "submit_for_review"@ || decision == "hold"@ || decision == "reject"@
}

/// Checks a decision before it is recorded: the scenario must belong to the
/// case named in the request, and the decision must be `submit_for_review`,
/// `hold` or `reject`. `scenario_case_id` is the case the stored scenario was
/// evaluated for.
pub fn validate_decision(request: &SubmitDecisionRequest, scenario_case_id: &str) -> (checked:
    Result<(), AppError>)
    ensures
        scenario_case_id@ != request.case_id@ ==> (checked matches Err(AppError::BadRequest(m))
            && m@ == "scenario does not belong to the requested case"@),
        scenario_case_id@ == request.case_id@ && !allowed_decision(request.decision@) ==> (
        checked matches Err(AppError::BadRequest(m)) && m@
            == "decision must be submit_for_review, hold or reject"@),
        scenario_case_id@ == request.case_id@ && allowed_decision(request.decision@)
            ==> checked is Ok,
{
    if !same_text(scenario_case_id, request.case_id.as_str()) {
        return Err(
            AppError::BadRequest(String::from_str("scenario does not belong to the requested case")),
        );
    }
    let decision = request.decision.as_str();
    if !same_text(decision, "submit_for_review") && !same_text(decision, "hold") && !same_text(
        decision,
        "reject",
    ) {
        return Err(
            AppError::BadRequest(
                String::from_str("decision must be submit_for_review, hold or reject"),
            ),
        );
    }
    Ok(())
}

/// The receipt of a recorded decision. It names the role whose approval is
/// due next: the role of the case's pending sign-off with the lowest sequence, or
/// none when no sign-off is pending.
pub fn decision_receipt(
    request: SubmitDecisionRequest,
    decision_id: String,
    approvals: &Vec<Approval>,
    created_at: String,
) -> (receipt: DecisionReceipt)
    ensures
        receipt.decision_id == decision_id,
        receipt.case_id == request.case_id,
        receipt.scenario_id == request.scenario_id,
        receipt.decision == request.decision,
        receipt.created_at == created_at,
        !has_pending(approvals@) ==> receipt.next_approval_role is None,
        has_pending(approvals@) ==> exists|i: int|
            is_first_pending(approvals@, i) && receipt.next_approval_role == Some(
                #[trigger] approvals@[i].role_name,
            ),
{
    let next_approval_role = match next_pending_approval(approvals) {
        Some(i) => Some(approvals[i].role_name.clone()),
        None => None,
    };
    DecisionReceipt {
        decision_id,
        case_id: request.case_id,
        scenario_id: request.scenario_id,
        decision: request.decision,
        next_approval_role,
        created_at,
    }
}

} // verus!
