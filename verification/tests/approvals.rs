use marketshield::approvals::{advance_approval, initial_approval_chain, next_pending_approval};
use marketshield::error::AppError;
use marketshield::models::Approval;

fn statuses(chain: &[Approval]) -> Vec<&str> {
    chain.iter().map(|a| a.status.as_str()).collect()
}

#[test]
fn a_new_case_waits_on_the_product_actuary() {
    let chain = initial_approval_chain("MS-2026-017");
    assert_eq!(chain.len(), 5);
    assert_eq!(
        statuses(&chain),
        vec!["approved", "pending", "waiting", "waiting", "waiting"]
    );
    let roles: Vec<&str> = chain.iter().map(|a| a.role_name.as_str()).collect();
    assert_eq!(
        roles,
        vec![
            "Agent analysis",
            "Product actuary",
            "Compliance and legal",
            "Risk and model validation",
            "Product committee"
        ]
    );
    assert!(chain.iter().all(|a| a.case_id == "MS-2026-017"));
    assert_eq!(chain.iter().map(|a| a.sequence).collect::<Vec<_>>(), vec![1, 2, 3, 4, 5]);
    assert_ne!(chain[0].id, chain[1].id);
    assert_eq!(next_pending_approval(&chain), Some(1));
}

#[test]
fn approving_one_signoff_opens_the_next() {
    let chain = initial_approval_chain("MS-1");
    let advance = advance_approval(
        chain.clone(),
        "approve",
        "2026-07-26T10:00:00Z".to_string(),
        Some("looks right".to_string()),
    )
    .expect("a pending sign-off can be approved");
    assert_eq!(advance.decided, 1);
    assert!(!advance.case_stopped);
    assert_eq!(
        statuses(&advance.approvals),
        vec!["approved", "approved", "pending", "waiting", "waiting"]
    );
    assert_eq!(
        advance.approvals[1].decided_at.as_deref(),
        Some("2026-07-26T10:00:00Z")
    );
    assert_eq!(advance.approvals[1].notes.as_deref(), Some("looks right"));
    assert_eq!(advance.approvals[1].id, chain[1].id);
    assert_eq!(advance.approvals[2].decided_at, None);
    assert_eq!(next_pending_approval(&advance.approvals), Some(2));
}

#[test]
fn approving_every_signoff_completes_the_chain() {
    let mut chain = initial_approval_chain("MS-1");
    for _ in 0..4 {
        chain = advance_approval(chain, "approve", "t".to_string(), None)
            .expect("approve")
            .approvals;
    }
    assert!(chain.iter().all(|a| a.status == "approved"));
    assert_eq!(next_pending_approval(&chain), None);
    let err = advance_approval(chain, "approve", "t".to_string(), None).unwrap_err();
    assert_eq!(
        err,
        AppError::BadRequest("no pending approval remains".to_string())
    );
}

#[test]
fn a_rejection_stops_the_case() {
    let chain = initial_approval_chain("MS-1");
    let advance = advance_approval(chain, "reject", "t".to_string(), Some("closed".to_string()))
        .expect("a pending sign-off can be rejected");
    assert!(advance.case_stopped);
    assert_eq!(
        statuses(&advance.approvals),
        vec!["approved", "rejected", "waiting", "waiting", "waiting"]
    );
    assert_eq!(next_pending_approval(&advance.approvals), None);
    let err = advance_approval(advance.approvals, "approve", "t".to_string(), None).unwrap_err();
    assert_eq!(err.http_status(), 400);
}

#[test]
fn an_unknown_decision_is_refused() {
    let chain = initial_approval_chain("MS-1");
    let err = advance_approval(chain, "maybe", "t".to_string(), None).unwrap_err();
    assert_eq!(
        err,
        AppError::BadRequest("decision must be approve or reject".to_string())
    );
}

#[test]
fn the_lowest_pending_sequence_is_decided_first() {
    let signoff = |id: &str, sequence: i64, status: &str| Approval {
        id: id.to_string(),
        case_id: "c".to_string(),
        sequence,
        role_name: id.to_string(),
        status: status.to_string(),
        decided_at: None,
        notes: None,
    };
    let chain = vec![signoff("b", 4, "pending"), signoff("a", 2, "pending"), signoff("c", 3, "waiting")];
    assert_eq!(next_pending_approval(&chain), Some(1));
    let advance = advance_approval(chain, "approve", "t".to_string(), None).unwrap();
    assert_eq!(advance.decided, 1);
    assert_eq!(statuses(&advance.approvals), vec!["pending", "approved", "pending"]);
}
