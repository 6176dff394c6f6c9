//! The human approval chain a case must pass before any response is taken.
//!
//! A chain is a run of sign-offs ordered by sequence. Sign-offs before the current
//! one are approved, the current one is pending (or rejected, which stops the
//! case), and the rest are waiting. Deciding the pending sign-off either opens the
//! next one or stops the case.

use vstd::prelude::*;

use crate::error::AppError;
use crate::ids::new_id;
use crate::models::Approval;
use crate::text::same_text;

verus! {

/// The sign-off is waiting for the decision of its role.
pub open spec fn is_pending(a: Approval) -> bool {
    a.status@ == "pending"@
}

/// Some sign-off of the chain is pending.
pub open spec fn has_pending(s: Seq<Approval>) -> bool {
    exists|j: int| 0 <= j < s.len() && is_pending(#[trigger] s[j])
}

/// Gate `i` is the pending sign-off with the lowest sequence; among signoffs with
/// that sequence it is the first in the chain.
pub open spec fn is_first_pending(s: Seq<Approval>, i: int) -> bool {
    &&& 0 <= i < s.len()
    &&& is_pending(s[i])
    &&& forall|j: int|
        0 <= j < s.len() && is_pending(#[trigger] s[j]) ==> s[i].sequence < s[j].sequence || (
        s[i].sequence == s[j].sequence && i <= j)
}

spec fn first_pending_within(s: Seq<Approval>, n: int, i: int) -> bool {
    &&& 0 <= i < n
    &&& is_pending(s[i])
    &&& forall|j: int|
        0 <= j < n && is_pending(#[trigger] s[j]) ==> s[i].sequence < s[j].sequence || (
        s[i].sequence == s[j].sequence && i <= j)
}

/// Finds the sign-off whose decision is due: the pending sign-off with the lowest
/// sequence, or none when no sign-off is pending.
pub fn next_pending_approval(approvals: &Vec<Approval>) -> (found: Option<usize>)
    ensures
        match found {
            Some(i) => is_first_pending(approvals@, i as int),
            None => !has_pending(approvals@),
        },
{
    let mut best: Option<usize> = None;
    let mut i: usize = 0;
    while i < approvals.len()
        invariant
            i <= approvals@.len(),
            match best {
                Some(b) => first_pending_within(approvals@, i as int, b as int),
                None => forall|j: int| 0 <= j < i ==> !is_pending(#[trigger] approvals@[j]),
            },
        decreases approvals@.len() - i,
    {
        if same_text(approvals[i].status.as_str(), "pending") {
            match best {
                None => {
                    best = Some(i);
                },
                Some(b) => {
                    if approvals[i].sequence < approvals[b].sequence {
                        best = Some(i);
                    }
                },
            }
        }
        i = i + 1;
    }
    best
}

/// The fields that identify a sign-off are unchanged between `a` and `b`.
pub open spec fn same_signoff(a: Approval, b: Approval) -> bool {
    &&& a.id == b.id
    &&& a.case_id == b.case_id
    &&& a.sequence == b.sequence
    &&& a.role_name == b.role_name
}

/// Gate `j` is the waiting sign-off that directly follows sign-off `p`.
pub open spec fn follows_waiting(s: Seq<Approval>, p: int, j: int) -> bool {
    &&& j != p
    &&& s[j].sequence == s[p].sequence + 1
    &&& s[j].status@ == "waiting"@
}

/// The status a decision gives the sign-off it decides, if the decision is valid.
pub open spec fn decision_status(decision: Seq<char>) -> Option<Seq<char>> {
    if decision == "approve"@ {
        Some("approved"@)
    } else if decision == "reject"@ {
        Some("rejected"@)
    } else {
        None
    }
}

/// The chain after a decision, and what else the decision changed.
#[derive(Debug)]
pub struct ApprovalAdvance {
    /// Every sign-off of the chain, in the order it was given.
    pub approvals: Vec<Approval>,
    /// Position of the sign-off that was decided.
    pub decided: usize,
    /// The decision was a rejection, so the case stops.
    pub case_stopped: bool,
}

/// Everything `advance_approval` promises of a successful decision on sign-off
/// `p` of `before`.
pub open spec fn advanced(
    before: Seq<Approval>,
    after: Seq<Approval>,
    p: int,
    status: Seq<char>,
    approve: bool,
    decided_at: String,
    notes: Option<String>,
) -> bool {
    &&& after.len() == before.len()
    &&& same_signoff(after[p], before[p])
    &&& after[p].status@ == status
    &&& after[p].decided_at == Some(decided_at)
    &&& after[p].notes == notes
    &&& forall|j: int|
        #![trigger after[j]]
        0 <= j < before.len() && j != p ==> if approve && follows_waiting(before, p, j) {
            &&& same_signoff(after[j], before[j])
            &&& after[j].status@ == "pending"@
            &&& after[j].decided_at == before[j].decided_at
            &&& after[j].notes == before[j].notes
        } else {
            after[j] == before[j]
        }
}

fn copy_text(t: &Option<String>) -> (r: Option<String>)
    ensures
        r == *t,
{
    match t {
        Some(s) => Some(s.clone()),
        None => None,
    }
}

/// Records a decision on the case's pending sign-off.
///
/// `approve` marks the sign-off approved and opens the waiting sign-off that directly
/// follows it; `reject` marks it rejected and stops the case. The decided sign-off
/// carries `decided_at` and `notes`. Refused when no sign-off is pending, or when
/// the decision is neither `approve` nor `reject`.
pub fn advance_approval(
    approvals: Vec<Approval>,
    decision: &str,
    decided_at: String,
    notes: Option<String>,
) -> (outcome: Result<ApprovalAdvance, AppError>)
    ensures
        !has_pending(approvals@) ==> (outcome matches Err(AppError::BadRequest(m)) && m@
            == "no pending approval remains"@),
        has_pending(approvals@) && decision_status(decision@) is None ==> (outcome matches Err(
            AppError::BadRequest(m),
        ) && m@ == "decision must be approve or reject"@),
        has_pending(approvals@) && decision_status(decision@) is Some ==> outcome is Ok,
        outcome matches Ok(adv) ==> {
            &&& is_first_pending(approvals@, adv.decided as int)
            &&& advanced(
                approvals@,
                adv.approvals@,
                adv.decided as int,
                decision_status(decision@)->0,
                decision@ == "approve"@,
                decided_at,
                notes,
            )
            &&& adv.case_stopped == (decision@ == "reject"@)
        },
{
    let pending = next_pending_approval(&approvals);
    let p = match pending {
        None => {
            return Err(AppError::BadRequest(String::from_str("no pending approval remains")));
        },
        Some(p) => p,
    };
    let approve = same_text(decision, "approve");
    let reject = same_text(decision, "reject");
    if !approve && !reject {
        return Err(AppError::BadRequest(String::from_str("decision must be approve or reject")));
    }
    let final_status = if approve {
        String::from_str("approved")
    } else {
        String::from_str("rejected")
    };
    let ghost before = approvals@;
    let mut chain = approvals;
    let pending_sequence = chain[p].sequence;
    let decided_signoff = Approval {
        id: chain[p].id.clone(),
        case_id: chain[p].case_id.clone(),
        sequence: chain[p].sequence,
        role_name: chain[p].role_name.clone(),
        status: final_status,
        decided_at: Some(decided_at),
        notes: notes,
    };
    chain.set(p, decided_signoff);
    if approve {
        let mut j: usize = 0;
        while j < chain.len()
            invariant
                chain@.len() == before.len(),
                0 <= p < before.len(),
                pending_sequence == before[p as int].sequence,
                approve,
                j <= chain@.len(),
                chain@[p as int] == decided_signoff,
                forall|k: int|
                    #![trigger chain@[k]]
                    0 <= k < before.len() && k != p ==> if k < j && follows_waiting(
                        before,
                        p as int,
                        k,
                    ) {
                        &&& same_signoff(chain@[k], before[k])
                        &&& chain@[k].status@ == "pending"@
                        &&& chain@[k].decided_at == before[k].decided_at
                        &&& chain@[k].notes == before[k].notes
                    } else {
                        chain@[k] == before[k]
                    },
            decreases chain@.len() - j,
        {
            if j != p && pending_sequence < i64::MAX && chain[j].sequence == pending_sequence + 1
                && same_text(chain[j].status.as_str(), "waiting") {
                let opened = Approval {
                    id: chain[j].id.clone(),
                    case_id: chain[j].case_id.clone(),
                    sequence: chain[j].sequence,
                    role_name: chain[j].role_name.clone(),
                    status: String::from_str("pending"),
                    decided_at: copy_text(&chain[j].decided_at),
                    notes: copy_text(&chain[j].notes),
                };
                chain.set(j, opened);
            }
            j = j + 1;
        }
    }
    proof {
        reveal_strlit("approve");
        reveal_strlit("reject");
    }
    Ok(ApprovalAdvance { approvals: chain, decided: p, case_stopped: reject })
}


/// Sign-offs are numbered consecutively in chain order.
pub open spec fn consecutive(s: Seq<Approval>) -> bool {
    forall|i: int| 0 <= i < s.len() ==> #[trigger] s[i].sequence == s[0].sequence + i
}

/// Sign-offs before `k` are approved, sign-off `k` (if any) is pending or rejected,
/// and every sign-off after it is waiting.
pub open spec fn chain_at(s: Seq<Approval>, k: int) -> bool {
    &&& 0 <= k <= s.len()
    &&& forall|j: int| 0 <= j < k ==> #[trigger] s[j].status@ == "approved"@
    &&& k < s.len() ==> (s[k].status@ == "pending"@ || s[k].status@ == "rejected"@)
    &&& forall|j: int| k < j < s.len() ==> #[trigger] s[j].status@ == "waiting"@
}

/// A chain in the shape the workflow keeps: consecutive signoffs, an approved
/// prefix, at most one sign-off under decision, and waiting signoffs after it.
pub open spec fn well_formed_chain(s: Seq<Approval>) -> bool {
    &&& consecutive(s)
    &&& exists|k: int| chain_at(s, k)
}

/// The signoffs a new case starts with.
pub open spec fn initial_signoff(i: int) -> (i64, Seq<char>, Seq<char>) {
    if i == 0 {
        (1, "Agent analysis"@, "approved"@)
    } else if i == 1 {
        (2, "Product actuary"@, "pending"@)
    } else if i == 2 {
        (3, "Compliance and legal"@, "waiting"@)
    } else if i == 3 {
        (4, "Risk and model validation"@, "waiting"@)
    } else {
        (5, "Product committee"@, "waiting"@)
    }
}

fn signoff(case_id: &str, sequence: i64, role_name: &str, status: &str) -> (a: Approval)
    ensures
        a.case_id@ == case_id@,
        a.sequence == sequence,
        a.role_name@ == role_name@,
        a.status@ == status@,
        a.decided_at is None,
        a.notes is None,
{
    Approval {
        id: new_id(),
        case_id: String::from_str(case_id),
        sequence,
        role_name: String::from_str(role_name),
        status: String::from_str(status),
        decided_at: None,
        notes: None,
    }
}

/// The approval chain every new case starts with: the agent analysis is
/// already approved, the product actuary decides next, and compliance, risk
/// and the product committee wait their turn. Each sign-off gets a fresh id.
pub fn initial_approval_chain(case_id: &str) -> (chain: Vec<Approval>)
    ensures
        chain@.len() == 5,
        forall|i: int|
            #![trigger chain@[i]]
            0 <= i < 5 ==> {
                &&& chain@[i].case_id@ == case_id@
                &&& chain@[i].sequence == initial_signoff(i).0
                &&& chain@[i].role_name@ == initial_signoff(i).1
                &&& chain@[i].status@ == initial_signoff(i).2
                &&& chain@[i].decided_at is None
                &&& chain@[i].notes is None
            },
        well_formed_chain(chain@),
        is_first_pending(chain@, 1),
{
    let mut chain = Vec::new();
    chain.push(signoff(case_id, 1, "Agent analysis", "approved"));
    chain.push(signoff(case_id, 2, "Product actuary", "pending"));
    chain.push(signoff(case_id, 3, "Compliance and legal", "waiting"));
    chain.push(signoff(case_id, 4, "Risk and model validation", "waiting"));
    chain.push(signoff(case_id, 5, "Product committee", "waiting"));
    proof {
        lemma_status_words_distinct();
        assert(chain_at(chain@, 1));
        assert forall|j: int| 0 <= j < 5 && is_pending(#[trigger] chain@[j]) implies j == 1 by {
            if j == 0 {
                assert(chain@[j].status@ == "approved"@);
            } else if j > 1 {
                assert(chain@[j].status@ == "waiting"@);
            }
        }
    }
    chain
}

/// The four sign-off statuses are different words.
proof fn lemma_status_words_distinct()
    ensures
        "approved"@ != "pending"@,
        "approved"@ != "waiting"@,
        "approved"@ != "rejected"@,
        "pending"@ != "waiting"@,
        "pending"@ != "rejected"@,
        "waiting"@ != "rejected"@,
{
    reveal_strlit("approved");
    reveal_strlit("pending");
    reveal_strlit("waiting");
    reveal_strlit("rejected");
    assert("approved"@.len() == 8);
    assert("pending"@.len() == 7);
    assert("waiting"@.len() == 7);
    assert("rejected"@.len() == 8);
    assert("pending"@[0] != "waiting"@[0]);
    assert("approved"@[0] != "rejected"@[0]);
}

/// In a well-formed chain at most one sign-off is pending.
pub proof fn lemma_at_most_one_pending(s: Seq<Approval>, i: int, j: int)
    requires
        well_formed_chain(s),
        0 <= i < s.len(),
        0 <= j < s.len(),
        is_pending(s[i]),
        is_pending(s[j]),
    ensures
        i == j,
{
    lemma_status_words_distinct();
    let k = choose|k: int| chain_at(s, k);
    if i < k {
        assert(s[i].status@ == "approved"@);
    }
    if i > k {
        assert(s[i].status@ == "waiting"@);
    }
    if j < k {
        assert(s[j].status@ == "approved"@);
    }
    if j > k {
        assert(s[j].status@ == "waiting"@);
    }
}

/// Deciding the pending sign-off of a well-formed chain keeps it well formed.
/// An approval opens the sign-off that follows (or, on the last sign-off, leaves
/// nothing pending); a rejection leaves nothing pending, so no later sign-off can
/// be decided.
pub proof fn lemma_decision_keeps_chain_well_formed(
    before: Seq<Approval>,
    after: Seq<Approval>,
    p: int,
    approve: bool,
    decided_at: String,
    notes: Option<String>,
)
    requires
        well_formed_chain(before),
        is_first_pending(before, p),
        advanced(
            before,
            after,
            p,
            if approve {
                "approved"@
            } else {
                "rejected"@
            },
            approve,
            decided_at,
            notes,
        ),
    ensures
        well_formed_chain(after),
        approve && p + 1 < before.len() ==> is_first_pending(after, p + 1),
        approve && p + 1 == before.len() ==> !has_pending(after),
        !approve ==> !has_pending(after),
{
    lemma_status_words_distinct();
    let k = choose|k: int| chain_at(before, k);
    if p < k {
        assert(before[p].status@ == "approved"@);
    }
    if p > k {
        assert(before[p].status@ == "waiting"@);
    }
    assert(p == k);
    assert forall|j: int| 0 <= j < after.len() implies #[trigger] after[j].sequence
        == after[0].sequence + j by {
        assert(after[j].sequence == before[j].sequence);
        assert(after[0].sequence == before[0].sequence);
        assert(before[j].sequence == before[0].sequence + j);
    }
    assert(consecutive(after));
    let next = if approve && p + 1 < before.len() {
        p + 1
    } else {
        p
    };
    assert forall|j: int| 0 <= j < after.len() && j != p implies (j < p ==> #[trigger] after[
        j].status@ == "approved"@) && (j > p && !(approve && j == p + 1) ==> after[j].status@
        == "waiting"@) && (approve && j == p + 1 ==> after[j].status@ == "pending"@) by {
        assert(before[j].sequence == before[0].sequence + j);
        assert(before[p].sequence == before[0].sequence + p);
        if j < p {
            assert(before[j].status@ == "approved"@);
            assert(after[j] == before[j]);
        } else {
            assert(before[j].status@ == "waiting"@);
            if approve && j == p + 1 {
                assert(follows_waiting(before, p, j));
            } else {
                if approve {
                    assert(!follows_waiting(before, p, j));
                }
                assert(after[j] == before[j]);
            }
        }
    }
    if approve {
        if p + 1 < before.len() {
            assert(chain_at(after, p + 1));
            assert forall|j: int| 0 <= j < after.len() && is_pending(#[trigger] after[j]) implies j
                == p + 1 by {
                if j < p + 1 && j != p {
                    assert(after[j].status@ == "approved"@);
                }
                if j > p + 1 {
                    assert(after[j].status@ == "waiting"@);
                }
            }
            assert(after[p + 1].sequence == after[0].sequence + p + 1);
        } else {
            assert(chain_at(after, after.len() as int));
            assert forall|j: int| 0 <= j < after.len() implies !is_pending(#[trigger] after[j]) by {
                if j != p {
                    assert(after[j].status@ == "approved"@);
                }
            }
        }
    } else {
        assert(chain_at(after, p));
        assert forall|j: int| 0 <= j < after.len() implies !is_pending(#[trigger] after[j]) by {
            if j < p {
                assert(after[j].status@ == "approved"@);
            }
            if j > p {
                assert(after[j].status@ == "waiting"@);
            }
        }
    }
}

} // verus!
