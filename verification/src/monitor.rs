//! The standing watch's escalation rules.
//!
//! The monitor recomputes our position on every tracked product line and
//! compares it with the last recorded position. The comparison of scores is
//! numeric and done by the service around this crate; this module decides
//! what a run does with its findings: which competitor moves are new, when a
//! finding needs a human, when a case is opened, and how a scheduled check
//! exits.

use vstd::prelude::*;

use crate::requests::MonitorRunRequest;
use crate::text::{precedes, same_text, text_before};

verus! {

/// The severity at which a finding requires human attention: it fails a
/// scheduled check and may open a case.
pub open spec fn actionable(severity: Seq<char>) -> bool {
    severity == "high"@
}

/// Whether a finding of this severity requires human attention.
pub fn is_actionable(severity: &str) -> (r: bool)
    ensures
        r == actionable(severity@),
{
    same_text(severity, "high")
}

/// Some finding of the list requires human attention.
pub open spec fn some_actionable(severities: Seq<String>) -> bool {
    exists|i: int| 0 <= i < severities.len() && actionable(#[trigger] severities[i]@)
}

/// Whether any finding, given by its severity, requires human attention. Over
/// a whole run this is whether the run breached a threshold.
pub fn any_actionable(severities: &Vec<String>) -> (r: bool)
    ensures
        r == some_actionable(severities@),
{
    let mut i: usize = 0;
    while i < severities.len()
        invariant
            i <= severities@.len(),
            forall|j: int| 0 <= j < i ==> !actionable(#[trigger] severities@[j]@),
        decreases severities@.len() - i,
    {
        if is_actionable(severities[i].as_str()) {
            return true;
        }
        i = i + 1;
    }
    false
}

/// The trigger a run is recorded under: the one requested, or `manual`.
pub fn run_trigger(request: &MonitorRunRequest) -> (trigger: String)
    ensures
        match request.trigger {
            Some(t) => trigger@ == t@,
            None => trigger@ == "manual"@,
        },
{
    match &request.trigger {
        Some(t) => t.clone(),
        None => String::from_str("manual"),
    }
}

/// A product line is only assessed once it has tracked features and some
/// observations of them.
pub fn is_monitored(feature_count: usize, observation_count: usize) -> (r: bool)
    ensures
        r == (feature_count > 0 && observation_count > 0),
{
    feature_count > 0 && observation_count > 0
}

/// What a run does on one product line once its findings are known.
#[derive(Debug, Clone, Copy)]
pub struct LineActions {
    /// Raise one signal per finding.
    pub raise_signals: bool,
    /// Open a market-defence case for the line.
    pub open_case: bool,
}

/// Decides what a run does with a line's findings. When the request allows
/// signals, every finding becomes a signal, and a line with a finding that
/// needs human attention gets a case unless one is already open for it. A
/// run that does not raise signals only reports.
pub fn line_actions(raise_signals: bool, severities: &Vec<String>, open_case_exists: bool) -> (actions:
    LineActions)
    ensures
        actions.raise_signals == raise_signals,
        actions.open_case == (raise_signals && some_actionable(severities@) && !open_case_exists),
{
    let actionable_line = any_actionable(severities);
    LineActions {
        raise_signals,
        open_case: raise_signals && actionable_line && !open_case_exists,
    }
}

/// When a recorded competitor move happened and whether it favoured them.
#[derive(Debug, Clone)]
pub struct MoveStamp {
    pub favourable_to_them: bool,
    /// When the new value was observed (RFC 3339, UTC).
    pub changed_at: String,
}

/// Move `m` is reported by a run whose previous position was captured at
/// `captured_at`: it improved the competitor's standing and landed after that.
pub open spec fn is_new_move(m: MoveStamp, captured_at: Seq<char>) -> bool {
    m.favourable_to_them && text_before(captured_at, m.changed_at@)
}

/// The competitor moves a run reports, in the order given: those that
/// favoured the competitor and landed after the previous position was
/// captured. A move already known at the last run is not raised again.
pub fn new_competitor_moves(moves: &Vec<MoveStamp>, captured_at: &str) -> (picked: Vec<usize>)
    ensures
        forall|k: int| 0 <= k < picked@.len() ==> #[trigger] picked@[k] < moves@.len(),
        forall|k: int|
            0 <= k < picked@.len() ==> is_new_move(moves@[#[trigger] picked@[k] as int], captured_at@),
        forall|k: int, l: int| 0 <= k < l < picked@.len() ==> #[trigger] picked@[k] < #[trigger] picked@[l],
        forall|i: int|
            0 <= i < moves@.len() && is_new_move(#[trigger] moves@[i], captured_at@) ==> picked@.contains(
                i as usize,
            ),
{
    let mut picked: Vec<usize> = Vec::new();
    let mut i: usize = 0;
    while i < moves.len()
        invariant
            i <= moves@.len(),
            forall|k: int| 0 <= k < picked@.len() ==> #[trigger] picked@[k] < i,
            forall|k: int|
                0 <= k < picked@.len() ==> is_new_move(
                    moves@[#[trigger] picked@[k] as int],
                    captured_at@,
                ),
            forall|k: int, l: int| 0 <= k < l < picked@.len() ==> #[trigger] picked@[k] < #[trigger] picked@[l],
            forall|j: int|
                0 <= j < i && is_new_move(#[trigger] moves@[j], captured_at@) ==> picked@.contains(
                    j as usize,
                ),
        decreases moves@.len() - i,
    {
        let m = &moves[i];
        let ghost before = picked@;
        if m.favourable_to_them && precedes(captured_at, m.changed_at.as_str()) {
            picked.push(i);
            assert(picked@[picked@.len() - 1] == i);
        }
        proof {
            assert forall|j: int|
                0 <= j < i + 1 && is_new_move(#[trigger] moves@[j], captured_at@) implies picked@.contains(
                j as usize,
            ) by {
                if j < i {
                    let k = choose|k: int| 0 <= k < before.len() && before[k] == j as usize;
                    assert(picked@[k] == before[k]);
                } else {
                    assert(picked@[picked@.len() - 1] == i);
                }
            }
        }
        i = i + 1;
    }
    picked
}

/// A run with no previous position to compare against only establishes a
/// baseline; the service runs one at start-up when no run has been recorded.
pub fn needs_baseline_run(recorded_runs: i64) -> (r: bool)
    ensures
        r == (recorded_runs <= 0),
{
    recorded_runs <= 0
}

/// How a scheduled competitive-position check ended.
#[derive(Debug, Clone, Copy, PartialEq, Eq)]
pub enum CheckOutcome {
    /// The run completed; `breached` says whether any finding needs a human.
    Completed { breached: bool },
    /// The options could not be read or the run failed.
    Failed,
}

/// The exit code of a scheduled check: 2 when it could not run, 1 when our
/// position moved against us beyond a threshold (unless breaches are
/// allowed), 0 otherwise. A scheduled job fails when we are being left
/// behind, the way a test suite fails when code breaks.
pub fn check_exit_code(outcome: CheckOutcome, allow_breach: bool) -> (code: u8)
    ensures
        outcome == CheckOutcome::Failed ==> code == 2,
        outcome == (CheckOutcome::Completed { breached: true }) ==> code == if allow_breach {
            0u8
        } else {
            1u8
        },
        outcome == (CheckOutcome::Completed { breached: false }) ==> code == 0,
{
    match outcome {
        CheckOutcome::Failed => 2,
        CheckOutcome::Completed { breached } => if breached && !allow_breach {
            1
        } else {
            0
        },
    }
}

} // verus!
