//! Request and receipt types of the decision, approval, audit and monitor
//! endpoints.

use vstd::prelude::*;

verus! {

/// A decision maker's decision on an evaluated scenario.
#[derive(Debug, Clone)]
pub struct SubmitDecisionRequest {
    pub case_id: String,
    pub scenario_id: String,
    pub decision: String,
    pub notes: Option<String>,
}

/// What a recorded decision returns: its id and the role that decides next.
#[derive(Debug, Clone)]
pub struct DecisionReceipt {
    pub decision_id: String,
    pub case_id: String,
    pub scenario_id: String,
    pub decision: String,
    pub next_approval_role: Option<String>,
    pub created_at: String,
}

/// A decision on a case's pending approval gate.
#[derive(Debug, Clone)]
pub struct AdvanceApprovalRequest {
    pub decision: String,
    pub notes: Option<String>,
}

/// Filter of the audit trail listing.
#[derive(Debug, Clone)]
pub struct AuditQuery {
    pub case_id: Option<String>,
}

/// A request to run the competitive monitor.
#[derive(Debug, Clone)]
pub struct MonitorRunRequest {
    pub trigger: Option<String>,
    /// When false, the run reports drift without creating signals or cases.
    pub raise_signals: bool,
}

/// The value a request body that leaves `raise_signals` out takes: signals
/// are raised.
pub fn default_true() -> (b: bool)
    ensures
        b,
{
    true
}

impl Default for MonitorRunRequest {
    /// The request a call without any body stands for: no trigger named and
    /// no signals raised, as for every `bool` left at its default. A body
    /// that leaves `raise_signals` out is another matter: that field then
    /// takes `default_true`, so such a run raises signals.
    fn default() -> (request: MonitorRunRequest)
        ensures
            request.trigger is None,
            !request.raise_signals,
    {
        MonitorRunRequest { trigger: None, raise_signals: false }
    }
}

} // verus!
