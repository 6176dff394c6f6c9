//! The agent workflow run over a case: observe, enrich, diagnose, simulate,
//! govern and measure. The narrative is fixed; the enrichment step reports the
//! case's evidence ledger.

use vstd::prelude::*;

use crate::models::{AgentRunResult, AgentStepResult, EvidenceItem};
use crate::text::{decimal, decimal_text, same_text};

verus! {

/// The evidence item was admitted to the case.
pub open spec fn admitted(item: EvidenceItem) -> bool {
    item.admission_status@ == "admitted"@
}

/// How many of the first `n` evidence items were admitted.
pub open spec fn admitted_count(items: Seq<EvidenceItem>, n: int) -> nat
    decreases n,
{
    if n <= 0 || items.len() < n {
        0
    } else {
        admitted_count(items, n - 1) + if admitted(items[n - 1]) {
            1nat
        } else {
            0nat
        }
    }
}

/// Counts the admitted evidence items, and those excluded or blocked.
pub fn evidence_counts(items: &Vec<EvidenceItem>) -> (counts: (usize, usize))
    ensures
        counts.0 == admitted_count(items@, items@.len() as int),
        counts.0 + counts.1 == items@.len(),
{
    let mut admitted_items: usize = 0;
    let mut i: usize = 0;
    while i < items.len()
        invariant
            i <= items@.len(),
            admitted_items == admitted_count(items@, i as int),
            admitted_items <= i,
        decreases items@.len() - i,
    {
        if same_text(items[i].admission_status.as_str(), "admitted") {
            admitted_items = admitted_items + 1;
        }
        i = i + 1;
    }
    (admitted_items, items.len() - admitted_items)
}

/// The summary of the enrichment step.
pub open spec fn enrich_summary(admitted_items: nat, other_items: nat) -> Seq<char> {
    "Admitted "@ + decimal(admitted_items) + " evidence items and excluded or blocked "@
        + decimal(other_items) + " items."@
}

/// The fixed steps of the workflow as (step, status, summary); the
/// enrichment step's summary is `enrich_summary`.
pub open spec fn fixed_step(i: int) -> (Seq<char>, Seq<char>, Seq<char>) {
    if i == 0 {
        ("observe"@, "completed"@, "Connected the competitor signal to the affected product, channel and customer segment."@)
    } else if i == 2 {
        ("diagnose"@, "completed"@, "Underwriting turnaround is the highest-confidence root cause; adviser workflow friction ranks second."@)
    } else if i == 3 {
        ("simulate"@, "completed"@, "Prepared four response templates for deterministic scenario evaluation."@)
    } else if i == 4 {
        ("govern"@, "completed_with_review"@, "TCF, POPIA and competition-information checks passed; outsourcing and model validation remain review items."@)
    } else {
        ("measure"@, "ready"@, "Defined conversion, new-business premium, VNB, margin, capital, claims and customer-outcome measures."@)
    }
}

/// A workflow step as (step, status, summary).
pub open spec fn step_view(s: AgentStepResult) -> (Seq<char>, Seq<char>, Seq<char>) {
    (s.step@, s.status@, s.summary@)
}

fn step(name: &str, status: &str, summary: String) -> (s: AgentStepResult)
    ensures
        step_view(s) == (name@, status@, summary@),
{
    AgentStepResult { step: String::from_str(name), status: String::from_str(status), summary }
}

/// The result of an agent analysis of a case, before it is stored. The run id
/// is empty until the run is saved; the enrichment step counts the admitted
/// evidence items and those excluded or blocked.
pub fn case_analysis(case_id: String, evidence: &Vec<EvidenceItem>) -> (result: AgentRunResult)
    ensures
        result.run_id@ == Seq::<char>::empty(),
        result.case_id == case_id,
        result.status@ == "completed"@,
        result.primary_finding@
            == "Underwriting turnaround and adviser workflow friction explain more of the observed deterioration than broad price competitiveness."@,
        result.steps@.len() == 6,
        step_view(result.steps@[1]) == ("enrich"@, "completed"@, enrich_summary(
            admitted_count(evidence@, evidence@.len() as int),
            (evidence@.len() - admitted_count(evidence@, evidence@.len() as int)) as nat,
        )),
        forall|i: int| 0 <= i < 6 && i != 1 ==> step_view(#[trigger] result.steps@[i]) == fixed_step(i),
{
    let (admitted_items, other_items) = evidence_counts(evidence);
    let mut enrich = String::from_str("Admitted ");
    let admitted_text = decimal_text(admitted_items);
    enrich.append(admitted_text.as_str());
    enrich.append(" evidence items and excluded or blocked ");
    let other_text = decimal_text(other_items);
    enrich.append(other_text.as_str());
    enrich.append(" items.");
    let mut steps = Vec::new();
    steps.push(step("observe", "completed", String::from_str("Connected the competitor signal to the affected product, channel and customer segment.")));
    steps.push(step("enrich", "completed", enrich));
    steps.push(step("diagnose", "completed", String::from_str("Underwriting turnaround is the highest-confidence root cause; adviser workflow friction ranks second.")));
    steps.push(step("simulate", "completed", String::from_str("Prepared four response templates for deterministic scenario evaluation.")));
    steps.push(step("govern", "completed_with_review", String::from_str("TCF, POPIA and competition-information checks passed; outsourcing and model validation remain review items.")));
    steps.push(step("measure", "ready", String::from_str("Defined conversion, new-business premium, VNB, margin, capital, claims and customer-outcome measures.")));
    AgentRunResult {
        run_id: String::new(),
        case_id,
        status: String::from_str("completed"),
        primary_finding: String::from_str("Underwriting turnaround and adviser workflow friction explain more of the observed deterioration than broad price competitiveness."),
        steps,
    }
}

} // verus!
