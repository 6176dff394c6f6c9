//! The records a new market-defence case starts with: its id, its evidence
//! ledger and its governance checks. The demonstration case and a case the
//! monitor opens carry different ledgers and checks.

use vstd::prelude::*;

use crate::ids::new_id;
use crate::models::{EvidenceItem, GovernanceCheck};
use crate::observations::{admissible_source, law_only_four_sources_are_admissible};
use crate::text::{decimal, decimal_text};

verus! {

/// A number written with at least three digits, zero-padded on the left.
pub open spec fn three_digits(n: nat) -> Seq<char> {
    if n < 10 {
        "00"@ + decimal(n)
    } else if n < 100 {
        "0"@ + decimal(n)
    } else {
        decimal(n)
    }
}

/// The id of the case opened when `existing_cases` cases exist. The
/// demonstration case is `MS-2026-017`, and each later case takes the next
/// number.
pub open spec fn case_id_after(existing_cases: nat) -> Seq<char> {
    "MS-2026-"@ + three_digits(existing_cases + 17)
}

/// The id for the next case, given how many cases exist already.
pub fn next_case_id(existing_cases: usize) -> (id: String)
    requires
        existing_cases + 17 <= usize::MAX,
    ensures
        id@ == case_id_after(existing_cases as nat),
{
    let n = existing_cases + 17;
    let digits = decimal_text(n);
    let mut id = String::from_str("MS-2026-");
    if n < 10 {
        id.append("00");
    } else if n < 100 {
        id.append("0");
    }
    id.append(digits.as_str());
    proof {
        reveal_strlit("MS-2026-");
        reveal_strlit("00");
        reveal_strlit("0");
        assert(id@ =~= case_id_after(existing_cases as nat));
    }
    id
}

/// An evidence item as (label, detail, source classification, admission).
pub open spec fn evidence_view(e: EvidenceItem) -> (Seq<char>, Seq<char>, Seq<char>, Seq<char>) {
    (e.label@, e.detail@, e.source_classification@, e.admission_status@)
}

/// A governance check as (code, name, status, rationale).
pub open spec fn check_view(c: GovernanceCheck) -> (Seq<char>, Seq<char>, Seq<char>, Seq<char>) {
    (c.code@, c.name@, c.status@, c.rationale@)
}

/// The evidence ledger of the demonstration case, in order.
pub open spec fn demo_evidence(i: int) -> (Seq<char>, Seq<char>, Seq<char>, Seq<char>) {
    if i == 0 {
        ("Public competitor brochure"@, "Product feature extraction from a public source."@, "public"@, "admitted"@)
    } else if i == 1 {
        ("Quote and issue funnel"@, "Aggregated internal quote, application and issue data."@, "approved_internal"@, "admitted"@)
    } else if i == 2 {
        ("Adviser loss-reason survey"@, "Aggregated responses from 214 advisers."@, "consented"@, "admitted"@)
    } else if i == 3 {
        ("Customer-level health details"@, "Not required to diagnose the market-share problem."@, "special_personal_information"@, "excluded"@)
    } else {
        ("Non-public competitor pricing"@, "Competitively sensitive information is not admitted."@, "competitively_sensitive"@, "blocked"@)
    }
}

/// The governance checks of the demonstration case, in order.
pub open spec fn demo_check(i: int) -> (Seq<char>, Seq<char>, Seq<char>, Seq<char>) {
    if i == 0 {
        ("TCF"@, "Customer outcome assessment"@, "pass"@, "Target market, value, communication, servicing and post-sale outcomes are included."@)
    } else if i == 1 {
        ("POPIA-71"@, "Automated decision control"@, "pass"@, "The solution recommends actions; it does not make a solely automated material customer decision."@)
    } else if i == 2 {
        ("COMP-INFO"@, "Competition information control"@, "pass"@, "Only public, licensed or internally generated evidence is admitted."@)
    } else {
        ("OUTSOURCE"@, "Outsourcing materiality assessment"@, "review"@, "Production hosting and model-provider arrangements require formal assessment."@)
    }
}

/// The detail of the comparison evidence of a case the monitor opens.
pub open spec fn comparison_detail(feature_count: nat, provider_count: nat) -> Seq<char> {
    decimal(feature_count) + " tracked dimensions across "@ + decimal(provider_count)
        + " providers, drawn from published disclosures and approved internal product data."@
}

/// The evidence ledger of a case the monitor opens, in order, for a
/// comparison of `feature_count` dimensions across `provider_count` providers.
pub open spec fn monitor_evidence(i: int, feature_count: nat, provider_count: nat) -> (
    Seq<char>,
    Seq<char>,
    Seq<char>,
    Seq<char>,
) {
    if i == 0 {
        ("Competitor feature comparison"@, comparison_detail(feature_count, provider_count), "public"@, "admitted"@)
    } else if i == 1 {
        ("Competitive position time series"@, "Recorded position snapshots showing when the decline began."@, "approved_internal"@, "admitted"@)
    } else {
        ("Non-public competitor pricing"@, "Competitively sensitive information is not admitted."@, "competitively_sensitive"@, "blocked"@)
    }
}

/// The governance checks of a case the monitor opens, in order.
pub open spec fn monitor_check(i: int) -> (Seq<char>, Seq<char>, Seq<char>, Seq<char>) {
    if i == 0 {
        ("COMP-INFO"@, "Competition information control"@, "pass"@, "Every competitor value carries a published source reference; no non-public pricing was admitted."@)
    } else if i == 1 {
        ("POPIA-71"@, "Automated decision control"@, "pass"@, "The monitor opened a case for human diagnosis. It made no customer decision."@)
    } else if i == 2 {
        ("TCF"@, "Customer outcome assessment"@, "review"@, "Customer-outcome impact must be assessed against whichever response is selected."@)
    } else {
        ("MODEL-VAL"@, "Model validation"@, "review"@, "Position scoring is a deterministic demonstration model and is not validated for decision use."@)
    }
}

/// A new case's evidence ledger admits an item exactly when its source
/// classification is one a competitor value may be recorded from: the
/// ledgers and the provenance rule never disagree.
pub proof fn law_ledgers_admit_exactly_the_admissible_sources(
    i: int,
    feature_count: nat,
    provider_count: nat,
)
    ensures
        0 <= i < 5 ==> (demo_evidence(i).3 == "admitted"@ <==> admissible_source(
            demo_evidence(i).2,
        )),
        0 <= i < 3 ==> (monitor_evidence(i, feature_count, provider_count).3 == "admitted"@
            <==> admissible_source(monitor_evidence(i, feature_count, provider_count).2)),
{
    law_only_four_sources_are_admissible("special_personal_information"@);
    reveal_strlit("admitted");
    reveal_strlit("excluded");
    reveal_strlit("blocked");
    assert("admitted"@[0] != "excluded"@[0]);
    assert("admitted"@[0] != "blocked"@[0]);
}

fn evidence(case_id: &str, label: &str, detail: String, source: &str, admission: &str) -> (e:
    EvidenceItem)
    ensures
        e.case_id@ == case_id@,
        evidence_view(e) == (label@, detail@, source@, admission@),
{
    EvidenceItem {
        id: new_id(),
        case_id: String::from_str(case_id),
        label: String::from_str(label),
        detail,
        source_classification: String::from_str(source),
        admission_status: String::from_str(admission),
    }
}

fn check(case_id: &str, code: &str, name: &str, status: &str, rationale: &str) -> (c:
    GovernanceCheck)
    ensures
        c.case_id@ == case_id@,
        check_view(c) == (code@, name@, status@, rationale@),
{
    GovernanceCheck {
        id: new_id(),
        case_id: String::from_str(case_id),
        code: String::from_str(code),
        name: String::from_str(name),
        status: String::from_str(status),
        rationale: String::from_str(rationale),
    }
}

/// The evidence ledger the demonstration case is seeded with: three admitted
/// sources, customer health details excluded, and non-public competitor
/// pricing blocked. Each item gets a fresh id.
pub fn demo_case_evidence(case_id: &str) -> (items: Vec<EvidenceItem>)
    ensures
        items@.len() == 5,
        forall|i: int|
            #![trigger items@[i]]
            0 <= i < 5 ==> items@[i].case_id@ == case_id@ && evidence_view(items@[i])
                == demo_evidence(i),
{
    let mut items = Vec::new();
    items.push(evidence(case_id, "Public competitor brochure", String::from_str("Product feature extraction from a public source."), "public", "admitted"));
    items.push(evidence(case_id, "Quote and issue funnel", String::from_str("Aggregated internal quote, application and issue data."), "approved_internal", "admitted"));
    items.push(evidence(case_id, "Adviser loss-reason survey", String::from_str("Aggregated responses from 214 advisers."), "consented", "admitted"));
    items.push(evidence(case_id, "Customer-level health details", String::from_str("Not required to diagnose the market-share problem."), "special_personal_information", "excluded"));
    items.push(evidence(case_id, "Non-public competitor pricing", String::from_str("Competitively sensitive information is not admitted."), "competitively_sensitive", "blocked"));
    items
}

/// The governance checks the demonstration case is seeded with: customer
/// outcomes, automated decisions and competition information pass;
/// outsourcing is under review. Each check gets a fresh id.
pub fn demo_case_checks(case_id: &str) -> (checks: Vec<GovernanceCheck>)
    ensures
        checks@.len() == 4,
        forall|i: int|
            #![trigger checks@[i]]
            0 <= i < 4 ==> checks@[i].case_id@ == case_id@ && check_view(checks@[i]) == demo_check(
                i,
            ),
{
    let mut checks = Vec::new();
    checks.push(check(case_id, "TCF", "Customer outcome assessment", "pass", "Target market, value, communication, servicing and post-sale outcomes are included."));
    checks.push(check(case_id, "POPIA-71", "Automated decision control", "pass", "The solution recommends actions; it does not make a solely automated material customer decision."));
    checks.push(check(case_id, "COMP-INFO", "Competition information control", "pass", "Only public, licensed or internally generated evidence is admitted."));
    checks.push(check(case_id, "OUTSOURCE", "Outsourcing materiality assessment", "review", "Production hosting and model-provider arrangements require formal assessment."));
    checks
}

/// The evidence ledger of a case the monitor opens: the feature comparison
/// (with how many dimensions and providers it covers) and the position time
/// series are admitted; non-public competitor pricing is blocked. Each item
/// gets a fresh id.
pub fn monitor_case_evidence(case_id: &str, feature_count: usize, provider_count: usize) -> (items:
    Vec<EvidenceItem>)
    ensures
        items@.len() == 3,
        forall|i: int|
            #![trigger items@[i]]
            0 <= i < 3 ==> items@[i].case_id@ == case_id@ && evidence_view(items@[i])
                == monitor_evidence(i, feature_count as nat, provider_count as nat),
{
    let mut detail = decimal_text(feature_count);
    detail.append(" tracked dimensions across ");
    let providers = decimal_text(provider_count);
    detail.append(providers.as_str());
    detail.append(" providers, drawn from published disclosures and approved internal product data.");
    proof {
        assert(detail@ =~= comparison_detail(feature_count as nat, provider_count as nat));
    }
    let mut items = Vec::new();
    items.push(evidence(case_id, "Competitor feature comparison", detail, "public", "admitted"));
    items.push(evidence(case_id, "Competitive position time series", String::from_str("Recorded position snapshots showing when the decline began."), "approved_internal", "admitted"));
    items.push(evidence(case_id, "Non-public competitor pricing", String::from_str("Competitively sensitive information is not admitted."), "competitively_sensitive", "blocked"));
    items
}

/// The governance checks of a case the monitor opens: competition
/// information and automated decisions pass; customer outcomes and model
/// validation are under review. Each check gets a fresh id.
pub fn monitor_case_checks(case_id: &str) -> (checks: Vec<GovernanceCheck>)
    ensures
        checks@.len() == 4,
        forall|i: int|
            #![trigger checks@[i]]
            0 <= i < 4 ==> checks@[i].case_id@ == case_id@ && check_view(checks@[i])
                == monitor_check(i),
{
    let mut checks = Vec::new();
    checks.push(check(case_id, "COMP-INFO", "Competition information control", "pass", "Every competitor value carries a published source reference; no non-public pricing was admitted."));
    checks.push(check(case_id, "POPIA-71", "Automated decision control", "pass", "The monitor opened a case for human diagnosis. It made no customer decision."));
    checks.push(check(case_id, "TCF", "Customer outcome assessment", "review", "Customer-outcome impact must be assessed against whichever response is selected."));
    checks.push(check(case_id, "MODEL-VAL", "Model validation", "review", "Position scoring is a deterministic demonstration model and is not validated for decision use."));
    checks
}

} // verus!
