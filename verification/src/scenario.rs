//! The response templates of the scenario engine: which product line each
//! applies to, how its stress tests come out, and how those settle the
//! recommendation. The economics of a template (conversion, uptake, margin,
//! claims and capital figures) are computed by the service around this crate.

use vstd::prelude::*;

use crate::error::AppError;
use crate::models::{scenario_key, scenario_line, ScenarioKind, StressResult};
use crate::text::same_text;

verus! {

/// A stress result as (name, status, rationale).
pub open spec fn stress_view(s: StressResult) -> (Seq<char>, Seq<char>, Seq<char>) {
    (s.name@, s.status@, s.rationale@)
}

/// Every stress result of a list as (name, status, rationale).
pub open spec fn stress_views(s: Seq<StressResult>) -> Seq<(Seq<char>, Seq<char>, Seq<char>)> {
    s.map_values(|r: StressResult| stress_view(r))
}

fn stress(name: &str, status: &str, rationale: &str) -> (s: StressResult)
    ensures
        stress_view(s) == (name@, status@, rationale@),
{
    StressResult {
        name: String::from_str(name),
        status: String::from_str(status),
        rationale: String::from_str(rationale),
    }
}

/// The margin, in percent, below which a template's margin test fails.
pub open spec fn margin_floor(kind: ScenarioKind) -> Option<u32> {
    match kind {
        ScenarioKind::RapidUnderwriting | ScenarioKind::TargetedPremiumReduction => Some(10),
        ScenarioKind::RaFeeRestructure | ScenarioKind::RaTransferTurnaround => Some(6),
        _ => None,
    }
}

/// The margin, in percent, below which the template's margin stress test
/// fails; `None` when the template has no margin test.
pub fn margin_floor_pct(kind: ScenarioKind) -> (floor: Option<u32>)
    ensures
        floor == margin_floor(kind),
{
    match kind {
        ScenarioKind::RapidUnderwriting | ScenarioKind::TargetedPremiumReduction => Some(10),
        ScenarioKind::RaFeeRestructure | ScenarioKind::RaTransferTurnaround => Some(6),
        _ => None,
    }
}

/// The highest expected claims index a template's claims test passes at.
pub open spec fn claims_limit(kind: ScenarioKind) -> Option<u32> {
    match kind {
        ScenarioKind::BenefitRewardsBundle => Some(102),
        _ => None,
    }
}

/// The highest expected claims index at which the template's claims stress
/// test passes; `None` when the template has no claims test.
pub fn claims_allowance(kind: ScenarioKind) -> (limit: Option<u32>)
    ensures
        limit == claims_limit(kind),
{
    match kind {
        ScenarioKind::BenefitRewardsBundle => Some(102),
        _ => None,
    }
}

/// The stress tests of a template, as (name, status, rationale). `margin_ok`
/// says the scenario margin meets the template's margin floor and `claims_ok`
/// that the claims index is within its allowance.
pub open spec fn stress_plan(kind: ScenarioKind, margin_ok: bool, claims_ok: bool) -> Seq<(Seq<char>, Seq<char>, Seq<char>)> {
    match kind {
        ScenarioKind::RapidUnderwriting => seq![
            ("Claims deterioration"@, if margin_ok { "pass"@ } else { "fail"@ }, "Margin remains above the demo pilot threshold after an adverse selection allowance."@),
            ("Lower adoption"@, "pass"@, "The value case remains positive at 50% of expected uptake."@),
            ("Fairness review"@, "review"@, "Eligibility criteria require compliance challenge and customer-outcome monitoring."@),
        ],
        ScenarioKind::TargetedPremiumReduction => seq![
            ("Margin resilience"@, if margin_ok { "pass"@ } else { "fail"@ }, "The broad discount materially reduces the new-business margin."@),
            ("Competitor response"@, "fail"@, "The option creates a credible risk of price escalation without removing workflow friction."@),
            ("Fairness review"@, "pass"@, "The segment criteria can be disclosed and consistently applied."@),
        ],
        ScenarioKind::BenefitRewardsBundle => seq![
            ("Claims and utilisation"@, if claims_ok { "pass"@ } else { "review"@ }, "Additional behavioural and utilisation evidence is required."@),
            ("Delivery delay"@, "fail"@, "The expected lead time may miss the current competitive response window."@),
            ("Customer clarity"@, "review"@, "Benefit conditions require consumer testing and plain-language review."@),
        ],
        ScenarioKind::RaFeeRestructure => seq![
            ("Margin resilience"@, if margin_ok { "pass"@ } else { "fail"@ }, "The restructure holds above the savings-business margin floor used in this demonstration, with little headroom."@),
            ("Existing book repricing"@, "review"@, "Applying the new fee basis to in-force policies is required for fair treatment, and materially widens the cost of the response."@),
            ("Competitor response"@, "review"@, "The leading competitor retains room to price below the proposed basis."@),
        ],
        ScenarioKind::RaTransferTurnaround => seq![
            ("Margin resilience"@, if margin_ok { "pass"@ } else { "fail"@ }, "The response is operational, so the new-business margin is largely preserved."@),
            ("Delivery capacity"@, "review"@, "The turnaround target depends on transfer administration capacity and third-party fund-house response times."@),
            ("Residual cost gap"@, "fail"@, "Faster transfers do not close the diagnosed effective-annual-cost gap, which remains the largest single deficit."@),
        ],
        ScenarioKind::RaFundRangeExpansion => seq![
            ("Evidence strength"@, "fail"@, "Fund choice ranks below cost and transfer speed in the diagnosed loss drivers, so the expected share response is weak."@),
            ("Reg 28 and due diligence"@, "review"@, "Each added portfolio requires Regulation 28 compliance and manager due diligence."@),
            ("Residual cost gap"@, "fail"@, "The response leaves both the effective-annual-cost and transfer-turnaround gaps fully open."@),
        ],
        ScenarioKind::ObserveOnly => seq![
            ("Further share decline"@, "fail"@, "The material economic exposure remains substantially unaddressed."@),
            ("False signal"@, "pass"@, "The option avoids unnecessary product or pricing changes if the diagnosis proves wrong."@),
            ("Adviser confidence"@, "fail"@, "The leading workflow and turnaround issue remains unresolved."@),
        ],
    }
}
/// The stress tests of a template. Whether each margin or claims test passes
/// is given by `margin_ok` (the scenario margin meets `margin_floor_pct`) and
/// `claims_ok` (the claims index is within `claims_allowance`); every other
/// outcome is fixed by the template.
pub fn stress_results(kind: ScenarioKind, margin_ok: bool, claims_ok: bool) -> (results: Vec<
    StressResult,
>)
    ensures
        stress_views(results@) == stress_plan(kind, margin_ok, claims_ok),
{
    let mut results = Vec::new();
    match kind {
        ScenarioKind::RapidUnderwriting => {
            results.push(stress("Claims deterioration", if margin_ok { "pass" } else { "fail" }, "Margin remains above the demo pilot threshold after an adverse selection allowance."));
            results.push(stress("Lower adoption", "pass", "The value case remains positive at 50% of expected uptake."));
            results.push(stress("Fairness review", "review", "Eligibility criteria require compliance challenge and customer-outcome monitoring."));
        },
        ScenarioKind::TargetedPremiumReduction => {
            results.push(stress("Margin resilience", if margin_ok { "pass" } else { "fail" }, "The broad discount materially reduces the new-business margin."));
            results.push(stress("Competitor response", "fail", "The option creates a credible risk of price escalation without removing workflow friction."));
            results.push(stress("Fairness review", "pass", "The segment criteria can be disclosed and consistently applied."));
        },
        ScenarioKind::BenefitRewardsBundle => {
            results.push(stress("Claims and utilisation", if claims_ok { "pass" } else { "review" }, "Additional behavioural and utilisation evidence is required."));
            results.push(stress("Delivery delay", "fail", "The expected lead time may miss the current competitive response window."));
            results.push(stress("Customer clarity", "review", "Benefit conditions require consumer testing and plain-language review."));
        },
        ScenarioKind::RaFeeRestructure => {
            results.push(stress("Margin resilience", if margin_ok { "pass" } else { "fail" }, "The restructure holds above the savings-business margin floor used in this demonstration, with little headroom."));
            results.push(stress("Existing book repricing", "review", "Applying the new fee basis to in-force policies is required for fair treatment, and materially widens the cost of the response."));
            results.push(stress("Competitor response", "review", "The leading competitor retains room to price below the proposed basis."));
        },
        ScenarioKind::RaTransferTurnaround => {
            results.push(stress("Margin resilience", if margin_ok { "pass" } else { "fail" }, "The response is operational, so the new-business margin is largely preserved."));
            results.push(stress("Delivery capacity", "review", "The turnaround target depends on transfer administration capacity and third-party fund-house response times."));
            results.push(stress("Residual cost gap", "fail", "Faster transfers do not close the diagnosed effective-annual-cost gap, which remains the largest single deficit."));
        },
        ScenarioKind::RaFundRangeExpansion => {
            results.push(stress("Evidence strength", "fail", "Fund choice ranks below cost and transfer speed in the diagnosed loss drivers, so the expected share response is weak."));
            results.push(stress("Reg 28 and due diligence", "review", "Each added portfolio requires Regulation 28 compliance and manager due diligence."));
            results.push(stress("Residual cost gap", "fail", "The response leaves both the effective-annual-cost and transfer-turnaround gaps fully open."));
        },
        ScenarioKind::ObserveOnly => {
            results.push(stress("Further share decline", "fail", "The material economic exposure remains substantially unaddressed."));
            results.push(stress("False signal", "pass", "The option avoids unnecessary product or pricing changes if the diagnosis proves wrong."));
            results.push(stress("Adviser confidence", "fail", "The leading workflow and turnaround issue remains unresolved."));
        },
    }
    assert(stress_views(results@) =~= stress_plan(kind, margin_ok, claims_ok));
    results
}

/// How many stress results in a plan failed.
pub open spec fn plan_fails(p: Seq<(Seq<char>, Seq<char>, Seq<char>)>) -> nat
    decreases p.len(),
{
    if p.len() == 0 {
        0
    } else {
        plan_fails(p.drop_last()) + if p.last().1 == "fail"@ {
            1nat
        } else {
            0nat
        }
    }
}

/// The recommendation a number of failed stress tests leads to.
pub open spec fn recommendation_view(fails: nat) -> Seq<char> {
    if fails == 0 {
        "viable"@
    } else if fails == 1 {
        "conditional"@
    } else {
        "not_preferred"@
    }
}

/// Settles a scenario's recommendation from its stress tests: `viable` when
/// none failed, `conditional` when one did, `not_preferred` otherwise.
pub fn recommendation_status(stresses: &Vec<StressResult>) -> (status: String)
    ensures
        status@ == recommendation_view(plan_fails(stress_views(stresses@))),
{
    let mut failed: usize = 0;
    let mut i: usize = 0;
    while i < stresses.len()
        invariant
            i <= stresses@.len(),
            failed == plan_fails(stress_views(stresses@.take(i as int))),
            failed <= i,
        decreases stresses@.len() - i,
    {
        proof {
            assert(stress_views(stresses@.take(i + 1)).drop_last() =~= stress_views(
                stresses@.take(i as int),
            ));
        }
        if same_text(stresses[i].status.as_str(), "fail") {
            failed = failed + 1;
        }
        i = i + 1;
    }
    assert(stresses@.take(stresses@.len() as int) =~= stresses@);
    if failed == 0 {
        String::from_str("viable")
    } else if failed == 1 {
        String::from_str("conditional")
    } else {
        String::from_str("not_preferred")
    }
}

proof fn lemma_outcome_words_distinct()
    ensures
        "pass"@ != "fail"@,
        "review"@ != "fail"@,
{
    reveal_strlit("pass");
    reveal_strlit("fail");
    reveal_strlit("review");
    assert("pass"@[0] != "fail"@[0]);
    assert("review"@.len() != "fail"@.len());
}

/// How many of a template's stress tests fail: only the margin or claims test
/// can change, so the count is fixed by the template and that one outcome.
pub open spec fn template_fails(kind: ScenarioKind, margin_ok: bool) -> nat {
    match kind {
        ScenarioKind::RapidUnderwriting => if margin_ok {
            0
        } else {
            1
        },
        ScenarioKind::TargetedPremiumReduction => if margin_ok {
            1
        } else {
            2
        },
        ScenarioKind::BenefitRewardsBundle => 1,
        ScenarioKind::RaFeeRestructure => if margin_ok {
            0
        } else {
            1
        },
        ScenarioKind::RaTransferTurnaround => if margin_ok {
            1
        } else {
            2
        },
        ScenarioKind::RaFundRangeExpansion => 2,
        ScenarioKind::ObserveOnly => 2,
    }
}

/// The number of failed stress tests of each template. In particular an
/// observe-only response and a fund range expansion fail two tests whatever
/// the overrides, so they are never better than `not_preferred`, and rapid
/// underwriting and the fee restructure are `viable` exactly when their
/// margin holds.
pub proof fn lemma_template_fail_counts(kind: ScenarioKind, margin_ok: bool, claims_ok: bool)
    ensures
        plan_fails(stress_plan(kind, margin_ok, claims_ok)) == template_fails(kind, margin_ok),
{
    lemma_outcome_words_distinct();
    let p = stress_plan(kind, margin_ok, claims_ok);
    assert(p.drop_last().drop_last().drop_last() =~= Seq::<(Seq<char>, Seq<char>, Seq<char>)>::empty());
    reveal_with_fuel(plan_fails, 4);
}

/// A template has a margin floor exactly when its stress tests include a
/// margin test: a margin below the floor then fails one more test than a
/// margin that meets it, and without a floor the margin changes nothing. The
/// floor is 6% for a retirement annuity template and 10% for any other.
pub proof fn law_margin_floor_guards_the_margin_test(kind: ScenarioKind, claims_ok: bool)
    ensures
        margin_floor(kind) is Some <==> plan_fails(stress_plan(kind, false, claims_ok))
            == plan_fails(stress_plan(kind, true, claims_ok)) + 1,
        margin_floor(kind) is None ==> stress_plan(kind, false, claims_ok) == stress_plan(
            kind,
            true,
            claims_ok,
        ),
        margin_floor(kind) matches Some(f) ==> f == if scenario_line(kind) == Some(
            "retirement_annuity"@,
        ) {
            6u32
        } else {
            10u32
        },
{
    lemma_template_fail_counts(kind, false, claims_ok);
    lemma_template_fail_counts(kind, true, claims_ok);
    reveal_strlit("retirement_annuity");
    reveal_strlit("individual_life_risk");
    assert("retirement_annuity"@[0] != "individual_life_risk"@[0]);
}

/// A template has a claims allowance exactly when one of its stress tests
/// turns on the claims index; a claims index over the allowance sends that
/// test to review rather than failing it, so the count of failures, and the
/// recommendation, do not change.
pub proof fn law_claims_allowance_guards_the_claims_test(kind: ScenarioKind, margin_ok: bool)
    ensures
        claims_limit(kind) is Some <==> stress_plan(kind, margin_ok, false) != stress_plan(
            kind,
            margin_ok,
            true,
        ),
        plan_fails(stress_plan(kind, margin_ok, false)) == plan_fails(
            stress_plan(kind, margin_ok, true),
        ),
{
    lemma_template_fail_counts(kind, margin_ok, false);
    lemma_template_fail_counts(kind, margin_ok, true);
    reveal_strlit("pass");
    reveal_strlit("review");
    assert("pass"@.len() != "review"@.len());
    if kind == ScenarioKind::BenefitRewardsBundle {
        assert(stress_plan(kind, margin_ok, false)[0] != stress_plan(kind, margin_ok, true)[0]);
    } else {
        assert(stress_plan(kind, margin_ok, false) =~= stress_plan(kind, margin_ok, true));
    }
}

/// The scores and narrative of a response template.
#[derive(Debug, Clone)]
pub struct TemplateProfile {
    pub growth_score: u8,
    pub profitability_score: u8,
    pub customer_score: u8,
    pub delivery_score: u8,
    pub confidence_score: u8,
    pub narrative: &'static str,
}

/// A template's (growth, profitability, customer outcomes, delivery,
/// confidence) scores.
pub open spec fn template_scores(kind: ScenarioKind) -> (u8, u8, u8, u8, u8) {
    match kind {
        ScenarioKind::RapidUnderwriting => (86, 78, 88, 72, 84),
        ScenarioKind::TargetedPremiumReduction => (76, 45, 74, 91, 61),
        ScenarioKind::BenefitRewardsBundle => (65, 69, 77, 43, 55),
        ScenarioKind::RaFeeRestructure => (88, 52, 91, 66, 79),
        ScenarioKind::RaTransferTurnaround => (74, 81, 83, 58, 72),
        ScenarioKind::RaFundRangeExpansion => (46, 77, 62, 71, 44),
        ScenarioKind::ObserveOnly => (28, 83, 52, 96, 48),
    }
}

/// The narrative shown with a template.
pub open spec fn template_narrative(kind: ScenarioKind) -> Seq<char> {
    match kind {
        ScenarioKind::RapidUnderwriting => "Best balanced response. It targets the strongest diagnosed cause while limiting broad price and claims risk."@,
        ScenarioKind::TargetedPremiumReduction => "Fast to implement but economically weaker. It may treat the symptom while leaving workflow friction intact."@,
        ScenarioKind::BenefitRewardsBundle => "Potential proposition value, but delivery is slower and the evidence does not show benefits as the primary loss driver."@,
        ScenarioKind::RaFeeRestructure => "Directly closes the diagnosed effective-annual-cost gap. It is the strongest growth response, but it permanently resets margin on the existing book as well as new business."@,
        ScenarioKind::RaTransferTurnaround => "Attacks the Section 14 transfer turnaround gap without repricing. It protects margin, but it is an operations programme rather than a product change and lands more slowly."@,
        ScenarioKind::RaFundRangeExpansion => "Cheap to deliver, but the evidence ranks fund choice well below cost and transfer speed as a loss driver. Expect a limited share response."@,
        ScenarioKind::ObserveOnly => "Low execution risk, but likely to allow further profitable share loss if the diagnosis is correct."@,
    }
}

/// The scores and narrative of a template.
pub fn template_profile(kind: ScenarioKind) -> (profile: TemplateProfile)
    ensures
        (profile.growth_score, profile.profitability_score, profile.customer_score,
        profile.delivery_score, profile.confidence_score) == template_scores(kind),
        profile.narrative@ == template_narrative(kind),
{
    match kind {
        ScenarioKind::RapidUnderwriting => TemplateProfile {
            growth_score: 86,
            profitability_score: 78,
            customer_score: 88,
            delivery_score: 72,
            confidence_score: 84,
            narrative: "Best balanced response. It targets the strongest diagnosed cause while limiting broad price and claims risk.",
        },
        ScenarioKind::TargetedPremiumReduction => TemplateProfile {
            growth_score: 76,
            profitability_score: 45,
            customer_score: 74,
            delivery_score: 91,
            confidence_score: 61,
            narrative: "Fast to implement but economically weaker. It may treat the symptom while leaving workflow friction intact.",
        },
        ScenarioKind::BenefitRewardsBundle => TemplateProfile {
            growth_score: 65,
            profitability_score: 69,
            customer_score: 77,
            delivery_score: 43,
            confidence_score: 55,
            narrative: "Potential proposition value, but delivery is slower and the evidence does not show benefits as the primary loss driver.",
        },
        ScenarioKind::RaFeeRestructure => TemplateProfile {
            growth_score: 88,
            profitability_score: 52,
            customer_score: 91,
            delivery_score: 66,
            confidence_score: 79,
            narrative: "Directly closes the diagnosed effective-annual-cost gap. It is the strongest growth response, but it permanently resets margin on the existing book as well as new business.",
        },
        ScenarioKind::RaTransferTurnaround => TemplateProfile {
            growth_score: 74,
            profitability_score: 81,
            customer_score: 83,
            delivery_score: 58,
            confidence_score: 72,
            narrative: "Attacks the Section 14 transfer turnaround gap without repricing. It protects margin, but it is an operations programme rather than a product change and lands more slowly.",
        },
        ScenarioKind::RaFundRangeExpansion => TemplateProfile {
            growth_score: 46,
            profitability_score: 77,
            customer_score: 62,
            delivery_score: 71,
            confidence_score: 44,
            narrative: "Cheap to deliver, but the evidence ranks fund choice well below cost and transfer speed as a loss driver. Expect a limited share response.",
        },
        ScenarioKind::ObserveOnly => TemplateProfile {
            growth_score: 28,
            profitability_score: 83,
            customer_score: 52,
            delivery_score: 96,
            confidence_score: 48,
            narrative: "Low execution risk, but likely to allow further profitable share loss if the diagnosis is correct.",
        },
    }
}

/// The sum of a template's five scores.
pub open spec fn score_total(kind: ScenarioKind) -> int {
    let s = template_scores(kind);
    s.0 + s.1 + s.2 + s.3 + s.4
}

/// How the scorecards rank the templates against each other. Rapid
/// underwriting, the recommended life response, has the highest total of
/// all; the fee restructure the highest growth; the targeted premium
/// reduction the lowest profitability and, of the templates tied to a
/// product line, the fastest delivery; the benefit bundle the slowest
/// delivery; observing only the fastest delivery and the lowest growth. Among
/// the retirement annuity templates the transfer turnaround is the most
/// profitable and the fund range expansion grows least.
pub proof fn law_scorecards_rank_the_templates(kind: ScenarioKind)
    ensures
        kind != ScenarioKind::RapidUnderwriting ==> score_total(kind) < score_total(
            ScenarioKind::RapidUnderwriting,
        ),
        template_scores(kind).0 <= template_scores(ScenarioKind::RaFeeRestructure).0,
        template_scores(ScenarioKind::TargetedPremiumReduction).1 <= template_scores(kind).1,
        template_scores(ScenarioKind::BenefitRewardsBundle).3 <= template_scores(kind).3,
        template_scores(kind).3 <= template_scores(ScenarioKind::ObserveOnly).3,
        template_scores(ScenarioKind::ObserveOnly).0 <= template_scores(kind).0,
        scenario_line(kind) is Some ==> template_scores(kind).3 <= template_scores(
            ScenarioKind::TargetedPremiumReduction,
        ).3,
        scenario_line(kind) == Some("retirement_annuity"@) ==> {
            &&& template_scores(kind).1 <= template_scores(ScenarioKind::RaTransferTurnaround).1
            &&& template_scores(ScenarioKind::RaFundRangeExpansion).0 <= template_scores(kind).0
        },
{
    reveal_strlit("retirement_annuity");
    reveal_strlit("individual_life_risk");
    assert("retirement_annuity"@[0] != "individual_life_risk"@[0]);
}

/// Each narrative says what its template's scorecard shows: the best
/// balanced response has the highest total, the economically weaker one the
/// lowest profitability, the strongest growth response the highest growth,
/// the slower delivery the lowest delivery score, the low execution risk the
/// fastest delivery and the lowest growth, the margin-protecting transfer
/// programme the highest profitability of the retirement annuity templates,
/// and the limited share response the lowest growth among them.
pub proof fn law_narratives_match_the_scorecards(kind: ScenarioKind, other: ScenarioKind)
    ensures
        template_narrative(kind) == "Best balanced response. It targets the strongest diagnosed cause while limiting broad price and claims risk."@ && other != kind ==> score_total(other) < score_total(kind),
        template_narrative(kind) == "Fast to implement but economically weaker. It may treat the symptom while leaving workflow friction intact."@ ==> template_scores(kind).1 <= template_scores(other).1,
        template_narrative(kind) == "Potential proposition value, but delivery is slower and the evidence does not show benefits as the primary loss driver."@ ==> template_scores(kind).3 <= template_scores(other).3,
        template_narrative(kind) == "Directly closes the diagnosed effective-annual-cost gap. It is the strongest growth response, but it permanently resets margin on the existing book as well as new business."@ ==> template_scores(other).0 <= template_scores(kind).0,
        template_narrative(kind) == "Attacks the Section 14 transfer turnaround gap without repricing. It protects margin, but it is an operations programme rather than a product change and lands more slowly."@ && scenario_line(other) == scenario_line(kind) ==> template_scores(other).1 <= template_scores(kind).1,
        template_narrative(kind) == "Cheap to deliver, but the evidence ranks fund choice well below cost and transfer speed as a loss driver. Expect a limited share response."@ && scenario_line(other) == scenario_line(kind) ==> template_scores(kind).0 <= template_scores(other).0,
        template_narrative(kind) == "Low execution risk, but likely to allow further profitable share loss if the diagnosis is correct."@ ==> template_scores(other).3 <= template_scores(kind).3 && template_scores(kind).0 <= template_scores(other).0,
{
    reveal_strlit("Best balanced response. It targets the strongest diagnosed cause while limiting broad price and claims risk.");
    reveal_strlit("Fast to implement but economically weaker. It may treat the symptom while leaving workflow friction intact.");
    reveal_strlit("Potential proposition value, but delivery is slower and the evidence does not show benefits as the primary loss driver.");
    reveal_strlit("Directly closes the diagnosed effective-annual-cost gap. It is the strongest growth response, but it permanently resets margin on the existing book as well as new business.");
    reveal_strlit("Attacks the Section 14 transfer turnaround gap without repricing. It protects margin, but it is an operations programme rather than a product change and lands more slowly.");
    reveal_strlit("Cheap to deliver, but the evidence ranks fund choice well below cost and transfer speed as a loss driver. Expect a limited share response.");
    reveal_strlit("Low execution risk, but likely to allow further profitable share loss if the diagnosis is correct.");
    reveal_strlit("retirement_annuity");
    reveal_strlit("individual_life_risk");
    assert("retirement_annuity"@[0] != "individual_life_risk"@[0]);
    law_scorecards_rank_the_templates(other);
    if kind != ScenarioKind::RapidUnderwriting {
        assert(template_narrative(kind)[0] != "Best balanced response. It targets the strongest diagnosed cause while limiting broad price and claims risk."@[0]);
    }
    if kind != ScenarioKind::TargetedPremiumReduction {
        assert(template_narrative(kind)[0] != "Fast to implement but economically weaker. It may treat the symptom while leaving workflow friction intact."@[0]);
    }
}

/// The scorecard of each template, as (growth, profitability, customer
/// outcomes, delivery, confidence): the figures the recommendation is
/// presented with.
pub proof fn law_each_template_has_its_own_scorecard(kind: ScenarioKind)
    ensures
        kind == ScenarioKind::RapidUnderwriting ==> template_scores(kind) == (86u8, 78u8, 88u8, 72u8, 84u8),
        kind == ScenarioKind::TargetedPremiumReduction ==> template_scores(kind) == (76u8, 45u8, 74u8, 91u8, 61u8),
        kind == ScenarioKind::BenefitRewardsBundle ==> template_scores(kind) == (65u8, 69u8, 77u8, 43u8, 55u8),
        kind == ScenarioKind::RaFeeRestructure ==> template_scores(kind) == (88u8, 52u8, 91u8, 66u8, 79u8),
        kind == ScenarioKind::RaTransferTurnaround ==> template_scores(kind) == (74u8, 81u8, 83u8, 58u8, 72u8),
        kind == ScenarioKind::RaFundRangeExpansion ==> template_scores(kind) == (46u8, 77u8, 62u8, 71u8, 44u8),
        kind == ScenarioKind::ObserveOnly ==> template_scores(kind) == (28u8, 83u8, 52u8, 96u8, 48u8),
{
}

/// The message that refuses a template tied to another product line.
pub open spec fn wrong_line_message(
    kind: ScenarioKind,
    template_line: Seq<char>,
    case_id: Seq<char>,
    case_line: Seq<char>,
) -> Seq<char> {
    "response template "@ + scenario_key(kind) + " applies to "@ + template_line + ", but case "@
        + case_id + " is a "@ + case_line + " case"@
}

/// Checks that a template may be evaluated against a case: the request must
/// name the loaded case, and a template tied to a product line may only be
/// used for a case of that line. A template with no line, and a case with no
/// line, are never refused on that ground.
pub fn check_template_applies(
    kind: ScenarioKind,
    request_case_id: &str,
    case_id: &str,
    case_line: &Option<String>,
) -> (checked: Result<(), AppError>)
    ensures
        request_case_id@ != case_id@ ==> (checked matches Err(AppError::BadRequest(m)) && m@
            == "request case_id does not match the loaded case"@),
        request_case_id@ == case_id@ ==> match (scenario_line(kind), case_line) {
            (Some(t), Some(c)) => if t != c@ {
                checked matches Err(AppError::BadRequest(m)) && m@ == wrong_line_message(
                    kind,
                    t,
                    case_id@,
                    c@,
                )
            } else {
                checked is Ok
            },
            _ => checked is Ok,
        },
{
    if !same_text(request_case_id, case_id) {
        return Err(
            AppError::BadRequest(String::from_str("request case_id does not match the loaded case")),
        );
    }
    match (kind.product_line_id(), case_line) {
        (Some(template_line), Some(line)) => {
            if !same_text(template_line, line.as_str()) {
                let mut message = String::from_str("response template ");
                message.append(kind.as_str());
                message.append(" applies to ");
                message.append(template_line);
                message.append(", but case ");
                message.append(case_id);
                message.append(" is a ");
                message.append(line.as_str());
                message.append(" case");
                return Err(AppError::BadRequest(message));
            }
            Ok(())
        },
        _ => Ok(()),
    }
}

/// The control checks every evaluated scenario carries besides its template's
/// own stress tests.
pub open spec fn governance_plan() -> Seq<(Seq<char>, Seq<char>, Seq<char>)> {
    seq![
        ("POPIA automated-decision boundary"@, "pass"@, "The MVP creates recommendations and approval records; it does not make a material customer decision."@),
        ("Competition-information provenance"@, "pass"@, "Scenario evaluation is based only on admitted public or approved internal evidence."@),
        ("Independent model validation"@, "review"@, "The current engine is deterministic and synthetic; insurer-approved actuarial tools must replace it before production use."@),
    ]
}

/// Adds the governance controls to a scenario's stress tests: the automated
/// decision boundary and the provenance of competition information pass, and
/// independent model validation is left for review.
pub fn governance_stresses(stresses: Vec<StressResult>) -> (all: Vec<StressResult>)
    ensures
        stress_views(all@) == stress_views(stresses@) + governance_plan(),
{
    let mut all = stresses;
    all.push(stress("POPIA automated-decision boundary", "pass", "The MVP creates recommendations and approval records; it does not make a material customer decision."));
    all.push(stress("Competition-information provenance", "pass", "Scenario evaluation is based only on admitted public or approved internal evidence."));
    all.push(stress("Independent model validation", "review", "The current engine is deterministic and synthetic; insurer-approved actuarial tools must replace it before production use."));
    assert(stress_views(all@) =~= stress_views(stresses@) + governance_plan());
    all
}

/// The governance controls never fail, so adding them to a scenario leaves
/// its count of failed stress tests, and so its recommendation, unchanged.
pub proof fn lemma_governance_adds_no_failure(stresses: Seq<(Seq<char>, Seq<char>, Seq<char>)>)
    ensures
        plan_fails(stresses + governance_plan()) == plan_fails(stresses),
{
    lemma_outcome_words_distinct();
    let g = governance_plan();
    let all = stresses + g;
    let a1 = all.drop_last();
    let a2 = a1.drop_last();
    let a3 = a2.drop_last();
    assert(a1 =~= stresses + g.drop_last());
    assert(a2 =~= stresses + g.drop_last().drop_last());
    assert(a3 =~= stresses);
    assert(all.last() == g[2]);
    assert(a1.last() == g[1]);
    assert(a2.last() == g[0]);
    assert(plan_fails(a2) == plan_fails(a3));
    assert(plan_fails(a1) == plan_fails(a2));
    assert(plan_fails(all) == plan_fails(a1));
}

} // verus!
