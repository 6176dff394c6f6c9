//! Domain and transport types of the service.

use vstd::prelude::*;

use crate::error::AppError;
use crate::text::same_text;

verus! {

/// A market signal shown on the dashboard and raised by the monitor.
#[derive(Debug, Clone)]
pub struct Signal {
    pub id: String,
    pub title: String,
    pub description: String,
    pub severity: String,
    pub source_classification: String,
    pub observed_at: String,
    pub product_line_id: Option<String>,
}

/// An item in a case's evidence ledger, with whether it was admitted.
#[derive(Debug, Clone)]
pub struct EvidenceItem {
    pub id: String,
    pub case_id: String,
    pub label: String,
    pub detail: String,
    pub source_classification: String,
    pub admission_status: String,
}

/// A named control check recorded against a case.
#[derive(Debug, Clone)]
pub struct GovernanceCheck {
    pub id: String,
    pub case_id: String,
    pub code: String,
    pub name: String,
    pub status: String,
    pub rationale: String,
}

/// One gate of a case's human approval chain.
#[derive(Debug, Clone)]
pub struct Approval {
    pub id: String,
    pub case_id: String,
    pub sequence: i64,
    pub role_name: String,
    pub status: String,
    pub decided_at: Option<String>,
    pub notes: Option<String>,
}

/// A recorded event of the audit trail.
#[derive(Debug, Clone)]
pub struct AuditEvent {
    pub id: String,
    pub case_id: Option<String>,
    pub event_type: String,
    pub actor_type: String,
    pub actor_name: String,
    pub payload_json: String,
    pub created_at: String,
}

/// The outcome of one step of the agent workflow.
#[derive(Debug, Clone)]
pub struct AgentStepResult {
    pub step: String,
    pub status: String,
    pub summary: String,
}

/// The outcome of an agent analysis run over a case.
#[derive(Debug, Clone)]
pub struct AgentRunResult {
    pub run_id: String,
    pub case_id: String,
    pub status: String,
    pub primary_finding: String,
    pub steps: Vec<AgentStepResult>,
}

/// A stress test of a scenario and how it came out.
#[derive(Debug, Clone)]
pub struct StressResult {
    pub name: String,
    pub status: String,
    pub rationale: String,
}

/// A product line whose competitive position is tracked.
#[derive(Debug, Clone)]
pub struct ProductLine {
    pub id: String,
    pub name: String,
    pub description: String,
}

/// A provider in the comparison; our own offering is flagged `is_us == 1`.
#[derive(Debug, Clone)]
pub struct Competitor {
    pub id: String,
    pub name: String,
    pub short_name: String,
    pub is_us: i64,
    pub notes: String,
}

/// The response templates a case can be evaluated against.
#[derive(Debug, Clone, Copy, PartialEq, Eq)]
pub enum ScenarioKind {
    RapidUnderwriting,
    TargetedPremiumReduction,
    BenefitRewardsBundle,
    RaFeeRestructure,
    RaTransferTurnaround,
    RaFundRangeExpansion,
    ObserveOnly,
}

/// The snake-case key of a response template.
pub open spec fn scenario_key(kind: ScenarioKind) -> Seq<char> {
    match kind {
        ScenarioKind::RapidUnderwriting => "rapid_underwriting"@,
        ScenarioKind::TargetedPremiumReduction => "targeted_premium_reduction"@,
        ScenarioKind::BenefitRewardsBundle => "benefit_rewards_bundle"@,
        ScenarioKind::RaFeeRestructure => "ra_fee_restructure"@,
        ScenarioKind::RaTransferTurnaround => "ra_transfer_turnaround"@,
        ScenarioKind::RaFundRangeExpansion => "ra_fund_range_expansion"@,
        ScenarioKind::ObserveOnly => "observe_only"@,
    }
}

/// The name of a response template as shown to people.
pub open spec fn scenario_display_name(kind: ScenarioKind) -> Seq<char> {
    match kind {
        ScenarioKind::RapidUnderwriting => "Rapid underwriting pilot"@,
        ScenarioKind::TargetedPremiumReduction => "Targeted premium reduction"@,
        ScenarioKind::BenefitRewardsBundle => "Benefit and rewards bundle"@,
        ScenarioKind::RaFeeRestructure => "Retirement annuity fee restructure"@,
        ScenarioKind::RaTransferTurnaround => "Section 14 transfer turnaround programme"@,
        ScenarioKind::RaFundRangeExpansion => "Retirement annuity fund range expansion"@,
        ScenarioKind::ObserveOnly => "No material product change"@,
    }
}

/// The product line a response template is designed for, if it is tied to one.
pub open spec fn scenario_line(kind: ScenarioKind) -> Option<Seq<char>> {
    match kind {
        ScenarioKind::RapidUnderwriting
        | ScenarioKind::TargetedPremiumReduction
        | ScenarioKind::BenefitRewardsBundle => Some("individual_life_risk"@),
        ScenarioKind::RaFeeRestructure
        | ScenarioKind::RaTransferTurnaround
        | ScenarioKind::RaFundRangeExpansion => Some("retirement_annuity"@),
        ScenarioKind::ObserveOnly => None,
    }
}

impl ScenarioKind {
    /// The snake-case key of the template, as used on the wire and in storage.
    pub fn as_str(self) -> (key: &'static str)
        ensures
            key@ == scenario_key(self),
    {
        match self {
            ScenarioKind::RapidUnderwriting => "rapid_underwriting",
            ScenarioKind::TargetedPremiumReduction => "targeted_premium_reduction",
            ScenarioKind::BenefitRewardsBundle => "benefit_rewards_bundle",
            ScenarioKind::RaFeeRestructure => "ra_fee_restructure",
            ScenarioKind::RaTransferTurnaround => "ra_transfer_turnaround",
            ScenarioKind::RaFundRangeExpansion => "ra_fund_range_expansion",
            ScenarioKind::ObserveOnly => "observe_only",
        }
    }

    /// The name of the template as shown to people.
    pub fn display_name(self) -> (name: &'static str)
        ensures
            name@ == scenario_display_name(self),
    {
        match self {
            ScenarioKind::RapidUnderwriting => "Rapid underwriting pilot",
            ScenarioKind::TargetedPremiumReduction => "Targeted premium reduction",
            ScenarioKind::BenefitRewardsBundle => "Benefit and rewards bundle",
            ScenarioKind::RaFeeRestructure => "Retirement annuity fee restructure",
            ScenarioKind::RaTransferTurnaround => "Section 14 transfer turnaround programme",
            ScenarioKind::RaFundRangeExpansion => "Retirement annuity fund range expansion",
            ScenarioKind::ObserveOnly => "No material product change",
        }
    }

    /// Product line a response template is designed for. Used to stop a
    /// life-risk response being evaluated against a savings case.
    pub fn product_line_id(self) -> (line: Option<&'static str>)
        ensures
            match scenario_line(self) {
                Some(expected) => line is Some && line->0@ == expected,
                None => line is None,
            },
    {
        match self {
            ScenarioKind::RapidUnderwriting
            | ScenarioKind::TargetedPremiumReduction
            | ScenarioKind::BenefitRewardsBundle => Some("individual_life_risk"),
            ScenarioKind::RaFeeRestructure
            | ScenarioKind::RaTransferTurnaround
            | ScenarioKind::RaFundRangeExpansion => Some("retirement_annuity"),
            ScenarioKind::ObserveOnly => None,
        }
    }
}

/// The text starts with the given prefix.
pub open spec fn has_prefix(text: Seq<char>, prefix: Seq<char>) -> bool {
    prefix.len() <= text.len() && text.subrange(0, prefix.len() as int) == prefix
}

/// Which product line a template is tied to follows from its key: the
/// templates keyed `ra_...` are the retirement annuity responses, observing
/// only is tied to no line, and every other template is a life-risk
/// response. So a template keyed `ra_...` is never refused for a retirement
/// annuity case, and never allowed for a life-risk one.
pub proof fn law_template_line_follows_its_key(kind: ScenarioKind)
    ensures
        scenario_line(kind) == Some("retirement_annuity"@) <==> has_prefix(
            scenario_key(kind),
            "ra_"@,
        ),
        scenario_line(kind) is None <==> scenario_key(kind) == "observe_only"@,
        !has_prefix(scenario_key(kind), "ra_"@) && scenario_key(kind) != "observe_only"@
            ==> scenario_line(kind) == Some("individual_life_risk"@),
{
    reveal_strlit("rapid_underwriting");
    reveal_strlit("targeted_premium_reduction");
    reveal_strlit("benefit_rewards_bundle");
    reveal_strlit("ra_fee_restructure");
    reveal_strlit("ra_transfer_turnaround");
    reveal_strlit("ra_fund_range_expansion");
    reveal_strlit("observe_only");
    reveal_strlit("ra_");
    reveal_strlit("retirement_annuity");
    reveal_strlit("individual_life_risk");
    assert("retirement_annuity"@[0] != "individual_life_risk"@[0]);
    let key = scenario_key(kind);
    match kind {
        ScenarioKind::RaFeeRestructure | ScenarioKind::RaTransferTurnaround
        | ScenarioKind::RaFundRangeExpansion => {
            assert(key.subrange(0, 3) =~= "ra_"@);
            assert(key[0] != "observe_only"@[0]);
        },
        ScenarioKind::RapidUnderwriting => {
            assert(key.subrange(0, 3)[2] != "ra_"@[2]);
            assert(key.len() != "observe_only"@.len());
        },
        ScenarioKind::ObserveOnly => {
            assert(key.subrange(0, 3)[0] != "ra_"@[0]);
        },
        _ => {
            assert(key.subrange(0, 3)[0] != "ra_"@[0]);
            assert(key[0] != "observe_only"@[0]);
        },
    }
}

/// Whether a lower or a higher value of a feature is better for the customer.
#[derive(Debug, Clone, Copy, PartialEq, Eq)]
pub enum Direction {
    LowerIsBetter,
    HigherIsBetter,
}

/// The stored name of a direction.
pub open spec fn direction_key(direction: Direction) -> Seq<char> {
    match direction {
        Direction::LowerIsBetter => "lower_is_better"@,
        Direction::HigherIsBetter => "higher_is_better"@,
    }
}

impl Direction {
    /// The stored name of the direction.
    pub fn as_str(self) -> (key: &'static str)
        ensures
            key@ == direction_key(self),
    {
        match self {
            Direction::LowerIsBetter => "lower_is_better",
            Direction::HigherIsBetter => "higher_is_better",
        }
    }

    /// Reads a stored direction. Any other text is an internal error naming
    /// the unknown value.
    pub fn parse(value: &str) -> (parsed: Result<Direction, AppError>)
        ensures
            value@ == "lower_is_better"@ ==> parsed == Ok::<Direction, AppError>(
                Direction::LowerIsBetter,
            ),
            value@ == "higher_is_better"@ ==> parsed == Ok::<Direction, AppError>(
                Direction::HigherIsBetter,
            ),
            value@ != "lower_is_better"@ && value@ != "higher_is_better"@ ==> (parsed matches Err(
                AppError::Internal(m),
            ) && m@ == "unknown feature direction: "@ + value@),
    {
        proof {
            reveal_strlit("lower_is_better");
            reveal_strlit("higher_is_better");
            assert("lower_is_better"@[0] != "higher_is_better"@[0]);
        }
        if same_text(value, "lower_is_better") {
            Ok(Direction::LowerIsBetter)
        } else if same_text(value, "higher_is_better") {
            Ok(Direction::HigherIsBetter)
        } else {
            let mut message = String::from_str("unknown feature direction: ");
            message.append(value);
            Err(AppError::Internal(message))
        }
    }
}

/// Reading back a stored direction gives the direction that was stored.
pub proof fn lemma_direction_round_trip(direction: Direction)
    ensures
        direction_key(direction) == "lower_is_better"@ <==> direction == Direction::LowerIsBetter,
        direction_key(direction) == "higher_is_better"@ <==> direction
            == Direction::HigherIsBetter,
{
    reveal_strlit("lower_is_better");
    reveal_strlit("higher_is_better");
    assert("lower_is_better"@[0] != "higher_is_better"@[0]);
}

/// The label a report shows for a stored unit, so that storage names such as
/// `zar_millions` never reach a reader.
pub open spec fn unit_label_view(unit: Seq<char>) -> Seq<char> {
    if unit == "percent"@ {
        "%"@
    } else if unit == "zar"@ {
        "rand"@
    } else if unit == "zar_millions"@ {
        "R million"@
    } else if unit == "count"@ {
        "options"@
    } else {
        unit
    }
}

/// The label a report shows for a stored unit: `%` for percentages, rand
/// amounts named as such, counts as options, and other units as stored.
pub fn unit_label(unit: &str) -> (label: &str)
    ensures
        label@ == unit_label_view(unit@),
{
    if same_text(unit, "percent") {
        "%"
    } else if same_text(unit, "zar") {
        "rand"
    } else if same_text(unit, "zar_millions") {
        "R million"
    } else if same_text(unit, "count") {
        "options"
    } else {
        unit
    }
}

} // verus!
