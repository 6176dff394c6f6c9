use marketshield::error::AppError;
use marketshield::models::{ScenarioKind, StressResult};
use marketshield::scenario::{
    check_template_applies, claims_allowance, governance_stresses, margin_floor_pct,
    recommendation_status, stress_results, template_profile,
};

const ALL: [ScenarioKind; 7] = [
    ScenarioKind::RapidUnderwriting,
    ScenarioKind::TargetedPremiumReduction,
    ScenarioKind::BenefitRewardsBundle,
    ScenarioKind::RaFeeRestructure,
    ScenarioKind::RaTransferTurnaround,
    ScenarioKind::RaFundRangeExpansion,
    ScenarioKind::ObserveOnly,
];

fn status_of(kind: ScenarioKind, margin_ok: bool, claims_ok: bool) -> String {
    recommendation_status(&stress_results(kind, margin_ok, claims_ok))
}

#[test]
fn rapid_underwriting_is_viable_when_its_margin_holds() {
    // The template margin of 13.2% clears the 10% floor.
    assert_eq!(margin_floor_pct(ScenarioKind::RapidUnderwriting), Some(10));
    assert_eq!(status_of(ScenarioKind::RapidUnderwriting, true, true), "viable");
    assert_eq!(status_of(ScenarioKind::RapidUnderwriting, false, true), "conditional");
}

#[test]
fn fee_restructure_at_its_template_margin_is_conditional() {
    // The template margin of 5.9% is under the 6% savings floor.
    assert_eq!(margin_floor_pct(ScenarioKind::RaFeeRestructure), Some(6));
    assert_eq!(status_of(ScenarioKind::RaFeeRestructure, false, true), "conditional");
    assert_eq!(status_of(ScenarioKind::RaFeeRestructure, true, true), "viable");
}

#[test]
fn fund_range_expansion_is_never_preferred() {
    for margin_ok in [true, false] {
        for claims_ok in [true, false] {
            assert_eq!(
                status_of(ScenarioKind::RaFundRangeExpansion, margin_ok, claims_ok),
                "not_preferred"
            );
            assert_eq!(
                status_of(ScenarioKind::ObserveOnly, margin_ok, claims_ok),
                "not_preferred"
            );
        }
    }
}

#[test]
fn benefit_bundle_claims_test_goes_to_review() {
    assert_eq!(claims_allowance(ScenarioKind::BenefitRewardsBundle), Some(102));
    assert_eq!(claims_allowance(ScenarioKind::RapidUnderwriting), None);
    let passing = stress_results(ScenarioKind::BenefitRewardsBundle, true, true);
    let flagged = stress_results(ScenarioKind::BenefitRewardsBundle, true, false);
    assert_eq!(passing[0].name, "Claims and utilisation");
    assert_eq!(passing[0].status, "pass");
    assert_eq!(flagged[0].status, "review");
    assert_eq!(recommendation_status(&flagged), "conditional");
}

#[test]
fn every_template_has_three_named_stress_tests() {
    for kind in ALL {
        let stresses = stress_results(kind, true, true);
        assert_eq!(stresses.len(), 3);
        assert!(stresses.iter().all(|s| !s.name.is_empty() && !s.rationale.is_empty()));
        assert!(stresses
            .iter()
            .all(|s| ["pass", "fail", "review"].contains(&s.status.as_str())));
    }
}

#[test]
fn governance_controls_are_appended_without_failing() {
    let stresses = stress_results(ScenarioKind::RaTransferTurnaround, true, true);
    let before = recommendation_status(&stresses);
    let all = governance_stresses(stresses.clone());
    assert_eq!(all.len(), 6);
    assert_eq!(all[3].name, "POPIA automated-decision boundary");
    assert_eq!(all[5].status, "review");
    assert_eq!(recommendation_status(&all), before);
    assert_eq!(before, "conditional");
}

#[test]
fn no_failures_is_viable_and_two_is_not_preferred() {
    let s = |status: &str| StressResult {
        name: "n".to_string(),
        status: status.to_string(),
        rationale: "r".to_string(),
    };
    assert_eq!(recommendation_status(&vec![]), "viable");
    assert_eq!(recommendation_status(&vec![s("pass"), s("review")]), "viable");
    assert_eq!(recommendation_status(&vec![s("fail"), s("pass")]), "conditional");
    assert_eq!(recommendation_status(&vec![s("fail"), s("fail"), s("fail")]), "not_preferred");
}

#[test]
fn a_life_template_is_refused_for_a_retirement_annuity_case() {
    let result = check_template_applies(
        ScenarioKind::RapidUnderwriting,
        "MS-RA-TEST",
        "MS-RA-TEST",
        &Some("retirement_annuity".to_string()),
    );
    assert_eq!(
        result,
        Err(AppError::BadRequest(
            "response template rapid_underwriting applies to individual_life_risk, but case MS-RA-TEST is a retirement_annuity case"
                .to_string()
        ))
    );
}

#[test]
fn observe_only_applies_to_any_line() {
    for line in [Some("retirement_annuity".to_string()), Some("individual_life_risk".to_string()), None] {
        assert_eq!(check_template_applies(ScenarioKind::ObserveOnly, "c", "c", &line), Ok(()));
    }
    assert_eq!(
        check_template_applies(ScenarioKind::RaFeeRestructure, "c", "c", &Some("retirement_annuity".to_string())),
        Ok(())
    );
    assert_eq!(check_template_applies(ScenarioKind::RaFeeRestructure, "c", "c", &None), Ok(()));
}

#[test]
fn the_request_must_name_the_loaded_case() {
    assert_eq!(
        check_template_applies(ScenarioKind::ObserveOnly, "MS-1", "MS-2", &None),
        Err(AppError::BadRequest(
            "request case_id does not match the loaded case".to_string()
        ))
    );
}

#[test]
fn template_profiles_carry_their_scores() {
    let profile = template_profile(ScenarioKind::RaFeeRestructure);
    assert_eq!(
        (
            profile.growth_score,
            profile.profitability_score,
            profile.customer_score,
            profile.delivery_score,
            profile.confidence_score
        ),
        (88, 52, 91, 66, 79)
    );
    assert!(profile.narrative.starts_with("Directly closes"));
}
