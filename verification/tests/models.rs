use marketshield::error::AppError;
use marketshield::models::{unit_label, Direction, ScenarioKind};
use marketshield::requests::{default_true, MonitorRunRequest};

#[test]
fn scenario_kinds_have_keys_names_and_lines() {
    assert_eq!(ScenarioKind::RaFeeRestructure.as_str(), "ra_fee_restructure");
    assert_eq!(
        ScenarioKind::RaTransferTurnaround.display_name(),
        "Section 14 transfer turnaround programme"
    );
    assert_eq!(
        ScenarioKind::RapidUnderwriting.product_line_id(),
        Some("individual_life_risk")
    );
    assert_eq!(
        ScenarioKind::RaFundRangeExpansion.product_line_id(),
        Some("retirement_annuity")
    );
    assert_eq!(ScenarioKind::ObserveOnly.product_line_id(), None);
}

#[test]
fn directions_round_trip() {
    for direction in [Direction::LowerIsBetter, Direction::HigherIsBetter] {
        assert_eq!(Direction::parse(direction.as_str()), Ok(direction));
    }
    assert_eq!(
        Direction::parse("sideways"),
        Err(AppError::Internal("unknown feature direction: sideways".to_string()))
    );
}

#[test]
fn storage_units_are_labelled_for_people() {
    assert_eq!(unit_label("percent"), "%");
    assert_eq!(unit_label("zar_millions"), "R million");
    assert_eq!(unit_label("days"), "days");
}

#[test]
fn errors_map_to_http_statuses() {
    assert_eq!(AppError::NotFound("case x".to_string()).http_status(), 404);
    assert_eq!(AppError::BadRequest("no".to_string()).http_status(), 400);
    assert_eq!(AppError::Internal("boom".to_string()).http_status(), 500);
    assert_eq!(AppError::Database("locked".to_string()).http_status(), 500);
    assert_eq!(AppError::Configuration("bind".to_string()).message(), "bind");
}

#[test]
fn a_bodiless_monitor_request_raises_no_signals() {
    let request = MonitorRunRequest::default();
    assert_eq!(request.trigger, None);
    assert!(!request.raise_signals);
    assert!(default_true());
}
