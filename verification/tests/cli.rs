use marketshield::cli::parse_options;

fn args(values: &[&str]) -> Vec<String> {
    values.iter().map(|v| v.to_string()).collect()
}

#[test]
fn no_arguments_give_the_scheduled_defaults() {
    let options = parse_options(&args(&[])).expect("no arguments are fine");
    assert_eq!(options.report_path, None);
    assert_eq!(options.html_path, None);
    assert_eq!(options.trigger, "scheduled");
    assert!(options.raise_signals);
    assert!(!options.allow_breach);
}

#[test]
fn every_flag_is_read() {
    let options = parse_options(&args(&[
        "--report",
        "competitive-position.md",
        "--html",
        "report.html",
        "--trigger",
        "ci",
        "--no-signals",
        "--allow-breach",
    ]))
    .expect("all flags are known");
    assert_eq!(options.report_path.as_deref(), Some("competitive-position.md"));
    assert_eq!(options.html_path.as_deref(), Some("report.html"));
    assert_eq!(options.trigger, "ci");
    assert!(!options.raise_signals);
    assert!(options.allow_breach);
}

#[test]
fn flags_missing_their_value_are_refused() {
    assert_eq!(parse_options(&args(&["--report"])).unwrap_err(), "--report requires a path");
    assert_eq!(parse_options(&args(&["--html"])).unwrap_err(), "--html requires a path");
    assert_eq!(parse_options(&args(&["--trigger"])).unwrap_err(), "--trigger requires a name");
    assert_eq!(
        parse_options(&args(&["--no-signals", "--verbose"])).unwrap_err(),
        "unknown argument: --verbose"
    );
}
