use cargo_spdx::cargo_build::{after_build, plan_build, ArgsError, BuildOutcome, CargoBuild, PlanError};

fn strings(args: &[&str]) -> Vec<String> {
    args.iter().map(|s| s.to_string()).collect()
}

#[test]
fn test_cargo_build_arg_parsing() {
    // Test there's no error when an arg not in CargoBuild is specified
    let cargs = CargoBuild::try_parse_from(&strings(&[
        "build",
        "--no-default-features",
        "--features",
        "foo bar",
        "--message-format=json",
        "--target=x86_64-unknown-linux-musl",
        "--release",
    ]))
    .unwrap();
    assert!(cargs.features.no_default_features);
    assert_eq!(
        cargs.features.features,
        vec!["foo".to_string(), "bar".to_string()]
    );
    assert_eq!(cargs.message_format, Some("json".to_string()));
    assert_eq!(cargs.target, Some("x86_64-unknown-linux-musl".to_string()));
}

#[test]
fn separate_values_and_end_of_options() {
    let cargs = CargoBuild::try_parse_from(&strings(&[
        "build",
        "--target",
        "aarch64-apple-darwin",
        "--features=a",
        "--features",
        "b c",
        "--all-features",
        "--",
        "--target=ignored",
    ]))
    .unwrap();
    assert_eq!(cargs.target, Some("aarch64-apple-darwin".to_string()));
    assert_eq!(cargs.features.features, strings(&["a", "b", "c"]));
    assert!(cargs.features.all_features);
    assert!(!cargs.features.no_default_features);
    assert_eq!(cargs.message_format, None);
}

#[test]
fn option_without_value_is_refused() {
    let r = CargoBuild::try_parse_from(&strings(&["build", "--release", "--target"]));
    assert_eq!(r.unwrap_err(), ArgsError::MissingValue("--target".to_string()));
}

#[test]
fn plan_forces_json_messages() {
    let plan = plan_build(&strings(&["--release"])).unwrap();
    assert_eq!(plan.args, strings(&["build", "--release", "--message-format=json"]));
    assert!(!plan.echo_messages);
}

#[test]
fn plan_keeps_json_format_chosen_by_caller() {
    let plan = plan_build(&strings(&["--message-format", "json-render-diagnostics"])).unwrap();
    assert_eq!(plan.args, strings(&["build", "--message-format", "json-render-diagnostics"]));
    assert!(plan.echo_messages);
}

#[test]
fn plan_refuses_human_message_format() {
    let r = plan_build(&strings(&["--message-format=human"]));
    assert_eq!(r.unwrap_err(), PlanError::MessageFormat("human".to_string()));
}

#[test]
fn failed_build_exits_with_its_code() {
    assert_eq!(after_build(false, Some(2)), BuildOutcome::Exit(2));
    assert_eq!(after_build(false, None), BuildOutcome::Exit(1));
    assert_eq!(after_build(true, Some(0)), BuildOutcome::WriteDocuments);
}
