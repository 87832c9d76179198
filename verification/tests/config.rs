use sigma_dock::config::{exit_code, parse_args, Config};
use sigma_dock::engine::{AbortReason, RunOutcome};

fn args(list: &[&str]) -> Vec<String> {
    list.iter().map(|s| s.to_string()).collect()
}

#[test]
fn no_arguments_give_the_default_options() {
    let config = parse_args(&args(&[])).unwrap();
    assert_eq!(config, Config::default());
    assert!(!config.clear);
    assert!(!config.dump);
    assert!(!config.miles);
    assert!(config.ts);
    assert!(config.zeros);
    assert!(!config.raw);
    assert!(!config.wait_remove);
}

#[test]
fn each_option_sets_its_own_field() {
    let base = Config::default();
    assert_eq!(parse_args(&args(&["--clear"])), Some(Config { clear: true, ..base }));
    assert_eq!(parse_args(&args(&["--dump"])), Some(Config { dump: true, ..base }));
    assert_eq!(parse_args(&args(&["--miles"])), Some(Config { miles: true, ..base }));
    assert_eq!(parse_args(&args(&["--no-ts"])), Some(Config { ts: false, ..base }));
    assert_eq!(parse_args(&args(&["--no-zeros"])), Some(Config { zeros: false, ..base }));
    assert_eq!(parse_args(&args(&["--raw"])), Some(Config { raw: true, ..base }));
    assert_eq!(parse_args(&args(&["--wait-remove"])), Some(Config { wait_remove: true, ..base }));
}

#[test]
fn all_options_together() {
    let all = args(&[
        "--clear",
        "--dump",
        "--miles",
        "--no-ts",
        "--no-zeros",
        "--raw",
        "--wait-remove",
    ]);
    assert_eq!(
        parse_args(&all),
        Some(Config {
            clear: true,
            dump: true,
            miles: true,
            ts: false,
            zeros: false,
            raw: true,
            wait_remove: true,
        })
    );
}

#[test]
fn an_option_may_be_repeated() {
    let base = Config::default();
    assert_eq!(parse_args(&args(&["--raw", "--raw"])), Some(Config { raw: true, ..base }));
}

#[test]
fn one_unknown_argument_invalidates_all() {
    assert_eq!(parse_args(&args(&["--verbose"])), None);
    assert_eq!(parse_args(&args(&["--raw", "--verbose"])), None);
    assert_eq!(parse_args(&args(&["--verbose", "--raw"])), None);
    assert_eq!(parse_args(&args(&[""])), None);
    assert_eq!(parse_args(&args(&["--RAW"])), None);
    assert_eq!(parse_args(&args(&["--raw "])), None);
    assert_eq!(parse_args(&args(&["raw"])), None);
}

#[test]
fn exit_code_is_zero_for_a_completed_run() {
    assert_eq!(exit_code(true, Some(RunOutcome::Completed)), 0);
}

#[test]
fn exit_code_is_one_for_a_run_that_did_not_complete() {
    let aborted = RunOutcome::Aborted { reason: AbortReason::TransportError };
    assert_eq!(exit_code(true, Some(aborted)), 1);
    assert_eq!(exit_code(true, None), 1);
}

#[test]
fn exit_code_is_two_for_invalid_arguments() {
    assert_eq!(exit_code(false, None), 2);
    assert_eq!(exit_code(false, Some(RunOutcome::Completed)), 2);
}
