//! Command-line parsing: every rejection, and the accepted forms.

use codec_bench::cli::{parse_args, UsageError};

fn args(list: &[&str]) -> Vec<Vec<u8>> {
    list.iter().map(|s| s.as_bytes().to_vec()).collect()
}

#[test]
fn plain_filename_defaults_to_one_run() {
    let a = args(&["prog", "data.bin"]);
    let c = parse_args(&a).unwrap();
    assert_eq!(c.filename_index, 1);
    assert_eq!(c.num_runs, 1);
}

#[test]
fn runs_flag_before_filename() {
    let a = args(&["prog", "--runs", "5", "data.bin"]);
    let c = parse_args(&a).unwrap();
    assert_eq!(c.filename_index, 3);
    assert_eq!(c.num_runs, 5);
}

#[test]
fn runs_flag_after_filename() {
    let a = args(&["prog", "data.bin", "--runs", "12"]);
    let c = parse_args(&a).unwrap();
    assert_eq!(c.filename_index, 1);
    assert_eq!(c.num_runs, 12);
}

#[test]
fn later_runs_flag_wins() {
    let a = args(&["prog", "--runs", "2", "--runs", "9", "f"]);
    let c = parse_args(&a).unwrap();
    assert_eq!(c.num_runs, 9);
}

#[test]
fn plus_prefixed_count_is_accepted() {
    // The machine's unsigned parser accepts one leading plus sign.
    let a = args(&["prog", "--runs", "+5", "f"]);
    let c = parse_args(&a).unwrap();
    assert_eq!(c.num_runs, 5);
}

#[test]
fn zero_runs_is_rejected() {
    let a = args(&["prog", "--runs", "0", "data.bin"]);
    assert_eq!(parse_args(&a).unwrap_err(), UsageError::RunsZero);
}

#[test]
fn missing_runs_value_is_rejected() {
    let a = args(&["prog", "data.bin", "--runs"]);
    assert_eq!(parse_args(&a).unwrap_err(), UsageError::MissingRunsValue);
}

#[test]
fn non_numeric_runs_is_rejected() {
    let a = args(&["prog", "--runs", "three", "f"]);
    assert_eq!(parse_args(&a).unwrap_err(), UsageError::RunsNotNumber);
    let a = args(&["prog", "--runs", "", "f"]);
    assert_eq!(parse_args(&a).unwrap_err(), UsageError::RunsNotNumber);
    let a = args(&["prog", "--runs", "+", "f"]);
    assert_eq!(parse_args(&a).unwrap_err(), UsageError::RunsNotNumber);
    let a = args(&["prog", "--runs", "1x", "f"]);
    assert_eq!(parse_args(&a).unwrap_err(), UsageError::RunsNotNumber);
}

#[test]
fn overflowing_runs_is_rejected() {
    let a = args(&["prog", "--runs", "99999999999999999999999999", "f"]);
    assert_eq!(parse_args(&a).unwrap_err(), UsageError::RunsNotNumber);
}

#[test]
fn largest_count_is_accepted() {
    let max = usize::MAX.to_string();
    let a = args(&["prog", "--runs", &max, "f"]);
    assert_eq!(parse_args(&a).unwrap().num_runs, usize::MAX);
}

#[test]
fn unknown_option_is_rejected() {
    let a = args(&["prog", "--fast", "f"]);
    assert_eq!(parse_args(&a).unwrap_err(), UsageError::UnknownOption(1));
    let a = args(&["prog", "f", "--fast"]);
    assert_eq!(parse_args(&a).unwrap_err(), UsageError::UnknownOption(2));
}

#[test]
fn multiple_filenames_are_rejected() {
    let a = args(&["prog", "one", "two"]);
    assert_eq!(parse_args(&a).unwrap_err(), UsageError::MultipleFilenames);
}

#[test]
fn missing_filename_is_rejected() {
    let a = args(&["prog"]);
    assert_eq!(parse_args(&a).unwrap_err(), UsageError::MissingFilename);
    let a = args(&["prog", "--runs", "3"]);
    assert_eq!(parse_args(&a).unwrap_err(), UsageError::MissingFilename);
}

#[test]
fn single_dash_argument_is_a_filename() {
    let a = args(&["prog", "-v"]);
    let c = parse_args(&a).unwrap();
    assert_eq!(c.filename_index, 1);
}
