use yaml2json::dispatch::{path_error_message, report_path_failure, PathProbe};
use yaml2json::printer::ErrorPrinter;
use yaml2json::style::ErrorStyle;

#[test]
fn parse_silent() {
    assert_eq!(ErrorStyle::from_str("silent"), Ok(ErrorStyle::Silent));
}

#[test]
fn parse_stderr() {
    assert_eq!(ErrorStyle::from_str("stderr"), Ok(ErrorStyle::Stderr));
}

#[test]
fn parse_json() {
    assert_eq!(ErrorStyle::from_str("json"), Ok(ErrorStyle::Json));
}

#[test]
fn parse_rejects_other_input() {
    assert!(ErrorStyle::from_str("loud").is_err());
    assert!(ErrorStyle::from_str("").is_err());
    assert!(ErrorStyle::from_str("Silent").is_err());
    assert!(ErrorStyle::from_str("json ").is_err());
}

#[test]
fn renders_canonical_names() {
    assert_eq!(ErrorStyle::Silent.as_str(), "silent");
    assert_eq!(ErrorStyle::Stderr.as_str(), "stderr");
    assert_eq!(ErrorStyle::Json.as_str(), "json");
}

#[test]
fn print_silent_leaves_no_trace() {
    let mut ep = ErrorPrinter::new(ErrorStyle::Silent, false);
    ep.print("something went wrong");
    assert_eq!(ep.stdout, "");
    assert_eq!(ep.stderr, "");
}

#[test]
fn print_stderr_writes_one_line() {
    let mut ep = ErrorPrinter::new(ErrorStyle::Stderr, false);
    ep.print("something went wrong");
    assert_eq!(ep.stdout, "");
    assert_eq!(ep.stderr, "something went wrong\n");
}

#[test]
fn print_json_compact_envelope() {
    let mut ep = ErrorPrinter::new(ErrorStyle::Json, false);
    ep.print("something went wrong");
    assert_eq!(ep.stdout, "{\"yaml-error\":\"something went wrong\"}\n");
    assert_eq!(ep.stderr, "");
}

#[test]
fn print_json_pretty_envelope() {
    let mut ep = ErrorPrinter::new(ErrorStyle::Json, true);
    ep.print("something went wrong");
    assert_eq!(ep.stdout, "{\n  \"yaml-error\": \"something went wrong\"\n}\n");
    assert_eq!(ep.stderr, "");
}

#[test]
fn missing_path_message() {
    let m = path_error_message("nope.yaml", &PathProbe::Missing);
    assert_eq!(m, "nope.yaml does not exist");
}

#[test]
fn directory_path_message() {
    let m = path_error_message("somedir", &PathProbe::Directory);
    assert_eq!(m, "somedir is a directory");
}

#[test]
fn open_failure_message_is_the_failure_text() {
    let m = path_error_message(
        "locked.yaml",
        &PathProbe::OpenFailed(String::from("permission denied")),
    );
    assert_eq!(m, "permission denied");
}

#[test]
fn missing_path_reported_as_json_envelope() {
    let mut ep = ErrorPrinter::new(ErrorStyle::Json, false);
    report_path_failure(&mut ep, "nope.yaml", &PathProbe::Missing);
    assert_eq!(ep.stdout, "{\"yaml-error\":\"nope.yaml does not exist\"}\n");
    assert_eq!(ep.stderr, "");
}
