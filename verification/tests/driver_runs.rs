use yaml2json::driver::{drive, DocItem};
use yaml2json::printer::ErrorPrinter;
use yaml2json::style::ErrorStyle;
use yaml_split::DocumentIterator;

fn doc(text: &str) -> DocItem {
    DocItem::Doc(String::from(text))
}

#[test]
fn single_document_compact() {
    let mut ep = ErrorPrinter::new(ErrorStyle::Json, false);
    let items = vec![doc("{a: 1}")];
    let fatal = drive(&mut ep, &items);
    assert!(!fatal);
    assert_eq!(ep.stdout, "{\"a\":1}\n");
    assert_eq!(ep.stderr, "");
}

#[test]
fn two_documents_get_a_separator() {
    let mut ep = ErrorPrinter::new(ErrorStyle::Json, false);
    let items = vec![doc("a: 1"), doc("b: 2")];
    let fatal = drive(&mut ep, &items);
    assert!(!fatal);
    assert_eq!(ep.stdout, "{\"a\":1}\n{\"b\":2}\n");
    assert_eq!(ep.stderr, "");
}

#[test]
fn zero_documents_produce_zero_bytes() {
    let mut ep = ErrorPrinter::new(ErrorStyle::Json, false);
    let items: Vec<DocItem> = vec![];
    let fatal = drive(&mut ep, &items);
    assert!(!fatal);
    assert_eq!(ep.stdout, "");
    assert_eq!(ep.stderr, "");
}

#[test]
fn pretty_document_output() {
    let mut ep = ErrorPrinter::new(ErrorStyle::Json, true);
    let items = vec![doc("a: 1")];
    let fatal = drive(&mut ep, &items);
    assert!(!fatal);
    assert_eq!(ep.stdout, "{\n  \"a\": 1\n}\n");
    assert_eq!(ep.stderr, "");
}

#[test]
fn silent_failure_leaves_successes_untouched() {
    let mut ep = ErrorPrinter::new(ErrorStyle::Silent, false);
    let items = vec![doc("a: 1"), doc("{a: 1"), doc("b: 2")];
    let fatal = drive(&mut ep, &items);
    assert!(!fatal);
    assert_eq!(ep.stdout, "{\"a\":1}\n{\"b\":2}\n");
    assert_eq!(ep.stderr, "");
}

#[test]
fn stderr_failure_is_one_line_off_stdout() {
    let mut ep = ErrorPrinter::new(ErrorStyle::Stderr, false);
    let items = vec![doc("{a: 1")];
    let fatal = drive(&mut ep, &items);
    assert!(!fatal);
    assert_eq!(ep.stdout, "");
    assert!(ep.stderr.ends_with('\n'));
    assert_eq!(ep.stderr.matches('\n').count(), 1);
}

#[test]
fn json_failure_is_a_compact_envelope() {
    let mut ep = ErrorPrinter::new(ErrorStyle::Json, false);
    let items = vec![doc("{a: 1")];
    let fatal = drive(&mut ep, &items);
    assert!(!fatal);
    assert!(ep.stdout.starts_with("{\"yaml-error\":\""));
    assert!(ep.stdout.ends_with("\"}\n"));
    assert_eq!(ep.stderr, "");
}

#[test]
fn json_failure_honors_pretty() {
    let mut ep = ErrorPrinter::new(ErrorStyle::Json, true);
    let items = vec![doc("{a: 1")];
    let fatal = drive(&mut ep, &items);
    assert!(!fatal);
    assert!(ep.stdout.starts_with("{\n  \"yaml-error\": \""));
    assert!(ep.stdout.ends_with("\"\n}\n"));
    assert_eq!(ep.stderr, "");
}

#[test]
fn io_failure_stops_the_run_at_once() {
    let mut ep = ErrorPrinter::new(ErrorStyle::Json, false);
    let items = vec![doc("a: 1"), DocItem::IoFail, doc("b: 2")];
    let fatal = drive(&mut ep, &items);
    assert!(fatal);
    assert_eq!(ep.stdout, "{\"a\":1}\n");
    assert_eq!(ep.stderr, "");
}

#[test]
fn rerun_is_byte_identical() {
    let items = vec![doc("a: 1"), doc("{a: 1"), doc("b: [1, 2]")];
    let mut first = ErrorPrinter::new(ErrorStyle::Json, false);
    let fatal_first = drive(&mut first, &items);
    let mut second = ErrorPrinter::new(ErrorStyle::Json, false);
    let fatal_second = drive(&mut second, &items);
    assert_eq!(fatal_first, fatal_second);
    assert_eq!(first.stdout, second.stdout);
    assert_eq!(first.stderr, second.stderr);
}

#[test]
fn split_then_drive_matches_expected_stream() {
    let input = "a: 1\n---\nb: 2\n";
    let mut items: Vec<DocItem> = Vec::new();
    for res in DocumentIterator::new(input.as_bytes()) {
        match res {
            Ok(text) => items.push(DocItem::Doc(text)),
            Err(_) => items.push(DocItem::IoFail),
        }
    }
    let mut ep = ErrorPrinter::new(ErrorStyle::Json, false);
    let fatal = drive(&mut ep, &items);
    assert!(!fatal);
    assert_eq!(ep.stdout, "{\"a\":1}\n{\"b\":2}\n");
    assert_eq!(ep.stderr, "");
}
