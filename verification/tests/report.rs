use gmf::report::{error, fatal, info, summary, Error, Severity};
use gmf::progress::FetchStatistics;

#[test]
fn fatal_line() {
    let report = fatal("failed to load configuration '.gmf'", "No such file or directory");
    assert_eq!(report.severity, Severity::Fatal);
    assert_eq!(
        report.text,
        "fatal: failed to load configuration '.gmf': No such file or directory\n"
    );
}

#[test]
fn error_line() {
    let report = error("fetch failed", "it broke");
    assert_eq!(report.severity, Severity::Error);
    assert_eq!(report.text, "error: fetch failed: it broke\n");
}

#[test]
fn info_line() {
    let report = info("Skipping non-utf8 remote name for '/a'");
    assert_eq!(report.severity, Severity::Info);
    assert_eq!(report.text, "info: Skipping non-utf8 remote name for '/a'\n");
}

#[test]
fn summary_report_is_a_notice() {
    let stats = FetchStatistics {
        total_objects: 2,
        indexed_objects: 2,
        received_objects: 2,
        local_objects: 0,
        total_deltas: 0,
        indexed_deltas: 0,
        received_bytes: 99,
    };
    let report = summary(&stats);
    assert_eq!(report.severity, Severity::Notice);
    assert_eq!(report.text, "\rReceived 2/2 objects in 99 bytes\n");
}

#[test]
fn nested_error_shows_context_then_cause() {
    let err = Error::Nested(String::from("failed to open repository '/a'"), String::from("gone"));
    assert_eq!(err.to_text(), "failed to open repository '/a': gone");
}

#[test]
fn nested_errors_chain() {
    let inner = Error::Nested(String::from("inner"), String::from("cause"));
    let outer = Error::Nested(String::from("outer"), inner.to_text());
    assert_eq!(outer.to_text(), "outer: inner: cause");
    assert_eq!(error("fetch failed", &outer.to_text()).text, "error: fetch failed: outer: inner: cause\n");
}

#[test]
fn nested_error_hands_out_no_source() {
    let err = Error::Nested(String::from("context"), String::from("cause"));
    assert_eq!(err.source(), None);
}
