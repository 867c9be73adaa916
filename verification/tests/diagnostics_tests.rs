//! Error enrichment, outcome classification and the escalation report.

use pgrx_tests::classify::{
    classify_outcome, compose_failure_report, skip_requested, FailureDetails, TestVerdict,
    WorkOutcome,
};
use pgrx_tests::dberror::{compose_enriched_message, StructuredDbError};

fn sample_error() -> StructuredDbError {
    StructuredDbError {
        severity: "ERROR".to_string(),
        code: "42601".to_string(),
        message: "syntax error".to_string(),
        detail: None,
        hint: None,
        schema: None,
        table: None,
        server_location: None,
        where_context: None,
    }
}

#[test]
fn enriched_message_holds_all_three_fields_verbatim() {
    let msg = compose_enriched_message(&sample_error(), "SELCT 1", None, false);
    assert!(msg.contains("ERROR"));
    assert!(msg.contains("42601"));
    assert!(msg.contains("syntax error"));
    assert!(msg.contains("SELCT 1"));
}

#[test]
fn enriched_message_is_exactly_composed() {
    let msg = compose_enriched_message(&sample_error(), "SELCT 1", None, false);
    let expected = "\u{1b}[31m\u{1b}[1mERROR SQLSTATE[42601]\u{1b}[0m\u{1b}[39m\
: \u{1b}[37m\u{1b}[1msyntax error\u{1b}[0m\u{1b}[39m\
\nquery: \u{1b}[37m\u{1b}[1mSELCT 1\u{1b}[0m\u{1b}[39m\
\nparams: None";
    assert_eq!(msg, expected);
}

#[test]
fn enriched_message_is_styled_not_plain() {
    let msg = compose_enriched_message(&sample_error(), "SELECT 1", None, false);
    assert!(msg.contains("\u{1b}[31m"));
    assert!(msg.contains("\u{1b}[1m"));
    assert_ne!(msg, "ERROR SQLSTATE[42601]: syntax error\nquery: SELECT 1\nparams: None");
}

#[test]
fn enriched_message_lists_params_and_extended_fields_when_verbose() {
    let mut e = sample_error();
    e.detail = Some("the detail".to_string());
    e.table = Some("users".to_string());
    let params = "[\"1\"]".to_string();
    let msg = compose_enriched_message(&e, "SELECT $1", Some(&params), true);
    assert!(msg.contains("\nparams: [\"1\"]"));
    assert!(msg.contains("\ndetail: the detail"));
    assert!(msg.contains("\nhint: None"));
    assert!(msg.contains("\nschema: None"));
    assert!(msg.contains("\ntable: users"));
}

#[test]
fn extended_fields_stay_out_without_the_verbose_flag() {
    let mut e = sample_error();
    e.detail = Some("the detail".to_string());
    let msg = compose_enriched_message(&e, "SELECT 1", None, false);
    assert!(!msg.contains("detail"));
}

fn failed_with_message(message: &str) -> WorkOutcome {
    let mut e = sample_error();
    e.message = message.to_string();
    WorkOutcome::Failed(FailureDetails { db: Some(e), rendered: "db error".to_string() })
}

#[test]
fn expected_error_that_occurs_is_a_pass() {
    let outcome = failed_with_message("relation \"x\" does not exist");
    let verdict = classify_outcome(outcome, Some("relation \"x\" does not exist"));
    assert!(matches!(verdict, TestVerdict::Passed));
}

#[test]
fn one_changed_character_escalates_instead() {
    let outcome = failed_with_message("relation \"x\" does not exist");
    let verdict = classify_outcome(outcome, Some("relation \"y\" does not exist"));
    match verdict {
        TestVerdict::Escalate(report) => {
            assert_eq!(report.message, "relation \"x\" does not exist");
            assert_eq!(report.server_location, "<unknown>");
            assert_eq!(report.client_location, "<unknown>");
        }
        _ => panic!("expected an escalation"),
    }
}

#[test]
fn success_with_a_declared_expected_error_fails_for_want_of_it() {
    let verdict = classify_outcome(WorkOutcome::Success, Some("boom"));
    match verdict {
        TestVerdict::MissingExpectedError(text) => {
            assert_eq!(text, "Expected error: boom");
        }
        _ => panic!("expected a missing-expected-error verdict"),
    }
}

#[test]
fn plain_success_passes() {
    let verdict = classify_outcome(WorkOutcome::Success, None);
    assert!(matches!(verdict, TestVerdict::Passed));
}

#[test]
fn opaque_failure_escalates_with_placeholders() {
    let outcome = WorkOutcome::Failed(FailureDetails {
        db: None,
        rendered: "connection reset".to_string(),
    });
    let verdict = classify_outcome(outcome, None);
    match verdict {
        TestVerdict::Escalate(report) => {
            assert_eq!(report.message, "connection reset");
            assert_eq!(report.server_location, "<unknown>");
            assert_eq!(report.client_location, "<unknown>");
        }
        _ => panic!("expected an escalation"),
    }
}

#[test]
fn structured_locations_ride_along_into_the_report() {
    let mut e = sample_error();
    e.server_location = Some("scan.l:1176".to_string());
    e.where_context = Some("src/lib.rs:10".to_string());
    let outcome = WorkOutcome::Failed(FailureDetails { db: Some(e), rendered: String::new() });
    match classify_outcome(outcome, None) {
        TestVerdict::Escalate(report) => {
            assert_eq!(report.server_location, "scan.l:1176");
            assert_eq!(report.client_location, "src/lib.rs:10");
        }
        _ => panic!("expected an escalation"),
    }
}

#[test]
fn failure_report_is_exactly_composed() {
    let report = compose_failure_report("sys line\n", "ses line\n", "bad", "scan.l:1", "lib.rs:2");
    let expected = "\n\nPostgres Messages:\n\u{1b}[37m\u{1b}[2msys line\n\u{1b}[0m\u{1b}[39m\
\n\nTest Function Messages:\n\u{1b}[36mses line\n\u{1b}[39m\
\n\nClient Error:\n\u{1b}[31m\u{1b}[1mbad\u{1b}[0m\u{1b}[39m\
\npostgres location: \u{1b}[37m\u{1b}[2mscan.l:1\u{1b}[0m\u{1b}[39m\
\nrust location: \u{1b}[33mlib.rs:2\u{1b}[39m\
\n\n";
    assert_eq!(report, expected);
}

#[test]
fn skip_flag_is_honored_exactly_when_non_empty() {
    assert!(skip_requested(Some(&"1".to_string())));
    assert!(!skip_requested(Some(&String::new())));
    assert!(!skip_requested(None));
}
