//! Classifying the outcome of one test invocation.
//!
//! Given the caller-supplied work's outcome and an optional expected-error
//! message, the driver either passes, fails because an expected error never
//! occurred, or escalates with the full log context.  A failure whose
//! structured message equals the expected string exactly is a pass; one
//! character of difference escalates.

use vstd::prelude::*;
use vstd::string::*;

use crate::ansi::{
    bold_code, color_plain, color_styled, dim_code, fg_cyan_code, fg_red_code, fg_white_code,
    fg_yellow_code, style_bold_red, style_cyan, style_dimmed_white, style_yellow,
};
use crate::dberror::StructuredDbError;
use crate::strutil::str_eq;

verus! {

/// Whether the designated skip flag asks the driver to terminate
/// successfully at once, before any bootstrap, session or subprocess work:
/// it does exactly when the flag is present with a non-empty value.
pub fn skip_requested(flag_value: Option<&String>) -> (r: bool)
    ensures
        r == match flag_value {
            Some(v) => v@.len() != 0,
            None => false,
        },
{
    match flag_value {
        Some(v) => v.as_str().unicode_len() != 0,
        None => false,
    }
}

/// What the caller-supplied work came back with: success, or a failure
/// carrying its structured server error when the cause was one, plus the
/// failure's plain rendering either way.
pub enum WorkOutcome {
    /// The work succeeded.
    Success,
    /// The work failed.
    Failed(FailureDetails),
}

/// What is known about a failed piece of work.
pub struct FailureDetails {
    /// The structured server error behind the failure, when there was one.
    pub db: Option<StructuredDbError>,
    /// The failure rendered as plain text (used when no structured error
    /// is available).
    pub rendered: String,
}

/// The driver's verdict on one invocation.
pub enum TestVerdict {
    /// The invocation counts as a pass.
    Passed,
    /// An expected error was declared but the work succeeded; the payload
    /// is the failure message to surface.
    MissingExpectedError(String),
    /// The failure was not the expected one: escalate with full context.
    Escalate(EscalationReport),
}

/// What an escalated failure carries into the rendered report.
pub struct EscalationReport {
    /// The failure message.
    pub message: String,
    /// The server-side source position, or the placeholder.
    pub server_location: String,
    /// The client-side context, or the placeholder.
    pub client_location: String,
}

/// The placeholder for a location the error did not carry.
pub open spec fn unknown_location_chars() -> Seq<char> {
    "<unknown>"@
}

/// The message surfaced when a declared expected error never occurred.
pub open spec fn missing_expected_chars(expected: Seq<char>) -> Seq<char> {
    "Expected error: "@ + expected
}

/// A failure matches the declaration when it carries a structured error
/// whose primary message equals the expected string exactly.
pub open spec fn failure_matches_expected(d: FailureDetails, expected: Seq<char>) -> bool {
    match d.db {
        Some(db) => db.message@ == expected,
        None => false,
    }
}

/// The location fields an escalation takes from a failure.
pub open spec fn escalation_of(d: FailureDetails) -> (Seq<char>, Seq<char>, Seq<char>) {
    match d.db {
        Some(db) => (
            db.message@,
            match db.server_location {
                Some(l) => l@,
                None => unknown_location_chars(),
            },
            match db.where_context {
                Some(l) => l@,
                None => unknown_location_chars(),
            },
        ),
        None => (d.rendered@, unknown_location_chars(), unknown_location_chars()),
    }
}

/// Classify one invocation: success with nothing expected passes; success
/// under a declared expected error fails for want of it; a failure whose
/// structured message equals the expected string exactly passes; any other
/// failure escalates, carrying the message and both locations.
pub fn classify_outcome(outcome: WorkOutcome, expected_error: Option<&str>) -> (v: TestVerdict)
    ensures
        match outcome {
            WorkOutcome::Success => match expected_error {
                None => v == TestVerdict::Passed,
                Some(m) => v matches TestVerdict::MissingExpectedError(t) && t@
                    == missing_expected_chars(m@),
            },
            WorkOutcome::Failed(d) => {
                if expected_error is Some && failure_matches_expected(
                    d,
                    expected_error.unwrap()@,
                ) {
                    v == TestVerdict::Passed
                } else {
                    v matches TestVerdict::Escalate(r) && (r.message@, r.server_location@, r.client_location@)
                        == escalation_of(d)
                }
            },
        },
{
    match outcome {
        WorkOutcome::Success => match expected_error {
            None => TestVerdict::Passed,
            Some(m) => {
                let mut t = "Expected error: ".to_owned();
                t.append(m);
                TestVerdict::MissingExpectedError(t)
            },
        },
        WorkOutcome::Failed(d) => {
            let matches_expected: bool = match (&d.db, &expected_error) {
                (Some(db), Some(m)) => str_eq(db.message.as_str(), m),
                _ => false,
            };
            if matches_expected {
                TestVerdict::Passed
            } else {
                match d.db {
                    Some(db) => {
                        let server_location = match db.server_location {
                            Some(l) => l,
                            None => "<unknown>".to_owned(),
                        };
                        let client_location = match db.where_context {
                            Some(l) => l,
                            None => "<unknown>".to_owned(),
                        };
                        TestVerdict::Escalate(
                            EscalationReport {
                                message: db.message,
                                server_location,
                                client_location,
                            },
                        )
                    },
                    None => TestVerdict::Escalate(
                        EscalationReport {
                            message: d.rendered,
                            server_location: "<unknown>".to_owned(),
                            client_location: "<unknown>".to_owned(),
                        },
                    ),
                }
            }
        },
    }
}

/// The full report rendered when a failure escalates: the bootstrap
/// session's log buffer, the invocation session's log buffer, the failure
/// message and both locations, with the styling a human reads first.
pub open spec fn failure_report_chars(
    system_loglines: Seq<char>,
    session_loglines: Seq<char>,
    message: Seq<char>,
    server_location: Seq<char>,
    client_location: Seq<char>,
) -> Seq<char> {
    "\n\nPostgres Messages:\n"@ + color_styled(fg_white_code(), dim_code(), system_loglines)
        + "\n\nTest Function Messages:\n"@ + color_plain(fg_cyan_code(), session_loglines)
        + "\n\nClient Error:\n"@ + color_styled(fg_red_code(), bold_code(), message)
        + "\npostgres location: "@ + color_styled(fg_white_code(), dim_code(), server_location)
        + "\nrust location: "@ + color_plain(fg_yellow_code(), client_location) + "\n\n"@
}

/// Render the escalated failure report from both sessions' captured log
/// buffers and the failure's message and locations.
pub fn compose_failure_report(
    system_loglines: &str,
    session_loglines: &str,
    message: &str,
    server_location: &str,
    client_location: &str,
) -> (r: String)
    ensures
        r@ == failure_report_chars(
            system_loglines@,
            session_loglines@,
            message@,
            server_location@,
            client_location@,
        ),
{
    let mut out = "\n\nPostgres Messages:\n".to_owned();
    let styled_system = style_dimmed_white(system_loglines);
    out.append(styled_system.as_str());
    out.append("\n\nTest Function Messages:\n");
    let styled_session = style_cyan(session_loglines);
    out.append(styled_session.as_str());
    out.append("\n\nClient Error:\n");
    let styled_message = style_bold_red(message);
    out.append(styled_message.as_str());
    out.append("\npostgres location: ");
    let styled_server = style_dimmed_white(server_location);
    out.append(styled_server.as_str());
    out.append("\nrust location: ");
    let styled_client = style_yellow(client_location);
    out.append(styled_client.as_str());
    out.append("\n\n");
    proof {
        assert(out@ =~= failure_report_chars(
            system_loglines@,
            session_loglines@,
            message@,
            server_location@,
            client_location@,
        ));
    }
    out
}

} // verus!
