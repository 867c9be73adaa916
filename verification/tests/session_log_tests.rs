//! Session identities, log-line parsing and the demultiplexer.

use pgrx_tests::demux::LogDemux;
use pgrx_tests::logline::parse_session_tag;
use pgrx_tests::session::{
    derive_session_identity, sentinel_identity, session_identity_from_introspection,
    session_setup_statements,
};

#[test]
fn identity_encodes_start_time_and_pid_in_hex() {
    assert_eq!(derive_session_identity(255, 16), "ff.10");
    assert_eq!(derive_session_identity(0, 0), "0.0");
    assert_eq!(derive_session_identity(1671651742, 4210), "63a3619e.1072");
}

#[test]
fn sentinel_is_the_reserved_word() {
    assert_eq!(sentinel_identity(), "NONE");
}

#[test]
fn tag_parses_from_a_well_formed_line() {
    let line = "[2023-01-01 00:00:00.000 UTC] [1234] [63a3619e.1072]: LOG:  statement: SELECT 1";
    assert_eq!(parse_session_tag(line), Some("63a3619e.1072".to_string()));
}

#[test]
fn tag_parse_fails_without_the_prefix_shape() {
    assert_eq!(parse_session_tag("DETAIL:  something went wrong"), None);
    assert_eq!(parse_session_tag("[only one] [field"), None);
    assert_eq!(parse_session_tag(""), None);
}

#[test]
fn tag_may_be_empty_and_prefix_may_start_late() {
    assert_eq!(parse_session_tag("[a] [b] []: x"), Some(String::new()));
    assert_eq!(parse_session_tag("noise [a] [b] [c] rest"), Some("c".to_string()));
}

#[test]
fn derived_identity_matches_the_tag_on_an_emitted_line() {
    let identity = derive_session_identity(1671651742, 4210);
    let line = format!("[2023-01-01 00:00:00 UTC] [4210] [{identity}]: LOG:  ready");
    assert_eq!(parse_session_tag(&line), Some(identity));
}

#[test]
fn demux_records_every_line_under_its_session() {
    let mut demux = LogDemux::new();
    demux.ingest_line("[t1] [1] [aa.1]: first");
    demux.ingest_line("[t2] [2] [bb.2]: second");
    demux.ingest_line("[t3] [1] [aa.1]: third");
    demux.ingest_line("no prefix at all");
    assert_eq!(
        demux.format_session("aa.1"),
        "[t1] [1] [aa.1]: first\n[t3] [1] [aa.1]: third\n"
    );
    assert_eq!(demux.format_session("bb.2"), "[t2] [2] [bb.2]: second\n");
    assert_eq!(demux.format_session("NONE"), "no prefix at all\n");
    assert_eq!(demux.format_session("unknown"), "");
}

#[test]
fn readiness_signals_once_and_only_once() {
    let mut demux = LogDemux::new();
    let before = demux.ingest_line("[t] [1] [aa.1]: LOG:  starting");
    assert_eq!(before.ready_signal, None);
    assert!(before.echo);

    let ready = demux.ingest_line("[t] [1] [aa.1]: LOG:  database system is ready to accept connections");
    assert_eq!(ready.ready_signal, Some("aa.1".to_string()));
    assert!(!ready.echo);

    let again = demux.ingest_line("[t] [2] [bb.2]: LOG:  database system is ready to accept connections");
    assert_eq!(again.ready_signal, None);
    assert!(!again.echo);
}

#[test]
fn a_whole_stream_emits_one_signal_and_loses_no_line() {
    let mut demux = LogDemux::new();
    let lines: Vec<String> = vec![
        "[t] [1] [aa.1]: LOG:  starting".to_string(),
        "[t] [1] [aa.1]: LOG:  database system is ready to accept connections".to_string(),
        "[t] [2] [bb.2]: LOG:  database system is ready to accept connections".to_string(),
        "unparsable".to_string(),
    ];
    let signals = demux.ingest_all(&lines);
    assert_eq!(signals, vec!["aa.1".to_string()]);
    let recorded = demux.format_session("aa.1").lines().count()
        + demux.format_session("bb.2").lines().count()
        + demux.format_session("NONE").lines().count();
    assert_eq!(recorded, lines.len());
}

#[test]
fn readiness_line_without_tag_signals_the_sentinel() {
    let mut demux = LogDemux::new();
    let out = demux.ingest_line("database system is ready to accept connections");
    assert_eq!(out.ready_signal, Some("NONE".to_string()));
}

#[test]
fn diagnostic_tag_is_echoed_even_after_readiness() {
    let mut demux = LogDemux::new();
    demux.ingest_line("[t] [1] [aa.1]: LOG:  database system is ready to accept connections");
    let quiet = demux.ingest_line("[t] [1] [aa.1]: LOG:  statement: SELECT 1");
    assert!(!quiet.echo);
    let diag = demux.ingest_line("[t] [1] [aa.1]: TMSG: still visible");
    assert!(diag.echo);
}

#[test]
fn introspection_row_yields_identity_and_absence_is_fatal() {
    assert_eq!(
        session_identity_from_introspection(Some((255, 16))),
        Ok("ff.10".to_string())
    );
    let missing = session_identity_from_introspection(None);
    assert!(missing.is_err());
    assert_eq!(
        missing.unwrap_err().describe(),
        "Failed to obtain a client Session ID from Postgres"
    );
}

#[test]
fn verbosity_statements_go_to_every_role_but_the_bootstrap_one() {
    let stmts = session_setup_statements("pgrx", "alice");
    assert_eq!(
        stmts,
        vec![
            "SET log_min_messages TO 'INFO';",
            "SET log_min_duration_statement TO 1000;",
            "SET log_statement TO 'all';",
        ]
    );
    assert!(session_setup_statements("alice", "alice").is_empty());
}
