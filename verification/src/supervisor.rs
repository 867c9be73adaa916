//! The process supervisor's verified decisions.
//!
//! Before spawning the server, the supervisor polls for the absence of a
//! stale pid marker file on a fixed interval, up to a bounded number of
//! retries; past the bound it proceeds anyway and lets the spawn itself
//! report what is wrong.  The argument lists handed to the server binary
//! (and to the optional memory-checking wrapper around it) and the paths
//! the supervisor watches are all composed here, exactly.

use vstd::prelude::*;
use vstd::string::*;

use crate::numtext::{dec_chars, u64_to_dec};
use crate::strutil::strs_view;

verus! {

/// How many times the supervisor re-polls a still-present pid marker file
/// before proceeding anyway.
pub const MAX_PIDFILE_RETRIES: u64 = 10;

/// What the supervisor does next while polling the pid marker file.
#[derive(PartialEq, Eq, Structural, Clone, Copy, Debug)]
pub enum StartPoll {
    /// Go ahead and spawn the server.
    Proceed,
    /// Wait one interval and poll again.
    WaitAndRetry,
}

/// Decide one poll step: proceed once the marker file is gone, or — so a
/// stale file can never hold the start hostage — once the retry bound is
/// exceeded; otherwise wait and retry.
pub fn pidfile_poll_decision(pidfile_exists: bool, retries: u64) -> (r: StartPoll)
    ensures
        r == StartPoll::Proceed <==> (!pidfile_exists || retries > MAX_PIDFILE_RETRIES),
        r == StartPoll::WaitAndRetry <==> (pidfile_exists && retries <= MAX_PIDFILE_RETRIES),
{
    if !pidfile_exists || retries > MAX_PIDFILE_RETRIES {
        StartPoll::Proceed
    } else {
        StartPoll::WaitAndRetry
    }
}

/// The arguments handed to the server binary: the data directory, the
/// listen host, the port, and the two logging overrides that keep the log
/// stream on standard error where the monitor reads it.
pub open spec fn postmaster_args_model(
    pgdata: Seq<char>,
    host: Seq<char>,
    port: nat,
) -> Seq<Seq<char>> {
    seq![
        "-D"@,
        pgdata,
        "-h"@,
        host,
        "-p"@,
        dec_chars(port),
        "-c"@,
        "log_destination=stderr"@,
        "-c"@,
        "logging_collector=off"@,
    ]
}

/// Compose the server binary's argument list.
pub fn postmaster_args(pgdata: &str, host: &str, port: u16) -> (r: Vec<String>)
    ensures
        strs_view(r@) == postmaster_args_model(pgdata@, host@, port as nat),
{
    let mut args: Vec<String> = Vec::new();
    args.push("-D".to_owned());
    args.push(pgdata.to_owned());
    args.push("-h".to_owned());
    args.push(host.to_owned());
    args.push("-p".to_owned());
    args.push(u64_to_dec(port as u64));
    args.push("-c".to_owned());
    args.push("log_destination=stderr".to_owned());
    args.push("-c".to_owned());
    args.push("logging_collector=off".to_owned());
    proof {
        assert(strs_view(args@) =~= postmaster_args_model(pgdata@, host@, port as nat));
    }
    args
}

/// The fixed flags for the optional memory-checking wrapper, followed by a
/// suppressions flag when a suppressions file is available.
pub open spec fn valgrind_preamble_model(suppressions: Option<Seq<char>>) -> Seq<Seq<char>> {
    seq![
        "--leak-check=no"@,
        "--gen-suppressions=all"@,
        "--time-stamp=yes"@,
        "--error-markers=VALGRINDERROR-BEGIN,VALGRINDERROR-END"@,
        "--trace-children=yes"@,
    ] + match suppressions {
        Some(path) => seq!["--suppressions="@ + path],
        None => Seq::empty(),
    }
}

/// Compose the memory-checking wrapper's argument list, given the
/// suppressions file path when one exists on disk.
pub fn valgrind_preamble(suppressions: Option<&String>) -> (r: Vec<String>)
    ensures
        strs_view(r@) == valgrind_preamble_model(
            match suppressions {
                Some(p) => Some(p@),
                None => None,
            },
        ),
{
    let mut args: Vec<String> = Vec::new();
    args.push("--leak-check=no".to_owned());
    args.push("--gen-suppressions=all".to_owned());
    args.push("--time-stamp=yes".to_owned());
    args.push("--error-markers=VALGRINDERROR-BEGIN,VALGRINDERROR-END".to_owned());
    args.push("--trace-children=yes".to_owned());
    match suppressions {
        Some(p) => {
            let mut flag = "--suppressions=".to_owned();
            flag.append(p.as_str());
            args.push(flag);
        },
        None => {},
    }
    proof {
        assert(strs_view(args@) =~= valgrind_preamble_model(
            match suppressions {
                Some(p) => Some(p@),
                None => None,
            },
        ));
    }
    args
}

/// The per-major-version data directory under the build target directory.
pub fn pgdata_dir_path(target_dir: &str, major_version: u64) -> (r: String)
    ensures
        r@ == target_dir@ + "/pgrx-test-data-"@ + dec_chars(major_version as nat),
{
    let mut out = target_dir.to_owned();
    out.append("/pgrx-test-data-");
    let v = u64_to_dec(major_version);
    out.append(v.as_str());
    out
}

/// The pid marker file inside a data directory.
pub fn pid_file_path(pgdata: &str) -> (r: String)
    ensures
        r@ == pgdata@ + "/postmaster.pid"@,
{
    let mut out = pgdata.to_owned();
    out.append("/postmaster.pid");
    out
}

/// The suppressions file shipped with an installed server version, under
/// the shared home location.
pub fn valgrind_suppressions_path(home: &str, version: &str) -> (r: String)
    ensures
        r@ == home@ + "/"@ + version@ + "/src/tools/valgrind.supp"@,
{
    let mut out = home.to_owned();
    out.append("/");
    out.append(version);
    out.append("/src/tools/valgrind.supp");
    out
}

} // verus!
