//! Session identities: the correlation key between a client connection and
//! the server log lines produced while it was active.
//!
//! The server tags every log line with its backend's session identifier,
//! which encodes the backend's start time and process id as
//! `hex(start_epoch).hex(pid)`.  The client factory queries the live
//! connection for those two numbers and encodes them here with the very same
//! format, so a derived identity matches the tag on every line the server
//! emits for that backend.  A log line whose prefix cannot be parsed is
//! recorded under the reserved sentinel identity instead.

use vstd::prelude::*;
use vstd::string::*;

use crate::numtext::{hex_chars, lemma_hex_chars_no_brackets, u64_to_hex};

verus! {

/// The textual session identity of a backend whose start time (seconds
/// since the epoch) is `epoch` and whose process id is `pid`.
pub open spec fn session_identity_chars(epoch: nat, pid: nat) -> Seq<char> {
    hex_chars(epoch) + seq!['.'] + hex_chars(pid)
}

/// The reserved identity under which unattributable log lines are recorded.
pub open spec fn sentinel_identity_chars() -> Seq<char> {
    seq!['N', 'O', 'N', 'E']
}

/// Derive the session identity of the backend with the given start time and
/// process id, in the exact form the server's log prefix uses.
pub fn derive_session_identity(epoch: u64, pid: u64) -> (r: String)
    ensures
        r@ == session_identity_chars(epoch as nat, pid as nat),
{
    let mut s = u64_to_hex(epoch);
    s.append(".");
    let p = u64_to_hex(pid);
    s.append(p.as_str());
    proof {
        reveal_strlit(".");
        assert(s@ =~= session_identity_chars(epoch as nat, pid as nat));
    }
    s
}

/// The sentinel identity as an owned string.
pub fn sentinel_identity() -> (r: String)
    ensures
        r@ == sentinel_identity_chars(),
{
    proof {
        reveal_strlit("NONE");
    }
    let r = "NONE".to_owned();
    proof {
        assert(r@ =~= sentinel_identity_chars());
    }
    r
}

/// A session identity never contains a bracket character, so it always
/// survives the log prefix round trip intact.
pub proof fn lemma_session_identity_no_brackets(epoch: nat, pid: nat)
    ensures
        forall|i: int|
            0 <= i < session_identity_chars(epoch, pid).len() ==> session_identity_chars(
                epoch,
                pid,
            )[i] != '[' && session_identity_chars(epoch, pid)[i] != ']',
{
    lemma_hex_chars_no_brackets(epoch);
    lemma_hex_chars_no_brackets(pid);
}

/// The introspective statement the client factory issues against a fresh
/// connection to learn the backend's own start time and process id.
pub fn introspection_query() -> (r: &'static str)
    ensures
        r@ == introspection_query_chars(),
{
    "SELECT trunc(EXTRACT(EPOCH FROM backend_start))::bigint AS start_epoch, pid FROM pg_stat_activity WHERE pid = pg_backend_pid();"
}

/// The text of the introspective statement.
pub open spec fn introspection_query_chars() -> Seq<char> {
    "SELECT trunc(EXTRACT(EPOCH FROM backend_start))::bigint AS start_epoch, pid FROM pg_stat_activity WHERE pid = pg_backend_pid();"@
}

/// Turn the introspective query's result row into the session identity.
/// An absent row is a hard error: without the identity the correlation
/// guarantee cannot be upheld, so no session is created.
pub fn session_identity_from_introspection(row: Option<(u64, u64)>) -> (r: Result<
    String,
    crate::errors::FrameworkError,
>)
    ensures
        match r {
            Ok(id) => row matches Some(t) && id@ == session_identity_chars(
                t.0 as nat,
                t.1 as nat,
            ),
            Err(e) => row is None && e == crate::errors::FrameworkError::MissingSessionIdentity,
        },
{
    match row {
        Some((epoch, pid)) => Ok(derive_session_identity(epoch, pid)),
        None => Err(crate::errors::FrameworkError::MissingSessionIdentity),
    }
}

/// The statements that raise a session's logging verbosity so that every
/// line it later produces is attributable to it.  They are issued for every
/// role but the privileged bootstrap role, whose sessions keep the server's
/// default verbosity.
pub fn session_setup_statements(role: &str, bootstrap_role: &str) -> (r: Vec<&'static str>)
    ensures
        role@ == bootstrap_role@ ==> r@.len() == 0,
        role@ != bootstrap_role@ ==> r@.len() == 3 && r@[0]@ == set_min_messages_chars()
            && r@[1]@ == set_min_duration_chars() && r@[2]@ == set_log_statement_chars(),
{
    let mut stmts: Vec<&'static str> = Vec::new();
    if !crate::strutil::str_eq(role, bootstrap_role) {
        stmts.push("SET log_min_messages TO 'INFO';");
        stmts.push("SET log_min_duration_statement TO 1000;");
        stmts.push("SET log_statement TO 'all';");
    }
    stmts
}

/// The text of the first session-scoping statement.
pub open spec fn set_min_messages_chars() -> Seq<char> {
    "SET log_min_messages TO 'INFO';"@
}

/// The text of the second session-scoping statement.
pub open spec fn set_min_duration_chars() -> Seq<char> {
    "SET log_min_duration_statement TO 1000;"@
}

/// The text of the third session-scoping statement.
pub open spec fn set_log_statement_chars() -> Seq<char> {
    "SET log_statement TO 'all';"@
}

} // verus!
