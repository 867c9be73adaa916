//! The log demultiplexer and readiness-signaling protocol.
//!
//! The supervisor's background monitor feeds every line of the server's
//! error stream through [`LogDemux::ingest_line`].  Each line is recorded
//! under its captured session tag (or the sentinel), the first line that
//! carries the readiness marker emits the one-shot readiness signal, and a
//! line is echoed for interactive visibility while the server is still
//! starting or when it carries the distinguished diagnostic tag.

use vstd::prelude::*;
use vstd::string::*;

use crate::logline::{line_session_key, parse_session_tag};
use crate::logmap::{
    bucket_lines, joined_lines, record_line, total_line_count, LogEntries, LogMap,
};
use crate::session::sentinel_identity;
use crate::strutil::{is_substring_of, str_contains};

verus! {

/// The marker with which the server announces that it will accept
/// connections.
pub open spec fn ready_marker_chars() -> Seq<char> {
    "database system is ready to accept connections"@
}

/// The distinguished diagnostic tag whose lines are always echoed.
pub open spec fn diag_marker_chars() -> Seq<char> {
    "TMSG: "@
}

/// The line announces readiness.
pub open spec fn is_ready_line(line: Seq<char>) -> bool {
    is_substring_of(ready_marker_chars(), line)
}

/// The line carries the distinguished diagnostic tag.
pub open spec fn is_diag_line(line: Seq<char>) -> bool {
    is_substring_of(diag_marker_chars(), line)
}

/// What `ingest_line` tells its caller to do with the line just recorded.
pub struct IngestOutcome {
    /// Echo the line for interactive visibility.
    pub echo: bool,
    /// Emit this identity on the one-shot readiness channel.
    pub ready_signal: Option<String>,
}

/// The session-keyed log store together with the one-shot readiness state
/// of the current server start.
pub struct LogDemux {
    map: LogMap,
    ready_signaled: bool,
}

impl LogDemux {
    /// The recorded entries, in insertion order.
    pub closed spec fn entries(&self) -> LogEntries {
        self.map.entries()
    }

    /// The readiness signal has already been emitted.
    pub closed spec fn signaled(&self) -> bool {
        self.ready_signaled
    }

    /// Every session identity owns at most one bucket.
    pub closed spec fn wf(&self) -> bool {
        self.map.wf()
    }

    /// A fresh demultiplexer for one server start: no lines recorded, the
    /// readiness signal not yet emitted.
    pub fn new() -> (r: LogDemux)
        ensures
            r.wf(),
            r.entries() =~= Seq::<(Seq<char>, Seq<Seq<char>>)>::empty(),
            !r.signaled(),
    {
        LogDemux { map: LogMap::new(), ready_signaled: false }
    }

    /// Consume one line of the server's error stream: record it under its
    /// session identity (never dropping it), emit the readiness signal if
    /// this is the first line announcing readiness, and say whether the
    /// line should be echoed.
    pub fn ingest_line(&mut self, line: &str) -> (r: IngestOutcome)
        requires
            old(self).wf(),
        ensures
            final(self).wf(),
            final(self).entries() == record_line(
                old(self).entries(),
                line_session_key(line@),
                line@,
            ),
            final(self).signaled() == (old(self).signaled() || is_ready_line(line@)),
            match r.ready_signal {
                Some(id) => !old(self).signaled() && is_ready_line(line@) && id@
                    == line_session_key(line@),
                None => old(self).signaled() || !is_ready_line(line@),
            },
            r.echo == (!(old(self).signaled() || is_ready_line(line@)) || is_diag_line(line@)),
    {
        let key = match parse_session_tag(line) {
            Some(tag) => tag,
            None => sentinel_identity(),
        };
        let ready = str_contains(line, "database system is ready to accept connections");
        let diag = str_contains(line, "TMSG: ");
        let ready_signal: Option<String> = if ready && !self.ready_signaled {
            Some(key.clone())
        } else {
            None
        };
        if ready {
            self.ready_signaled = true;
        }
        let echo = !self.ready_signaled || diag;
        self.map.append_line(key.as_str(), line.to_owned());
        IngestOutcome { echo, ready_signal }
    }

    /// Consume a whole stream of lines, oldest first, returning the
    /// readiness signals emitted along the way — at most one from a fresh
    /// demultiplexer, and none once the flag is set.
    pub fn ingest_all(&mut self, lines: &Vec<String>) -> (signals: Vec<String>)
        requires
            old(self).wf(),
        ensures
            final(self).wf(),
            final(self).entries() == entries_after_stream(
                old(self).entries(),
                crate::strutil::strs_view(lines@),
            ),
            final(self).signaled() == signaled_after_stream(
                old(self).signaled(),
                crate::strutil::strs_view(lines@),
            ),
            crate::strutil::strs_view(signals@) == signals_list(
                old(self).signaled(),
                crate::strutil::strs_view(lines@),
            ),
            signals@.len() == signals_emitted(
                old(self).signaled(),
                crate::strutil::strs_view(lines@),
            ),
    {
        let ghost stream = crate::strutil::strs_view(lines@);
        let ghost start_entries = self.entries();
        let ghost start_signaled = self.signaled();
        let mut signals: Vec<String> = Vec::new();
        let n = lines.len();
        let mut i: usize = 0;
        proof {
            assert(stream.take(0) =~= Seq::<Seq<char>>::empty());
            assert(crate::strutil::strs_view(signals@) =~= Seq::<Seq<char>>::empty());
        }
        while i < n
            invariant
                i <= n,
                n == lines.len(),
                stream == crate::strutil::strs_view(lines@),
                start_entries == old(self).entries(),
                start_signaled == old(self).signaled(),
                self.wf(),
                self.entries() == entries_after_stream(start_entries, stream.take(i as int)),
                self.signaled() == signaled_after_stream(start_signaled, stream.take(i as int)),
                crate::strutil::strs_view(signals@) == signals_list(
                    start_signaled,
                    stream.take(i as int),
                ),
                signals@.len() == signals_emitted(start_signaled, stream.take(i as int)),
            decreases n - i,
        {
            proof {
                assert(stream.take(i + 1).drop_last() =~= stream.take(i as int));
                assert(stream.take(i + 1).last() == lines@[i as int]@);
            }
            let ghost prev_signals = crate::strutil::strs_view(signals@);
            let out = self.ingest_line(lines[i].as_str());
            match out.ready_signal {
                Some(id) => {
                    signals.push(id);
                    proof {
                        assert(crate::strutil::strs_view(signals@) =~= prev_signals.push(
                            line_session_key(stream.take(i + 1).last()),
                        ));
                        assert(crate::strutil::strs_view(signals@) =~= signals_list(
                            start_signaled,
                            stream.take(i + 1),
                        ));
                    }
                },
                None => {
                    proof {
                        assert(crate::strutil::strs_view(signals@) =~= signals_list(
                            start_signaled,
                            stream.take(i + 1),
                        ));
                    }
                },
            }
            i += 1;
        }
        proof {
            assert(stream.take(n as int) =~= stream);
        }
        signals
    }

    /// Render the lines recorded under one session identity, in emission
    /// order, each followed by a newline.
    pub fn format_session(&self, key: &str) -> (r: String)
        requires
            self.wf(),
        ensures
            r@ == joined_lines(bucket_lines(self.entries(), key@)),
    {
        self.map.format_session(key)
    }
}

/// The entries after a whole stream of lines has been ingested, oldest
/// line first.
pub open spec fn entries_after_stream(es: LogEntries, lines: Seq<Seq<char>>) -> LogEntries
    decreases lines.len(),
{
    if lines.len() == 0 {
        es
    } else {
        record_line(
            entries_after_stream(es, lines.drop_last()),
            line_session_key(lines.last()),
            lines.last(),
        )
    }
}

/// The demultiplexer never loses a line: after a stream of lines has been
/// ingested, the total line count over all session buckets has grown by
/// exactly the length of the stream.
pub proof fn lemma_no_line_lost(es: LogEntries, lines: Seq<Seq<char>>)
    ensures
        total_line_count(entries_after_stream(es, lines)) == total_line_count(es) + lines.len(),
    decreases lines.len(),
{
    if lines.len() > 0 {
        lemma_no_line_lost(es, lines.drop_last());
        crate::logmap::lemma_record_line_total(
            entries_after_stream(es, lines.drop_last()),
            line_session_key(lines.last()),
            lines.last(),
        );
    }
}

/// Whether the readiness flag is set after a stream of lines.
pub open spec fn signaled_after_stream(signaled: bool, lines: Seq<Seq<char>>) -> bool
    decreases lines.len(),
{
    if lines.len() == 0 {
        signaled
    } else {
        signaled_after_stream(signaled, lines.drop_last()) || is_ready_line(lines.last())
    }
}

/// How many readiness signals a stream of lines emits.
pub open spec fn signals_emitted(signaled: bool, lines: Seq<Seq<char>>) -> nat
    decreases lines.len(),
{
    if lines.len() == 0 {
        0
    } else {
        signals_emitted(signaled, lines.drop_last()) + if is_ready_line(lines.last())
            && !signaled_after_stream(signaled, lines.drop_last()) {
            1 as nat
        } else {
            0 as nat
        }
    }
}

/// The identities emitted on the readiness channel by a stream of lines:
/// the session tag of each line that announces readiness while the flag is
/// still unset.
pub open spec fn signals_list(signaled: bool, lines: Seq<Seq<char>>) -> Seq<Seq<char>>
    decreases lines.len(),
{
    if lines.len() == 0 {
        Seq::empty()
    } else {
        signals_list(signaled, lines.drop_last()) + if is_ready_line(lines.last())
            && !signaled_after_stream(signaled, lines.drop_last()) {
            seq![line_session_key(lines.last())]
        } else {
            Seq::empty()
        }
    }
}

/// Readiness signaling fires exactly once per server start: over any stream
/// of lines fed to a fresh demultiplexer, exactly one signal is emitted when
/// some line announces readiness, and none when no line does.  Later
/// readiness-looking lines are recorded but never re-signal.
pub proof fn lemma_readiness_signals_exactly_once(lines: Seq<Seq<char>>)
    ensures
        signals_emitted(false, lines) == if exists|i: int|
            0 <= i < lines.len() && is_ready_line(lines[i]) {
            1 as nat
        } else {
            0 as nat
        },
{
    lemma_signals_general(false, lines);
    lemma_signaled_iff_some_ready(lines);
}

/// The flag after a stream is set exactly when it started set or some line
/// of the stream announces readiness.
proof fn lemma_signaled_iff_some_ready(lines: Seq<Seq<char>>)
    ensures
        signaled_after_stream(false, lines) == exists|i: int|
            0 <= i < lines.len() && is_ready_line(lines[i]),
    decreases lines.len(),
{
    if lines.len() > 0 {
        lemma_signaled_iff_some_ready(lines.drop_last());
        if signaled_after_stream(false, lines) {
            if signaled_after_stream(false, lines.drop_last()) {
                let i = choose|i: int|
                    0 <= i < lines.drop_last().len() && is_ready_line(lines.drop_last()[i]);
                assert(lines[i] == lines.drop_last()[i]);
                assert(0 <= i < lines.len() && is_ready_line(lines[i]));
            } else {
                assert(is_ready_line(lines[lines.len() - 1]));
            }
        } else {
            assert forall|i: int| 0 <= i < lines.len() implies !is_ready_line(lines[i]) by {
                if i < lines.len() - 1 {
                    assert(lines.drop_last()[i] == lines[i]);
                }
            }
        }
    }
}

/// A stream emits a signal exactly when it turns the flag from unset to
/// set; once the flag is set, no further signal is ever emitted.
proof fn lemma_signals_general(signaled: bool, lines: Seq<Seq<char>>)
    ensures
        signals_emitted(signaled, lines) == if !signaled && signaled_after_stream(
            signaled,
            lines,
        ) {
            1 as nat
        } else {
            0 as nat
        },
    decreases lines.len(),
{
    if lines.len() > 0 {
        lemma_signals_general(signaled, lines.drop_last());
        if signaled {
            lemma_signaled_stays_set(lines.drop_last());
        }
    }
}

/// Once the readiness flag is set it can never become unset again.
proof fn lemma_signaled_stays_set(lines: Seq<Seq<char>>)
    ensures
        signaled_after_stream(true, lines),
    decreases lines.len(),
{
    if lines.len() > 0 {
        lemma_signaled_stays_set(lines.drop_last());
    }
}

} // verus!
