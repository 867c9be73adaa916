//! The log line prefix grammar.
//!
//! The bootstrap injects `log_line_prefix='[%m] [%p] [%c]: '` into the
//! server's configuration, so every log line opens with three bracketed
//! fields — timestamp, process id, session tag — separated by `] [`.  This
//! is a wire contract between the server and the log demultiplexer: the
//! third bracketed field is the session tag, and a line that does not fit
//! the shape is attributed to the sentinel identity rather than dropped.
//!
//! The parser takes, from the first `[`, the shortest spans that fit the
//! shape: the first field runs to the first following `] [`, the second to
//! the next `] [`, and the tag to the first `]` after that.

use vstd::prelude::*;
use vstd::string::*;

use crate::session::{
    lemma_session_identity_no_brackets, sentinel_identity_chars, session_identity_chars,
};
use crate::strutil::{
    contains_at, find_char_from, find_sub_from, lemma_find_char_exact, lemma_find_char_hit,
    lemma_find_sub_exact, lemma_find_sub_hit_is_occurrence, str_find_char, str_find_sub,
};

verus! {

/// The separator between two bracketed prefix fields.
pub open spec fn separator_chars() -> Seq<char> {
    seq![']', ' ', '[']
}

/// The session tag captured from a log line, if the line fits the prefix
/// shape.
pub open spec fn capture_session_tag(line: Seq<char>) -> Option<Seq<char>> {
    match find_char_from(line, '[', 0) {
        Option::None => Option::None,
        Option::Some(open1) => match find_sub_from(line, separator_chars(), open1 + 1) {
            Option::None => Option::None,
            Option::Some(sep1) => match find_sub_from(line, separator_chars(), sep1 + 3) {
                Option::None => Option::None,
                Option::Some(sep2) => match find_char_from(line, ']', sep2 + 3) {
                    Option::None => Option::None,
                    Option::Some(close) => Option::Some(line.subrange(sep2 + 3, close)),
                },
            },
        },
    }
}

/// The identity a line is recorded under: its captured session tag, or the
/// sentinel when the prefix cannot be parsed.
pub open spec fn line_session_key(line: Seq<char>) -> Seq<char> {
    match capture_session_tag(line) {
        Option::Some(tag) => tag,
        Option::None => sentinel_identity_chars(),
    }
}

/// Parse the session tag out of a log line.
pub fn parse_session_tag(line: &str) -> (r: Option<String>)
    ensures
        match r {
            Option::Some(tag) => capture_session_tag(line@) == Option::Some(tag@),
            Option::None => capture_session_tag(line@) is None,
        },
{
    let len = line.unicode_len();
    let open1 = match str_find_char(line, '[', 0) {
        Option::Some(i) => i,
        Option::None => {
            return Option::None;
        },
    };
    proof {
        lemma_find_char_hit(line@, '[', 0, open1 as int);
        reveal_strlit("] [");
        assert("] ["@ =~= separator_chars());
    }
    let sep1 = match str_find_sub(line, "] [", open1 + 1) {
        Option::Some(i) => i,
        Option::None => {
            return Option::None;
        },
    };
    proof {
        lemma_find_sub_hit_is_occurrence(line@, separator_chars(), open1 + 1, sep1 as int);
        assert(sep1 + 3 <= len);
    }
    let sep2 = match str_find_sub(line, "] [", sep1 + 3) {
        Option::Some(i) => i,
        Option::None => {
            return Option::None;
        },
    };
    proof {
        lemma_find_sub_hit_is_occurrence(line@, separator_chars(), sep1 + 3, sep2 as int);
        assert(sep2 + 3 <= len);
    }
    let close = match str_find_char(line, ']', sep2 + 3) {
        Option::Some(i) => i,
        Option::None => {
            return Option::None;
        },
    };
    proof {
        lemma_find_char_hit(line@, ']', sep2 + 3, close as int);
    }
    let tag = line.substring_char(sep2 + 3, close);
    Option::Some(tag.to_owned())
}

/// No character of `s` is a bracket.
pub open spec fn bracket_free(s: Seq<char>) -> bool {
    forall|i: int| 0 <= i < s.len() ==> s[i] != '[' && s[i] != ']'
}

/// A full log line as the server renders it under the injected prefix
/// setting: `[stamp] [pid] [tag]: message`.
pub open spec fn rendered_line_chars(
    stamp: Seq<char>,
    pid_text: Seq<char>,
    tag: Seq<char>,
    message: Seq<char>,
) -> Seq<char> {
    seq!['['] + stamp + separator_chars() + pid_text + separator_chars() + tag + seq![
        ']',
        ':',
        ' ',
    ] + message
}

/// Correlation invariant: a log line rendered under the injected prefix
/// setting parses back to exactly the session tag the server put into it,
/// whatever the rest of the line holds.  Combined with
/// `lemma_session_identity_no_brackets`, the identity the client factory
/// derives from a backend's start time and process id matches the tag
/// captured from every line that backend emits.
pub proof fn lemma_capture_from_rendered_line(
    stamp: Seq<char>,
    pid_text: Seq<char>,
    tag: Seq<char>,
    message: Seq<char>,
)
    requires
        bracket_free(stamp),
        bracket_free(pid_text),
        bracket_free(tag),
    ensures
        capture_session_tag(rendered_line_chars(stamp, pid_text, tag, message)) == Option::Some(
            tag,
        ),
{
    let line = rendered_line_chars(stamp, pid_text, tag, message);
    let m = stamp.len() as int;
    let q = pid_text.len() as int;
    let t = tag.len() as int;
    let sep1 = 1 + m;
    let sep2 = sep1 + 3 + q;
    let close = sep2 + 3 + t;
    assert(line.len() == close + 3 + message.len());

    assert(line[0] == '[');
    lemma_find_char_exact(line, '[', 0, 0);

    assert(forall|i: int| 0 <= i < m ==> line[1 + i] == stamp[i]);
    assert(line.subrange(sep1, sep1 + 3) =~= separator_chars());
    assert forall|i: int| 1 <= i < sep1 implies !contains_at(line, separator_chars(), i) by {
        if contains_at(line, separator_chars(), i) {
            assert(line.subrange(i, i + 3)[0] == line[i]);
            assert(line[i] == stamp[i - 1]);
        }
    }
    lemma_find_sub_exact(line, separator_chars(), 1, sep1);

    assert(forall|i: int| 0 <= i < q ==> line[sep1 + 3 + i] == pid_text[i]);
    assert(line.subrange(sep2, sep2 + 3) =~= separator_chars());
    assert forall|i: int| sep1 + 3 <= i < sep2 implies !contains_at(
        line,
        separator_chars(),
        i,
    ) by {
        if contains_at(line, separator_chars(), i) {
            assert(line.subrange(i, i + 3)[0] == line[i]);
            assert(line[i] == pid_text[i - (sep1 + 3)]);
        }
    }
    lemma_find_sub_exact(line, separator_chars(), sep1 + 3, sep2);

    assert(forall|i: int| 0 <= i < t ==> line[sep2 + 3 + i] == tag[i]);
    assert(line[close] == ']');
    lemma_find_char_exact(line, ']', sep2 + 3, close);

    assert(line.subrange(sep2 + 3, close) =~= tag);
}

/// Correlation invariant for session identities themselves: every log line
/// the server emits for the backend `(epoch, pid)` carries, and parses back
/// to, exactly the identity the client factory derives for that backend.
pub proof fn lemma_session_identity_correlation(
    stamp: Seq<char>,
    pid_text: Seq<char>,
    epoch: nat,
    pid: nat,
    message: Seq<char>,
)
    requires
        bracket_free(stamp),
        bracket_free(pid_text),
    ensures
        capture_session_tag(
            rendered_line_chars(stamp, pid_text, session_identity_chars(epoch, pid), message),
        ) == Option::Some(session_identity_chars(epoch, pid)),
{
    lemma_session_identity_no_brackets(epoch, pid);
    lemma_capture_from_rendered_line(
        stamp,
        pid_text,
        session_identity_chars(epoch, pid),
        message,
    );
}

} // verus!
