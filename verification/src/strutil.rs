//! Searching and comparing character sequences.
//!
//! The log demultiplexer and the error classifier both work by locating
//! fixed markers inside lines of text.  This module defines what "the
//! needle occurs at position `i`" and "the first occurrence at or after
//! `from`" mean over `Seq<char>`, and provides executable search and
//! comparison routines proved against those definitions.

use vstd::prelude::*;
use vstd::string::*;

verus! {

/// `needle` occurs in `hay` starting exactly at position `i`.
pub open spec fn contains_at(hay: Seq<char>, needle: Seq<char>, i: int) -> bool {
    0 <= i && i + needle.len() <= hay.len() && hay.subrange(i, i + needle.len()) == needle
}

/// `needle` occurs somewhere in `hay`.
pub open spec fn is_substring_of(needle: Seq<char>, hay: Seq<char>) -> bool {
    exists|i: int| contains_at(hay, needle, i)
}

/// Position of the first occurrence of the character `c` in `hay` at or
/// after `from`, if any.
pub open spec fn find_char_from(hay: Seq<char>, c: char, from: int) -> Option<int>
    decreases hay.len() - from,
{
    if from < 0 || from >= hay.len() {
        None
    } else if hay[from] == c {
        Some(from)
    } else {
        find_char_from(hay, c, from + 1)
    }
}

/// Position of the first occurrence of `needle` in `hay` at or after
/// `from`, if any.
pub open spec fn find_sub_from(hay: Seq<char>, needle: Seq<char>, from: int) -> Option<int>
    decreases hay.len() + 1 - from,
{
    if from < 0 || from + needle.len() > hay.len() {
        None
    } else if hay.subrange(from, from + needle.len()) == needle {
        Some(from)
    } else {
        find_sub_from(hay, needle, from + 1)
    }
}

/// A hit at `k` with no hit before it pins `find_char_from` down.
pub proof fn lemma_find_char_exact(hay: Seq<char>, c: char, from: int, k: int)
    requires
        0 <= from <= k < hay.len(),
        hay[k] == c,
        forall|j: int| from <= j < k ==> hay[j] != c,
    ensures
        find_char_from(hay, c, from) == Some(k),
    decreases k - from,
{
    if from < k {
        lemma_find_char_exact(hay, c, from + 1, k);
    }
}

/// No hit anywhere at or after `from` means the search fails.
pub proof fn lemma_find_char_none(hay: Seq<char>, c: char, from: int)
    requires
        0 <= from,
        forall|j: int| from <= j < hay.len() ==> hay[j] != c,
    ensures
        find_char_from(hay, c, from) is None,
    decreases hay.len() - from,
{
    if from < hay.len() {
        lemma_find_char_none(hay, c, from + 1);
    }
}

/// A hit at `k` with no hit before it pins `find_sub_from` down.
pub proof fn lemma_find_sub_exact(hay: Seq<char>, needle: Seq<char>, from: int, k: int)
    requires
        0 <= from <= k,
        contains_at(hay, needle, k),
        forall|j: int| from <= j < k ==> !contains_at(hay, needle, j),
    ensures
        find_sub_from(hay, needle, from) == Some(k),
    decreases k - from,
{
    if from < k {
        assert(!contains_at(hay, needle, from));
        lemma_find_sub_exact(hay, needle, from + 1, k);
    }
}

/// No hit anywhere at or after `from` means the search fails.
pub proof fn lemma_find_sub_none(hay: Seq<char>, needle: Seq<char>, from: int)
    requires
        0 <= from,
        forall|j: int| from <= j ==> !contains_at(hay, needle, j),
    ensures
        find_sub_from(hay, needle, from) is None,
    decreases hay.len() + 1 - from,
{
    if from + needle.len() <= hay.len() {
        assert(!contains_at(hay, needle, from));
        lemma_find_sub_none(hay, needle, from + 1);
    }
}

/// A successful character search found the first hit.
pub proof fn lemma_find_char_hit(hay: Seq<char>, c: char, from: int, k: int)
    requires
        0 <= from,
        find_char_from(hay, c, from) == Some(k),
    ensures
        from <= k < hay.len(),
        hay[k] == c,
        forall|j: int| from <= j < k ==> hay[j] != c,
    decreases hay.len() - from,
{
    if from < hay.len() && hay[from] != c {
        lemma_find_char_hit(hay, c, from + 1, k);
    }
}

/// `needle` occurs in `hay` starting exactly at `at`, decided by
/// character-by-character comparison.
pub fn str_match_at(s: &str, needle: &str, at: usize) -> (r: bool)
    requires
        at + needle@.len() <= s@.len(),
    ensures
        r == contains_at(s@, needle@, at as int),
{
    let slen = s.unicode_len();
    let nlen = needle.unicode_len();
    let mut j: usize = 0;
    while j < nlen
        invariant
            j <= nlen,
            nlen == needle@.len(),
            slen == s@.len(),
            at + nlen <= s@.len(),
            forall|k: int| 0 <= k < j ==> s@[at + k] == needle@[k],
        decreases nlen - j,
    {
        if s.get_char(at + j) != needle.get_char(j) {
            proof {
                let sub = s@.subrange(at as int, at + nlen);
                assert(sub[j as int] == s@[at + j]);
                assert(sub[j as int] != needle@[j as int]);
            }
            return false;
        }
        j += 1;
    }
    proof {
        assert(s@.subrange(at as int, at + nlen) =~= needle@);
    }
    true
}

/// First occurrence of the character `c` in `s` at or after `from`.
pub fn str_find_char(s: &str, c: char, from: usize) -> (r: Option<usize>)
    ensures
        match r {
            Some(i) => find_char_from(s@, c, from as int) == Some(i as int),
            None => find_char_from(s@, c, from as int) is None,
        },
{
    let len = s.unicode_len();
    let mut i: usize = from;
    while i < len
        invariant
            from <= i,
            len == s@.len(),
            forall|j: int| from <= j < i ==> s@[j] != c,
        decreases len - i,
    {
        if s.get_char(i) == c {
            proof {
                lemma_find_char_exact(s@, c, from as int, i as int);
            }
            return Some(i);
        }
        i += 1;
    }
    proof {
        lemma_find_char_none(s@, c, from as int);
    }
    None
}

/// First occurrence of `needle` in `s` at or after `from`.
pub fn str_find_sub(s: &str, needle: &str, from: usize) -> (r: Option<usize>)
    ensures
        match r {
            Some(i) => find_sub_from(s@, needle@, from as int) == Some(i as int),
            None => find_sub_from(s@, needle@, from as int) is None,
        },
{
    let len = s.unicode_len();
    let nlen = needle.unicode_len();
    if from > len || nlen > len - from {
        proof {
            assert(forall|j: int| from <= j ==> !contains_at(s@, needle@, j));
            lemma_find_sub_none(s@, needle@, from as int);
        }
        return None;
    }
    let mut i: usize = from;
    while i <= len - nlen
        invariant
            from <= i,
            nlen <= len,
            len == s@.len(),
            nlen == needle@.len(),
            forall|j: int| from <= j < i ==> !contains_at(s@, needle@, j),
        decreases len - i,
    {
        if str_match_at(s, needle, i) {
            proof {
                lemma_find_sub_exact(s@, needle@, from as int, i as int);
            }
            return Some(i);
        }
        proof {
            if nlen == 0 {
                assert(s@.subrange(i as int, i as int) =~= needle@);
            }
        }
        i += 1;
    }
    proof {
        assert(forall|j: int| from <= j ==> !contains_at(s@, needle@, j));
        lemma_find_sub_none(s@, needle@, from as int);
    }
    None
}

/// `marker` occurs somewhere in `s`.
pub fn str_contains(s: &str, marker: &str) -> (r: bool)
    ensures
        r == is_substring_of(marker@, s@),
{
    let found = str_find_sub(s, marker, 0);
    proof {
        match find_sub_from(s@, marker@, 0) {
            Some(k) => {
                lemma_find_sub_hit_is_occurrence(s@, marker@, 0, k);
            },
            None => {
                lemma_find_sub_none_no_occurrence(s@, marker@);
            },
        }
    }
    found.is_some()
}

/// A successful search really found an occurrence.
pub proof fn lemma_find_sub_hit_is_occurrence(hay: Seq<char>, needle: Seq<char>, from: int, k: int)
    requires
        find_sub_from(hay, needle, from) == Some(k),
        0 <= from,
    ensures
        contains_at(hay, needle, k),
        from <= k,
        forall|j: int| from <= j < k ==> !contains_at(hay, needle, j),
    decreases hay.len() + 1 - from,
{
    if !(from + needle.len() > hay.len()) {
        if hay.subrange(from, from + needle.len()) == needle {
        } else {
            lemma_find_sub_hit_is_occurrence(hay, needle, from + 1, k);
            assert(!contains_at(hay, needle, from));
        }
    }
}

/// A failed search means there is no occurrence at or after `from`.
pub proof fn lemma_find_sub_none_from(hay: Seq<char>, needle: Seq<char>, from: int)
    requires
        0 <= from,
        find_sub_from(hay, needle, from) is None,
    ensures
        forall|j: int| from <= j ==> !contains_at(hay, needle, j),
    decreases hay.len() + 1 - from,
{
    if from + needle.len() <= hay.len() {
        lemma_find_sub_none_from(hay, needle, from + 1);
    }
}

/// A search from the start that fails refutes substring membership.
pub proof fn lemma_find_sub_none_no_occurrence(hay: Seq<char>, needle: Seq<char>)
    requires
        find_sub_from(hay, needle, 0) is None,
    ensures
        !is_substring_of(needle, hay),
{
    lemma_find_sub_none_from(hay, needle, 0);
}

/// The views of a sequence of owned strings.
pub open spec fn strs_view(v: Seq<String>) -> Seq<Seq<char>> {
    v.map_values(|s: String| s@)
}

/// Anything that occurs character for character at a valid offset of a
/// sequence is a substring of it.
pub proof fn lemma_contains_at_offset(whole: Seq<char>, x: Seq<char>, off: int)
    requires
        0 <= off,
        off + x.len() <= whole.len(),
        forall|k: int| 0 <= k < x.len() ==> whole[off + k] == x[k],
    ensures
        is_substring_of(x, whole),
{
    assert(whole.subrange(off, off + x.len()) =~= x);
    assert(contains_at(whole, x, off));
}

/// The two strings hold the same characters.
pub fn str_eq(a: &str, b: &str) -> (r: bool)
    ensures
        r == (a@ == b@),
{
    let alen = a.unicode_len();
    let blen = b.unicode_len();
    if alen != blen {
        return false;
    }
    let mut i: usize = 0;
    while i < alen
        invariant
            i <= alen,
            alen == a@.len(),
            alen == b@.len(),
            forall|j: int| 0 <= j < i ==> a@[j] == b@[j],
        decreases alen - i,
    {
        if a.get_char(i) != b.get_char(i) {
            return false;
        }
        i += 1;
    }
    proof {
        assert(a@ =~= b@);
    }
    true
}

} // verus!
