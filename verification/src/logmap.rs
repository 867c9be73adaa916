//! The shared log map: session identity to ordered log lines.
//!
//! Buckets are kept in insertion order and are append-only: a line is only
//! ever added to the end of its session's bucket, and no bucket is ever
//! removed.  The model of the map is the sequence of its entries, each a
//! session key paired with the lines recorded under it, in order of
//! emission.

use vstd::prelude::*;
use vstd::string::*;

use crate::strutil::str_eq;

verus! {

/// The lines recorded for one session identity, in emission order.
pub struct LogBucket {
    /// The session identity the lines belong to.
    pub key: String,
    /// The lines, oldest first.
    pub lines: Vec<String>,
}

/// The shared map from session identity to its recorded log lines.
pub struct LogMap {
    buckets: Vec<LogBucket>,
}

/// The model of a log map: entries in insertion order.
pub type LogEntries = Seq<(Seq<char>, Seq<Seq<char>>)>;

/// Index of the entry holding `key`, scanning from position `i`.
pub open spec fn find_key_from(es: LogEntries, key: Seq<char>, i: int) -> Option<int>
    decreases es.len() - i,
{
    if i < 0 || i >= es.len() {
        None
    } else if es[i].0 == key {
        Some(i)
    } else {
        find_key_from(es, key, i + 1)
    }
}

/// The lines recorded under `key` (empty if the key has no entry yet).
pub open spec fn bucket_lines(es: LogEntries, key: Seq<char>) -> Seq<Seq<char>> {
    match find_key_from(es, key, 0) {
        Some(i) => es[i].1,
        None => Seq::empty(),
    }
}

/// The entries after recording `line` under `key`: the line goes to the end
/// of the existing bucket, or a fresh bucket is appended for a new key.
pub open spec fn record_line(es: LogEntries, key: Seq<char>, line: Seq<char>) -> LogEntries {
    match find_key_from(es, key, 0) {
        Some(i) => es.update(i, (key, es[i].1.push(line))),
        None => es.push((key, seq![line])),
    }
}

/// Total number of lines recorded, over all buckets.
pub open spec fn total_line_count(es: LogEntries) -> nat
    decreases es.len(),
{
    if es.len() == 0 {
        0
    } else {
        total_line_count(es.drop_last()) + es.last().1.len()
    }
}

/// Keys are pairwise distinct.
pub open spec fn entries_wf(es: LogEntries) -> bool {
    forall|i: int, j: int| 0 <= i < j < es.len() ==> es[i].0 != es[j].0
}

/// Appending a line to the bucket at `i` raises the total by exactly one.
proof fn lemma_total_count_update(es: LogEntries, i: int, key: Seq<char>, line: Seq<char>)
    requires
        0 <= i < es.len(),
        key == es[i].0,
    ensures
        total_line_count(es.update(i, (key, es[i].1.push(line)))) == total_line_count(es) + 1,
    decreases es.len(),
{
    let updated = es.update(i, (key, es[i].1.push(line)));
    if i == es.len() - 1 {
        assert(updated.drop_last() =~= es.drop_last());
        assert(updated.last() == (key, es[i].1.push(line)));
    } else {
        assert(updated.drop_last() =~= es.drop_last().update(i, (key, es[i].1.push(line))));
        assert(es.drop_last()[i] == es[i]);
        lemma_total_count_update(es.drop_last(), i, key, line);
        assert(updated.last() == es.last());
    }
}

/// The log map never loses a line: recording one line raises the total line
/// count over all buckets by exactly one.
pub proof fn lemma_record_line_total(es: LogEntries, key: Seq<char>, line: Seq<char>)
    ensures
        total_line_count(record_line(es, key, line)) == total_line_count(es) + 1,
{
    match find_key_from(es, key, 0) {
        Some(i) => {
            lemma_find_key_hit(es, key, 0, i);
            lemma_total_count_update(es, i, key, line);
        },
        None => {
            let pushed = es.push((key, seq![line]));
            assert(pushed.drop_last() =~= es);
            assert(pushed.last() == (key, seq![line]));
        },
    }
}

/// A successful key search found a real entry.
pub proof fn lemma_find_key_hit(es: LogEntries, key: Seq<char>, from: int, k: int)
    requires
        0 <= from,
        find_key_from(es, key, from) == Some(k),
    ensures
        from <= k < es.len(),
        es[k].0 == key,
        forall|j: int| from <= j < k ==> es[j].0 != key,
    decreases es.len() - from,
{
    if from < es.len() && es[from].0 != key {
        lemma_find_key_hit(es, key, from + 1, k);
    }
}

/// A key present at `k`, with no earlier occurrence, pins the search down.
pub proof fn lemma_find_key_exact(es: LogEntries, key: Seq<char>, from: int, k: int)
    requires
        0 <= from <= k < es.len(),
        es[k].0 == key,
        forall|j: int| from <= j < k ==> es[j].0 != key,
    ensures
        find_key_from(es, key, from) == Some(k),
    decreases k - from,
{
    if from < k {
        lemma_find_key_exact(es, key, from + 1, k);
    }
}

/// A failed key search means the key is nowhere at or after `from`.
pub proof fn lemma_find_key_none(es: LogEntries, key: Seq<char>, from: int)
    requires
        0 <= from,
        forall|j: int| from <= j < es.len() ==> es[j].0 != key,
    ensures
        find_key_from(es, key, from) is None,
    decreases es.len() - from,
{
    if from < es.len() {
        lemma_find_key_none(es, key, from + 1);
    }
}

/// Lines joined into one report, each followed by a newline.
pub open spec fn joined_lines(lines: Seq<Seq<char>>) -> Seq<char>
    decreases lines.len(),
{
    if lines.len() == 0 {
        Seq::empty()
    } else {
        joined_lines(lines.drop_last()) + lines.last() + seq!['\n']
    }
}

impl LogMap {
    /// The model: the entries of the map, in insertion order.
    pub closed spec fn entries(&self) -> LogEntries {
        self.buckets@.map_values(|b: LogBucket| (b.key@, b.lines@.map_values(|l: String| l@)))
    }

    /// Every session identity owns at most one bucket.
    pub open spec fn wf(&self) -> bool {
        entries_wf(self.entries())
    }

    /// An empty map.
    pub fn new() -> (r: LogMap)
        ensures
            r.wf(),
            r.entries() =~= Seq::<(Seq<char>, Seq<Seq<char>>)>::empty(),
    {
        LogMap { buckets: Vec::new() }
    }

    /// Record `line` under `key`, appending to the key's bucket in emission
    /// order, or opening a bucket if the key is new.
    pub fn append_line(&mut self, key: &str, line: String)
        requires
            old(self).wf(),
        ensures
            final(self).wf(),
            final(self).entries() == record_line(old(self).entries(), key@, line@),
    {
        let ghost es = self.entries();
        let mut i: usize = 0;
        let n = self.buckets.len();
        while i < n
            invariant
                i <= n,
                n == self.buckets.len(),
                es == self.entries(),
                es == old(self).entries(),
                entries_wf(es),
                forall|j: int| 0 <= j < i ==> es[j].0 != key@,
            decreases n - i,
        {
            if str_eq(self.buckets[i].key.as_str(), key) {
                proof {
                    lemma_find_key_exact(es, key@, 0, i as int);
                }
                let mut bucket = self.buckets.remove(i);
                bucket.lines.push(line);
                self.buckets.insert(i, bucket);
                proof {
                    assert(self.entries() =~~= record_line(es, key@, line@));
                }
                return ;
            }
            i += 1;
        }
        proof {
            lemma_find_key_none(es, key@, 0);
        }
        let mut lines: Vec<String> = Vec::new();
        lines.push(line);
        self.buckets.push(LogBucket { key: key.to_owned(), lines });
        proof {
            assert(self.entries() =~~= record_line(es, key@, line@));
        }
    }

    /// Render the lines recorded under `key` as one report, each line
    /// followed by a newline, in emission order.
    pub fn format_session(&self, key: &str) -> (r: String)
        requires
            self.wf(),
        ensures
            r@ == joined_lines(bucket_lines(self.entries(), key@)),
    {
        let ghost es = self.entries();
        let mut i: usize = 0;
        let n = self.buckets.len();
        while i < n
            invariant
                i <= n,
                n == self.buckets.len(),
                es == self.entries(),
                entries_wf(es),
                forall|j: int| 0 <= j < i ==> es[j].0 != key@,
            decreases n - i,
        {
            if str_eq(self.buckets[i].key.as_str(), key) {
                proof {
                    lemma_find_key_exact(es, key@, 0, i as int);
                }
                return join_lines(&self.buckets[i].lines);
            }
            i += 1;
        }
        proof {
            lemma_find_key_none(es, key@, 0);
        }
        String::new()
    }
}

/// Join lines into one report, each followed by a newline.
pub fn join_lines(lines: &Vec<String>) -> (r: String)
    ensures
        r@ == joined_lines(lines@.map_values(|l: String| l@)),
{
    let ghost model = lines@.map_values(|l: String| l@);
    let mut out = String::new();
    let mut i: usize = 0;
    let n = lines.len();
    while i < n
        invariant
            i <= n,
            n == lines.len(),
            model == lines@.map_values(|l: String| l@),
            out@ == joined_lines(model.take(i as int)),
        decreases n - i,
    {
        out.append(lines[i].as_str());
        out.append("\n");
        proof {
            reveal_strlit("\n");
            assert(model.take(i + 1).drop_last() =~= model.take(i as int));
            assert(model.take(i + 1).last() == model[i as int]);
            assert(out@ =~= joined_lines(model.take(i + 1)));
        }
        i += 1;
    }
    proof {
        assert(model.take(n as int) =~= model);
    }
    out
}

} // verus!
