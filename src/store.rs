//! The session log store: one append-only file of JSON lines per session key.
use std::path::PathBuf;

use vstd::prelude::*;

use crate::json::{encode_json, encoded, parse_json, parsed, trim_text, trimmed};

verus! {

/// A character that a session key may hold but a file name may not: the
/// `:` of namespaced keys, the path separators and NUL.
pub open spec fn is_unsafe_char(c: char) -> bool {
    c == ':' || c == '/' || c == '\\' || c == '\0'
}

/// The file stem for a session key: each unsafe character becomes `_`.
pub open spec fn sanitized(key: Seq<char>) -> Seq<char> {
    key.map_values(|c: char| if is_unsafe_char(c) { '_' } else { c })
}

/// Relies on `str::replace` with a one-character pattern and a one-character
/// replacement: every occurrence is replaced, all other characters are kept.
#[verifier::external_body]
fn replace_char(text: &str, from: char, to: &str) -> (r: String)
    requires
        to@.len() == 1,
    ensures
        r@ == text@.map_values(|c: char| if c == from { to@[0] } else { c }),
{
    text.replace(from, to)
}


#[verifier::external_type_specification]
#[verifier::external_body]
pub struct ExPathBuf(PathBuf);

/// The path that `Path::join` gives for a base directory and a name.
pub uninterp spec fn joined(base: PathBuf, name: Seq<char>) -> PathBuf;

/// Relies on `Path::join`: the result depends on the base and the name alone
/// (a name with no separator adds one component under the base).
#[verifier::external_body]
fn join_path(base: &PathBuf, name: &str) -> (r: PathBuf)
    ensures
        r == joined(*base, name@),
{
    base.join(name)
}

/// The extension of every session log file.
pub open spec fn log_extension() -> Seq<char> {
    seq!['.', 'j', 's', 'o', 'n', 'l']
}

/// A line that holds nothing but white space.
pub open spec fn is_blank(line: Seq<char>) -> bool {
    trimmed(line).len() == 0
}

/// The record that one line of a log holds: none for a blank line or one that
/// is not a JSON document.
pub open spec fn record_of(line: Seq<char>) -> Option<serde_json::Value> {
    if is_blank(line) {
        None
    } else {
        parsed(trimmed(line))
    }
}

/// The records of a log, in the order of its lines.
pub open spec fn decoded(lines: Seq<String>) -> Seq<serde_json::Value>
    decreases lines.len(),
{
    if lines.len() == 0 {
        seq![]
    } else {
        let rest = decoded(lines.drop_last());
        match record_of(lines.last()@) {
            Some(v) => rest.push(v),
            None => rest,
        }
    }
}

/// The number of lines of a log that are not blank.
pub open spec fn nonblank_count(lines: Seq<String>) -> nat
    decreases lines.len(),
{
    if lines.len() == 0 {
        0
    } else {
        nonblank_count(lines.drop_last()) + if is_blank(lines.last()@) { 0nat } else { 1nat }
    }
}

/// The last `min(n, len)` items of a sequence, in their order.
pub open spec fn last_n<T>(s: Seq<T>, n: nat) -> Seq<T> {
    if n >= s.len() {
        s
    } else {
        s.subrange(s.len() - n, s.len() as int)
    }
}

/// The line that stands in a log for `v`: one line, nothing around it, that
/// reads back as `v`.
pub open spec fn encodes(line: Seq<char>, v: serde_json::Value) -> bool {
    &&& line.len() > 0
    &&& trimmed(line) == line
    &&& parsed(line) == Some(v)
    &&& forall|i: int| 0 <= i < line.len() ==> line[i] != '\n'
}

/// The stretches of a byte sequence between newline bytes, in order: one more
/// than there are newlines.
pub open spec fn newline_pieces(bytes: Seq<u8>) -> Seq<Seq<u8>>
    decreases bytes.len(),
{
    if bytes.len() == 0 {
        seq![Seq::<u8>::empty()]
    } else {
        let p = newline_pieces(bytes.drop_last());
        if bytes.last() == 10u8 {
            p.push(Seq::<u8>::empty())
        } else {
            p.update(p.len() - 1, p.last().push(bytes.last()))
        }
    }
}

/// A line without the carriage return that ends it, if any.
pub open spec fn without_cr(line: Seq<u8>) -> Seq<u8> {
    if line.len() > 0 && line.last() == 13u8 {
        line.drop_last()
    } else {
        line
    }
}

/// The lines of a log file: the stretches between newlines, each without a
/// closing carriage return, and no empty line after a final newline.
pub open spec fn raw_lines(bytes: Seq<u8>) -> Seq<Seq<u8>> {
    let p = newline_pieces(bytes);
    let q = if p.last().len() == 0 {
        p.drop_last()
    } else {
        p
    };
    q.map_values(|l: Seq<u8>| without_cr(l))
}

/// Decoding two stretches of lines one after the other gives their records
/// one after the other.
pub proof fn lemma_decoded_concat(a: Seq<String>, b: Seq<String>)
    ensures
        decoded(a + b) == decoded(a) + decoded(b),
    decreases b.len(),
{
    if b.len() == 0 {
        assert(a + b =~= a);
        assert(decoded(b) =~= seq![]);
        assert(decoded(a) + decoded(b) =~= decoded(a));
    } else {
        lemma_decoded_concat(a, b.drop_last());
        assert((a + b).drop_last() =~= a + b.drop_last());
        assert((a + b).last() == b.last());
        match record_of(b.last()@) {
            Some(v) => {
                assert(decoded(a) + decoded(b.drop_last()).push(v) =~= (decoded(a) + decoded(
                    b.drop_last(),
                )).push(v));
            },
            None => {},
        }
    }
}

/// Reading a log whose lines were written by appending `records` one by one
/// gives back exactly those records, in order.
pub proof fn lemma_appended_records_read_back(lines: Seq<String>, records: Seq<serde_json::Value>)
    requires
        lines.len() == records.len(),
        forall|i: int| 0 <= i < lines.len() ==> encodes(#[trigger] lines[i]@, records[i]),
    ensures
        decoded(lines) == records,
    decreases lines.len(),
{
    if lines.len() == 0 {
        assert(records =~= seq![]);
    } else {
        let k = lines.len() - 1;
        assert(encodes(lines[k]@, records[k]));
        lemma_appended_records_read_back(lines.drop_last(), records.drop_last());
        assert(records.drop_last().push(records[k]) =~= records);
    }
}

/// One line that is not a record, among others, is skipped and costs no other
/// record.
pub proof fn lemma_malformed_line_skipped(before: Seq<String>, bad: String, after: Seq<String>)
    requires
        record_of(bad@) is None,
    ensures
        decoded(before.push(bad) + after) == decoded(before) + decoded(after),
{
    lemma_decoded_concat(before.push(bad), after);
    assert(before.push(bad).drop_last() =~= before);
}

/// A log with no file has no lines: it reads as no records, its tail is
/// empty, and its count is zero.
pub proof fn lemma_missing_log_is_empty(n: nat)
    ensures
        decoded(Seq::<String>::empty()) == Seq::<serde_json::Value>::empty(),
        last_n(decoded(Seq::<String>::empty()), n) == Seq::<serde_json::Value>::empty(),
        nonblank_count(Seq::<String>::empty()) == 0,
{
}

/// Keys that differ only where one holds an unsafe character and the other
/// its substitute `_` share one log file.
pub proof fn lemma_substitute_collision(a: Seq<char>, b: Seq<char>)
    requires
        a.len() == b.len(),
        forall|i: int|
            0 <= i < a.len() ==> #[trigger] a[i] == b[i] || (is_unsafe_char(a[i]) && b[i] == '_')
                || (a[i] == '_' && is_unsafe_char(b[i])),
    ensures
        sanitized(a) == sanitized(b),
        sanitized(a) + log_extension() == sanitized(b) + log_extension(),
{
    assert(sanitized(a) =~= sanitized(b));
}

/// Why a log operation failed.
#[derive(Debug, Clone, Copy)]
pub enum StoreError {
    /// The record has no JSON line that reads back as it (it is nested
    /// deeper than the reader accepts).
    Encode,
    /// The exclusive lock on the log file was held elsewhere.
    LockContention,
    /// The file system refused an operation.
    Storage,
}

/// Append-only JSON-lines session storage under one base directory.
pub struct SessionStore {
    pub base_dir: PathBuf,
}

impl SessionStore {
    pub fn new(base_dir: PathBuf) -> (r: Self)
        ensures
            r.base_dir == base_dir,
    {
        SessionStore { base_dir }
    }

    /// Sanitize a session key for use as a file name.
    pub fn key_to_filename(key: &str) -> (r: String)
        ensures
            r@ == sanitized(key@),
    {
        proof {
            reveal_strlit("_");
        }
        let a = replace_char(key, ':', "_");
        let b = replace_char(a.as_str(), '/', "_");
        let c = replace_char(b.as_str(), '\\', "_");
        let r = replace_char(c.as_str(), '\0', "_");
        proof {
            assert(r@ =~= sanitized(key@));
        }
        r
    }

    /// The name of the log file of a session key: one plain component of a
    /// path, never `.` or `..`.
    pub fn file_name(key: &str) -> (r: String)
        ensures
            r@ == sanitized(key@) + log_extension(),
            forall|i: int| 0 <= i < r@.len() ==> !is_unsafe_char(#[trigger] r@[i]),
            r@ != seq!['.'],
            r@ != seq!['.', '.'],
    {
        let mut name = Self::key_to_filename(key);
        name.append(".jsonl");
        proof {
            reveal_strlit(".jsonl");
            assert(".jsonl"@ =~= log_extension());
            let k = sanitized(key@);
            assert forall|i: int| 0 <= i < name@.len() implies !is_unsafe_char(#[trigger] name@[i]) by {
                if i < k.len() {
                    assert(name@[i] == k[i]);
                } else {
                    assert(name@[i] == log_extension()[i - k.len()]);
                }
            }
            assert(name@.len() >= 6);
        }
        name
    }

    /// The path of the log file of a session key: its file name under the
    /// base directory.
    pub fn path_for(&self, key: &str) -> (r: PathBuf)
        ensures
            r == joined(self.base_dir, sanitized(key@) + log_extension()),
    {
        let name = Self::file_name(key);
        join_path(&self.base_dir, name.as_str())
    }

    /// The line that appending `message` writes to a log, without its newline.
    /// A record nested deeper than the JSON reader accepts would not read
    /// back: rather than write a line that every read would skip, it is
    /// refused with `Encode`.
    pub fn record_line(message: &serde_json::Value) -> (r: Result<String, StoreError>)
        ensures
            r is Ok <==> parsed(encoded(*message)) is Some,
            r is Ok ==> r->Ok_0@ == encoded(*message) && encodes(r->Ok_0@, *message),
            r is Err ==> r->Err_0 is Encode,
    {
        match encode_json(message) {
            Ok(line) => {
                if parse_json(line.as_str()).is_some() {
                    Ok(line)
                } else {
                    Err(StoreError::Encode)
                }
            },
            Err(_) => Err(StoreError::Encode),
        }
    }

    /// The record of a line that has already been trimmed: none where it is
    /// empty or not a JSON document.
    pub fn record_of_trimmed(text: &str) -> (r: Option<serde_json::Value>)
        ensures
            r == (if text@.len() == 0 { None } else { parsed(text@) }),
    {
        if text.is_empty() {
            None
        } else {
            parse_json(text)
        }
    }

    /// The lines of a log file's bytes, split at each newline; a closing
    /// carriage return is dropped from each line, and a final newline ends the
    /// last line rather than opening an empty one.
    pub fn split_lines(bytes: &Vec<u8>) -> (r: Vec<Vec<u8>>)
        ensures
            r@.len() == raw_lines(bytes@).len(),
            forall|i: int| 0 <= i < r@.len() ==> #[trigger] r@[i]@ == raw_lines(bytes@)[i],
    {
        let mut done: Vec<Vec<u8>> = Vec::new();
        let mut cur: Vec<u8> = Vec::new();
        let mut i: usize = 0;
        while i < bytes.len()
            invariant
                i <= bytes@.len(),
                newline_pieces(bytes@.take(i as int)).len() == done@.len() + 1,
                forall|j: int|
                    0 <= j < done@.len() ==> #[trigger] done@[j]@ == without_cr(
                        newline_pieces(bytes@.take(i as int))[j],
                    ),
                cur@ == newline_pieces(bytes@.take(i as int)).last(),
            decreases bytes@.len() - i,
        {
            let ghost p = newline_pieces(bytes@.take(i as int));
            proof {
                assert(bytes@.take(i + 1).drop_last() =~= bytes@.take(i as int));
                assert(bytes@.take(i + 1).last() == bytes@[i as int]);
            }
            let b = bytes[i];
            if b == 10u8 {
                let mut line = cur;
                let n = line.len();
                if n > 0 && line[n - 1] == 13u8 {
                    line.pop();
                }
                proof {
                    assert(line@ == without_cr(p.last()));
                }
                done.push(line);
                cur = Vec::new();
                proof {
                    let p2 = newline_pieces(bytes@.take(i + 1));
                    assert(p2 == p.push(Seq::<u8>::empty()));
                    assert forall|j: int| 0 <= j < done@.len() implies #[trigger] done@[j]@
                        == without_cr(p2[j]) by {
                        if j < done@.len() - 1 {
                            assert(p2[j] == p[j]);
                        }
                    }
                    assert(cur@ =~= p2.last());
                }
            } else {
                cur.push(b);
                proof {
                    let p2 = newline_pieces(bytes@.take(i + 1));
                    assert(p2 == p.update(p.len() - 1, p.last().push(b)));
                    assert forall|j: int| 0 <= j < done@.len() implies #[trigger] done@[j]@
                        == without_cr(p2[j]) by {
                        assert(p2[j] == p[j]);
                    }
                }
            }
            i = i + 1;
        }
        proof {
            assert(bytes@.take(i as int) =~= bytes@);
        }
        let n = cur.len();
        if n > 0 {
            if cur[n - 1] == 13u8 {
                cur.pop();
            }
            done.push(cur);
        }
        proof {
            let p = newline_pieces(bytes@);
            assert forall|j: int| 0 <= j < done@.len() implies #[trigger] done@[j]@
                == raw_lines(bytes@)[j] by {
                if j < p.len() - 1 {
                    assert(p.drop_last()[j] == p[j]);
                }
            }
        }
        done
    }

    /// All records of a log given as its lines, in order. Blank lines and
    /// lines that are not JSON documents are skipped; reading never fails.
    pub fn read(lines: &Vec<String>) -> (r: Vec<serde_json::Value>)
        ensures
            r@ == decoded(lines@),
    {
        let mut out: Vec<serde_json::Value> = Vec::new();
        let mut i: usize = 0;
        while i < lines.len()
            invariant
                i <= lines@.len(),
                out@ == decoded(lines@.take(i as int)),
            decreases lines@.len() - i,
        {
            let text = trim_text(lines[i].as_str());
            if let Some(v) = Self::record_of_trimmed(text) {
                out.push(v);
            }
            proof {
                assert(lines@.take(i + 1).drop_last() =~= lines@.take(i as int));
            }
            i = i + 1;
        }
        proof {
            assert(lines@.take(i as int) =~= lines@);
        }
        out
    }

    /// The last `n` records of a log given as its lines (all of them when it
    /// holds fewer), in their order.
    pub fn read_last_n(lines: &Vec<String>, n: usize) -> (r: Vec<serde_json::Value>)
        ensures
            r@ == last_n(decoded(lines@), n as nat),
    {
        let mut all = Self::read(lines);
        let start: usize = if n >= all.len() { 0 } else { all.len() - n };
        all.split_off(start)
    }

    /// The number of non-blank lines of a log, read without parsing them.
    pub fn count(lines: &Vec<String>) -> (r: u32)
        ensures
            r == nonblank_count(lines@) as u32,
    {
        let mut n: usize = 0;
        let mut i: usize = 0;
        while i < lines.len()
            invariant
                i <= lines@.len(),
                n <= i,
                n == nonblank_count(lines@.take(i as int)),
            decreases lines@.len() - i,
        {
            let text = trim_text(lines[i].as_str());
            if !text.is_empty() {
                n = n + 1;
            }
            proof {
                assert(lines@.take(i + 1).drop_last() =~= lines@.take(i as int));
            }
            i = i + 1;
        }
        proof {
            assert(lines@.take(i as int) =~= lines@);
        }
        n as u32
    }
}

} // verus!
