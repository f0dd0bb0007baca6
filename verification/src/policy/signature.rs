//! Execution allowlist: a text database of executable paths and the SHA-256
//! digests their contents must have.

use vstd::prelude::*;
use vstd::string::StringSliceAdditionalSpecFns;
use sha2::{Digest, Sha256};
use crate::text::{bytes_equal, leading_space, leading_space_len, trim, trim_range, trim_start};

verus! {

/// SHA-256 digest of `data`.
pub uninterp spec fn sha256(data: Seq<u8>) -> Seq<u8>;

/// Hashes `data` with `sha2::Sha256`: the result is the SHA-256 digest of
/// the bytes, a function of them alone.
#[verifier::external_body]
pub(crate) fn sha256_digest(data: &[u8]) -> (r: [u8; 32])
    ensures
        r@ == sha256(data@),
{
    let mut hasher = Sha256::new();
    hasher.update(data);
    hasher.finalize().into()
}

/// Whether `bytes` is valid UTF-8, as `core::str::from_utf8` decides.
#[verifier::external_body]
pub(crate) fn valid_utf8_text(bytes: &[u8]) -> (r: bool)
    ensures
        r == vstd::utf8::valid_utf8(bytes@),
{
    core::str::from_utf8(bytes).is_ok()
}

/// Position of the first line feed of `b` at or after `from`, or -1.
pub open spec fn newline_from(b: Seq<u8>, from: int) -> int
    decreases b.len() - from,
{
    if from < 0 || from >= b.len() {
        -1
    } else if b[from] == 0x0a {
        from
    } else {
        newline_from(b, from + 1)
    }
}

/// `line` without a final carriage return.
pub open spec fn strip_cr(line: Seq<u8>) -> Seq<u8> {
    if line.len() > 0 && line.last() == 0x0d { line.drop_last() } else { line }
}

/// Lines of the text `b`: split at line feeds, a carriage return before a
/// line feed dropped, and no empty line after a final line feed.
pub open spec fn text_lines(b: Seq<u8>) -> Seq<Seq<u8>>
    decreases b.len(),
{
    if b.len() == 0 {
        Seq::empty()
    } else {
        let i = newline_from(b, 0);
        if i < 0 || i >= b.len() {
            seq![b]
        } else {
            seq![strip_cr(b.subrange(0, i))] + text_lines(b.subrange(i + 1, b.len() as int))
        }
    }
}

pub proof fn lemma_newline_from(b: Seq<u8>, from: int)
    requires
        0 <= from <= b.len(),
    ensures
        newline_from(b, from) == -1 || (from <= newline_from(b, from) < b.len() && b[newline_from(b, from)] == 0x0a),
        forall|j: int| from <= j < b.len() && (newline_from(b, from) == -1 || j < newline_from(b, from)) ==> b[j] != 0x0a,
    decreases b.len() - from,
{
    if from < b.len() && b[from] != 0x0a {
        lemma_newline_from(b, from + 1);
    }
}

/// Length of the word at the start of `s`: bytes up to the first white space.
pub open spec fn word_len(s: Seq<u8>) -> nat
    decreases s.len(),
{
    if s.len() == 0 || leading_space(s) > 0 { 0 } else { 1 + word_len(s.drop_first()) }
}

/// The path and digest text of a record line's fields, when there are
/// exactly two of them.
pub open spec fn two_words(s: Seq<u8>) -> Option<(Seq<u8>, Seq<u8>)> {
    let t = trim_start(s);
    let first = t.subrange(0, word_len(t) as int);
    let u = trim_start(t.subrange(word_len(t) as int, t.len() as int));
    let second = u.subrange(0, word_len(u) as int);
    let rest = trim_start(u.subrange(word_len(u) as int, u.len() as int));
    if t.len() == 0 || u.len() == 0 || rest.len() != 0 {
        None
    } else {
        Some((first, second))
    }
}

/// Value of the hexadecimal digit `b`.
pub open spec fn hex_value(b: u8) -> Option<u8> {
    if 0x30 <= b && b <= 0x39 {
        Some((b - 0x30) as u8)
    } else if 0x61 <= b && b <= 0x66 {
        Some((b - 0x61 + 10) as u8)
    } else if 0x41 <= b && b <= 0x46 {
        Some((b - 0x41 + 10) as u8)
    } else {
        None
    }
}

/// The 32 bytes that 64 hexadecimal digits write, high digit first.
pub open spec fn hex_digest(text: Seq<u8>) -> Option<Seq<u8>> {
    if text.len() != 64 || exists|i: int| 0 <= i < 64 && #[trigger] hex_value(text[i]) is None {
        None
    } else {
        Some(Seq::new(32, |i: int| (hex_value(text[2 * i])->0 * 16 + hex_value(text[2 * i + 1])->0) as u8))
    }
}

/// A path the allowlist admits and the digest its contents must have.
#[derive(Clone, Debug)]
pub struct SignatureRecord {
    pub path: Vec<u8>,
    pub digest: [u8; 32],
}

/// What one line after the header says: `None` when it is malformed,
/// `Some(None)` for a blank line or comment, else the record it holds.
pub open spec fn record_line(line: Seq<u8>) -> Option<Option<(Seq<u8>, Seq<u8>)>> {
    let t = trim(line);
    let keyword = "record ".spec_bytes();
    if t.len() == 0 || t[0] == 0x23 {
        Some(None)
    } else if !(keyword.len() <= t.len() && t.subrange(0, keyword.len() as int) == keyword) {
        None
    } else {
        match two_words(t.subrange(keyword.len() as int, t.len() as int)) {
            None => None,
            Some((path, digest_text)) => match hex_digest(digest_text) {
                None => None,
                Some(digest) => Some(Some((path, digest))),
            },
        }
    }
}

/// Records the lines hold, in order, or `None` if one is malformed.
pub open spec fn record_lines(lines: Seq<Seq<u8>>) -> Option<Seq<(Seq<u8>, Seq<u8>)>>
    decreases lines.len(),
{
    if lines.len() == 0 {
        Some(Seq::empty())
    } else {
        match record_lines(lines.drop_last()) {
            None => None,
            Some(records) => match record_line(lines.last()) {
                None => None,
                Some(None) => Some(records),
                Some(Some(r)) => Some(records.push(r)),
            },
        }
    }
}

/// The records of an allowlist text: valid UTF-8 whose first line is the
/// header `mnu-execution-allowlist v1`, then records, blank lines and
/// comments.
pub open spec fn allowlist_records(bytes: Seq<u8>) -> Option<Seq<(Seq<u8>, Seq<u8>)>> {
    let lines = text_lines(bytes);
    if !vstd::utf8::valid_utf8(bytes) || lines.len() == 0 || trim(lines[0]) != "mnu-execution-allowlist v1".spec_bytes() {
        None
    } else {
        record_lines(lines.drop_first())
    }
}

/// An execution allowlist.
pub struct SignatureDatabase {
    records: Vec<SignatureRecord>,
}

impl SignatureDatabase {
    /// Paths and digests, in the order the text lists them.
    pub closed spec fn entries(&self) -> Seq<(Seq<u8>, Seq<u8>)> {
        self.records@.map_values(|r: SignatureRecord| (r.path@, r.digest@))
    }

    /// Reads an allowlist text.
    pub fn parse(bytes: &[u8]) -> (r: Option<Self>)
        ensures
            match allowlist_records(bytes@) {
                None => r is None,
                Some(records) => r matches Some(db) && db.entries() == records,
            },
    {
        if !valid_utf8_text(bytes) {
            return None;
        }
        let n = bytes.len();
        let ghost all = text_lines(bytes@);
        let mut records: Vec<SignatureRecord> = Vec::new();
        let mut pos: usize = 0;
        let mut header_seen = false;
        let ghost mut done: Seq<Seq<u8>> = Seq::empty();
        proof {
            assert(bytes@.subrange(0, n as int) =~= bytes@);
        }
        while pos < n
            invariant
                pos <= n == bytes@.len(),
                all == text_lines(bytes@),
                all == done + text_lines(bytes@.subrange(pos as int, n as int)),
                header_seen == (done.len() > 0),
                !header_seen ==> records@.len() == 0,
                done.len() > 0 ==> trim(done[0]) == "mnu-execution-allowlist v1".spec_bytes(),
                done.len() > 0 ==> record_lines(done.drop_first()) == Some(
                    records@.map_values(|r: SignatureRecord| (r.path@, r.digest@)),
                ),
            decreases n - pos,
        {
            let ghost rest = bytes@.subrange(pos as int, n as int);
            proof {
                lemma_newline_from(rest, 0);
            }
            let mut end = pos;
            while end < n && bytes[end] != 0x0a
                invariant
                    pos <= end <= n == bytes@.len(),
                    rest == bytes@.subrange(pos as int, n as int),
                    forall|j: int| pos <= j < end ==> bytes@[j] != 0x0a,
                decreases n - end,
            {
                end = end + 1;
            }
            let mut line_end = end;
            if end < n && end > pos && bytes[end - 1] == 0x0d {
                line_end = end - 1;
            }
            let ghost line = bytes@.subrange(pos as int, line_end as int);
            proof {
                if end < n {
                    assert(rest[end - pos] == 0x0a);
                    assert(newline_from(rest, 0) == end - pos) by {
                        if newline_from(rest, 0) != end - pos {
                            if newline_from(rest, 0) != -1 && newline_from(rest, 0) < end - pos {
                                assert(rest[newline_from(rest, 0)] == bytes@[pos + newline_from(rest, 0)]);
                            }
                        }
                    }
                    assert(strip_cr(rest.subrange(0, end - pos)) =~= line);
                    assert(rest.subrange(end - pos + 1, rest.len() as int) =~= bytes@.subrange(end + 1, n as int));
                    assert(text_lines(rest) == seq![line] + text_lines(bytes@.subrange(end + 1, n as int)));
                } else {
                    assert(newline_from(rest, 0) == -1) by {
                        if newline_from(rest, 0) != -1 {
                            assert(rest[newline_from(rest, 0)] == bytes@[pos + newline_from(rest, 0)]);
                        }
                    }
                    assert(rest =~= line);
                    assert(text_lines(rest) == seq![line]);
                    assert(bytes@.subrange(n as int, n as int) =~= Seq::<u8>::empty());
                }
            }
            let (from, to) = trim_range(bytes, pos, line_end);
            if !header_seen {
                let header = "mnu-execution-allowlist v1".as_bytes();
                if !bytes_equal(slice_range(bytes, from, to).as_slice(), header) {
                    return None;
                }
                header_seen = true;
                proof {
                    assert(done.push(line).drop_first() =~= Seq::<Seq<u8>>::empty());
                    assert(records@.map_values(|r: SignatureRecord| (r.path@, r.digest@)) =~= Seq::<(Seq<u8>, Seq<u8>)>::empty());
                }
            } else {
                let ghost before = records@.map_values(|r: SignatureRecord| (r.path@, r.digest@));
                let ghost lines = done.drop_first().push(line);
                proof {
                    assert(lines.drop_last() =~= done.drop_first());
                    assert(lines.last() == line);
                }
                match parse_record(bytes, pos, line_end) {
                    None => {
                        proof {
                            lemma_record_lines_stop(all.drop_first(), lines.len() as int);
                            assert(all.drop_first().take(lines.len() as int) =~= lines) by {
                                assert(all == done + (seq![line] + text_lines(bytes@.subrange(if end < n { end + 1 } else { n as int }, n as int))));
                            }
                        }
                        return None;
                    },
                    Some(None) => {},
                    Some(Some(record)) => {
                        records.push(record);
                        proof {
                            assert(records@.map_values(|r: SignatureRecord| (r.path@, r.digest@)) =~= before.push((record.path@, record.digest@)));
                        }
                    },
                }
                proof {
                    assert(record_lines(lines) == Some(records@.map_values(|r: SignatureRecord| (r.path@, r.digest@))));
                    assert(done.push(line).drop_first() =~= lines);
                }
            }
            proof {
                assert((done.push(line)).drop_first() =~= if done.len() == 0 { Seq::empty() } else { done.drop_first().push(line) });
                done = done.push(line);
                assert(done[0] == if done.len() == 1 { line } else { done[0] });
            }
            pos = if end < n { end + 1 } else { n };
            proof {
                assert(all =~= done + text_lines(bytes@.subrange(pos as int, n as int)));
            }
        }
        proof {
            assert(bytes@.subrange(n as int, n as int) =~= Seq::<u8>::empty());
            assert(all =~= done);
        }
        if !header_seen {
            return None;
        }
        Some(SignatureDatabase { records })
    }

    /// Whether the allowlist has a record for `path` whose digest is that of `data`.
    pub open spec fn admits(&self, path: Seq<u8>, data: Seq<u8>) -> bool {
        exists|i: int| 0 <= i < self.entries().len() && #[trigger] self.entries()[i] == (path, sha256(data))
    }

    fn matches(&self, path: &[u8], data: &[u8]) -> (r: bool)
        ensures
            r == self.admits(path@, data@),
    {
        let digest = sha256_digest(data);
        let mut i: usize = 0;
        while i < self.records.len()
            invariant
                i <= self.records@.len(),
                digest@ == sha256(data@),
                forall|j: int| 0 <= j < i ==> #[trigger] self.entries()[j] != (path@, sha256(data@)),
            decreases self.records@.len() - i,
        {
            let record = &self.records[i];
            if bytes_equal(record.path.as_slice(), path) && bytes_equal(&record.digest, &digest) {
                assert(self.entries()[i as int] == (path@, sha256(data@)));
                return true;
            }
            assert(self.entries()[i as int] == (record.path@, record.digest@));
            i = i + 1;
        }
        false
    }
}

fn slice_range(bytes: &[u8], from: usize, to: usize) -> (v: Vec<u8>)
    requires
        from <= to <= bytes@.len(),
    ensures
        v@ == bytes@.subrange(from as int, to as int),
{
    let mut v: Vec<u8> = Vec::new();
    let mut i = from;
    while i < to
        invariant
            from <= i <= to <= bytes@.len(),
            v@ == bytes@.subrange(from as int, i as int),
        decreases to - i,
    {
        v.push(bytes[i]);
        i = i + 1;
        assert(v@ =~= bytes@.subrange(from as int, i as int));
    }
    v
}

proof fn lemma_record_lines_stop(lines: Seq<Seq<u8>>, m: int)
    requires
        0 < m <= lines.len(),
        record_lines(lines.take(m)) is None,
    ensures
        record_lines(lines) is None,
    decreases lines.len() - m,
{
    if m < lines.len() {
        assert(lines.take(m + 1).drop_last() =~= lines.take(m));
        lemma_record_lines_stop(lines, m + 1);
    } else {
        assert(lines.take(m) =~= lines);
    }
}

fn word_end(bytes: &[u8], start: usize, end: usize) -> (r: usize)
    requires
        start <= end <= bytes@.len(),
    ensures
        r == start + word_len(bytes@.subrange(start as int, end as int)),
        r <= end,
    decreases end - start,
{
    if start == end || leading_space_len(bytes, start, end) > 0 {
        return start;
    }
    let r = word_end(bytes, start + 1, end);
    assert(bytes@.subrange(start as int, end as int).drop_first() =~= bytes@.subrange(start + 1, end as int));
    r
}

fn space_end(bytes: &[u8], start: usize, end: usize) -> (r: usize)
    requires
        start <= end <= bytes@.len(),
    ensures
        start <= r <= end,
        bytes@.subrange(r as int, end as int) == trim_start(bytes@.subrange(start as int, end as int)),
    decreases end - start,
{
    let n = leading_space_len(bytes, start, end);
    if n == 0 {
        return start;
    }
    let ghost t = bytes@.subrange(start as int, end as int);
    assert(t.subrange(n as int, t.len() as int) =~= bytes@.subrange(start + n, end as int));
    space_end(bytes, start + n, end)
}

fn hex_digit(b: u8) -> (r: Option<u8>)
    ensures
        r == hex_value(b),
{
    if 0x30 <= b && b <= 0x39 {
        Some(b - 0x30)
    } else if 0x61 <= b && b <= 0x66 {
        Some(b - 0x61 + 10)
    } else if 0x41 <= b && b <= 0x46 {
        Some(b - 0x41 + 10)
    } else {
        None
    }
}

fn decode_digest(bytes: &[u8], start: usize, end: usize) -> (r: Option<[u8; 32]>)
    requires
        start <= end <= bytes@.len(),
    ensures
        match hex_digest(bytes@.subrange(start as int, end as int)) {
            None => r is None,
            Some(d) => r matches Some(a) && a@ == d,
        },
{
    let ghost text = bytes@.subrange(start as int, end as int);
    if end - start != 64 {
        return None;
    }
    let mut out = [0u8; 32];
    let mut idx: usize = 0;
    while idx < 32
        invariant
            idx <= 32,
            end == start + 64,
            end <= bytes@.len(),
            text == bytes@.subrange(start as int, end as int),
            forall|i: int| 0 <= i < 2 * idx ==> #[trigger] hex_value(text[i]) is Some,
            forall|i: int| 0 <= i < idx ==> out@[i] == (hex_value(text[2 * i])->0 * 16 + hex_value(text[2 * i + 1])->0) as u8,
        decreases 32 - idx,
    {
        assert(text[2 * idx as int] == bytes@[start + 2 * idx]);
        assert(text[2 * idx + 1] == bytes@[start + 2 * idx + 1]);
        let hi = match hex_digit(bytes[start + idx * 2]) {
            Some(v) => v,
            None => {
                assert(hex_value(text[2 * idx as int]) is None);
                return None;
            },
        };
        let lo = match hex_digit(bytes[start + idx * 2 + 1]) {
            Some(v) => v,
            None => {
                assert(hex_value(text[2 * idx + 1]) is None);
                return None;
            },
        };
        out[idx] = hi * 16 + lo;
        idx = idx + 1;
    }
    assert(out@ =~= Seq::new(32, |i: int| (hex_value(text[2 * i])->0 * 16 + hex_value(text[2 * i + 1])->0) as u8));
    Some(out)
}

/// Reads the line `bytes[start..end]` after the header.
fn parse_record(bytes: &[u8], start: usize, end: usize) -> (r: Option<Option<SignatureRecord>>)
    requires
        start <= end <= bytes@.len(),
    ensures
        match record_line(bytes@.subrange(start as int, end as int)) {
            None => r is None,
            Some(None) => r == Some(None::<SignatureRecord>),
            Some(Some((path, digest))) => r matches Some(Some(rec)) && rec.path@ == path && rec.digest@ == digest,
        },
{
    let (from, to) = trim_range(bytes, start, end);
    let ghost t = bytes@.subrange(from as int, to as int);
    if from == to || bytes[from] == 0x23 {
        return Some(None);
    }
    let keyword = "record ".as_bytes();
    let k = keyword.len();
    if to - from < k || !bytes_equal(slice_range(bytes, from, from + k).as_slice(), keyword) {
        proof {
            if to - from >= k {
                assert(t.subrange(0, k as int) =~= bytes@.subrange(from as int, from + k));
            }
        }
        return None;
    }
    let ghost fields = t.subrange(k as int, t.len() as int);
    assert(fields =~= bytes@.subrange(from + k, to as int));
    assert(t.subrange(0, k as int) =~= bytes@.subrange(from as int, from + k));
    let a = space_end(bytes, from + k, to);
    let b = word_end(bytes, a, to);
    let c = space_end(bytes, b, to);
    let d = word_end(bytes, c, to);
    let e = space_end(bytes, d, to);
    proof {
        let tt = bytes@.subrange(a as int, to as int);
        assert(tt.subrange(0, word_len(tt) as int) =~= bytes@.subrange(a as int, b as int));
        assert(tt.subrange(word_len(tt) as int, tt.len() as int) =~= bytes@.subrange(b as int, to as int));
        let u = bytes@.subrange(c as int, to as int);
        assert(u.subrange(0, word_len(u) as int) =~= bytes@.subrange(c as int, d as int));
        assert(u.subrange(word_len(u) as int, u.len() as int) =~= bytes@.subrange(d as int, to as int));
    }
    if a == to || c == to || e != to {
        return None;
    }
    let digest = match decode_digest(bytes, c, d) {
        Some(digest) => digest,
        None => return None,
    };
    let path = slice_range(bytes, a, b);
    Some(Some(SignatureRecord { path, digest }))
}

/// Reads the allowlist text `bytes` into `database`; whether it was valid.
/// An invalid text leaves `database` as it was.
pub fn load_signature_database(database: &mut Option<SignatureDatabase>, bytes: &[u8]) -> (r: bool)
    ensures
        r == (allowlist_records(bytes@) is Some),
        r ==> (*final(database) matches Some(db) && Some(db.entries()) == allowlist_records(bytes@)),
        !r ==> *final(database) == *old(database),
{
    match SignatureDatabase::parse(bytes) {
        Some(db) => {
            *database = Some(db);
            true
        },
        None => false,
    }
}

/// Whether the loaded allowlist admits executing `data` from `path`; nothing
/// is admitted while no allowlist is loaded.
pub fn verify_exec(database: &Option<SignatureDatabase>, path: &str, data: &[u8]) -> (r: bool)
    ensures
        r == (match database {
            Some(db) => db.admits(path.spec_bytes(), data@),
            None => false,
        }),
{
    match database {
        Some(db) => db.matches(path.as_bytes(), data),
        None => false,
    }
}

/// Whether the boot allowlist, read from the initial file system, admits
/// executing `data` from `path`.
pub fn verify_boot_exec(database: &Option<SignatureDatabase>, path: &str, data: &[u8]) -> (r: bool)
    ensures
        r == (match database {
            Some(db) => db.admits(path.spec_bytes(), data@),
            None => false,
        }),
{
    verify_exec(database, path, data)
}

} // verus!
