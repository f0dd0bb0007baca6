//! Byte-level text handling for names, paths and configuration lines: exact
//! comparison, trimming of Unicode white space and unsigned number parsing.

use vstd::prelude::*;

verus! {

/// Whether `a` and `b` hold the same bytes.
pub fn bytes_equal(a: &[u8], b: &[u8]) -> (r: bool)
    ensures
        r == (a@ == b@),
{
    if a.len() != b.len() {
        return false;
    }
    let mut i: usize = 0;
    while i < a.len()
        invariant
            i <= a@.len(),
            a@.len() == b@.len(),
            forall|j: int| 0 <= j < i ==> a@[j] == b@[j],
        decreases a@.len() - i,
    {
        if a[i] != b[i] {
            assert(a@[i as int] != b@[i as int]);
            return false;
        }
        i = i + 1;
    }
    assert(a@ =~= b@);
    true
}

/// Whether `s` starts with `prefix`.
pub open spec fn has_prefix(s: Seq<u8>, prefix: Seq<u8>) -> bool {
    prefix.len() <= s.len() && s.subrange(0, prefix.len() as int) == prefix
}

pub fn starts_with(s: &[u8], prefix: &[u8]) -> (r: bool)
    ensures
        r == has_prefix(s@, prefix@),
{
    if prefix.len() > s.len() {
        return false;
    }
    let mut i: usize = 0;
    while i < prefix.len()
        invariant
            i <= prefix@.len(),
            prefix@.len() <= s@.len(),
            forall|j: int| 0 <= j < i ==> s@[j] == prefix@[j],
        decreases prefix@.len() - i,
    {
        if s[i] != prefix[i] {
            assert(s@.subrange(0, prefix@.len() as int)[i as int] != prefix@[i as int]);
            return false;
        }
        i = i + 1;
    }
    assert(s@.subrange(0, prefix@.len() as int) =~= prefix@);
    true
}

/// Position of the first `byte` in `s`, if any.
pub open spec fn first_index_of(s: Seq<u8>, byte: u8) -> Option<int> {
    if exists|i: int| 0 <= i < s.len() && s[i] == byte {
        Some(choose|i: int| 0 <= i < s.len() && s[i] == byte && forall|j: int| 0 <= j < i ==> s[j] != byte)
    } else {
        None
    }
}

pub fn find_byte(s: &[u8], byte: u8) -> (r: Option<usize>)
    ensures
        r matches Some(i) ==> i < s@.len() && s@[i as int] == byte && forall|j: int| 0 <= j < i ==> s@[j] != byte,
        r is None ==> forall|j: int| 0 <= j < s@.len() ==> s@[j] != byte,
{
    let mut i: usize = 0;
    while i < s.len()
        invariant
            i <= s@.len(),
            forall|j: int| 0 <= j < i ==> s@[j] != byte,
        decreases s@.len() - i,
    {
        if s[i] == byte {
            return Some(i);
        }
        i = i + 1;
    }
    None
}

/// Length of the UTF-8 encoded white-space character at the start of `s`,
/// or zero: the characters with the Unicode `White_Space` property.
pub open spec fn leading_space(s: Seq<u8>) -> nat {
    if s.len() >= 1 && (s[0] == 0x20 || (0x09 <= s[0] && s[0] <= 0x0d)) {
        1
    } else if s.len() >= 2 && s[0] == 0xc2 && (s[1] == 0x85 || s[1] == 0xa0) {
        2
    } else if s.len() >= 3 && ((s[0] == 0xe1 && s[1] == 0x9a && s[2] == 0x80)
        || (s[0] == 0xe2 && s[1] == 0x80 && ((0x80 <= s[2] && s[2] <= 0x8a) || s[2] == 0xa8 || s[2] == 0xa9 || s[2] == 0xaf))
        || (s[0] == 0xe2 && s[1] == 0x81 && s[2] == 0x9f)
        || (s[0] == 0xe3 && s[1] == 0x80 && s[2] == 0x80)) {
        3
    } else {
        0
    }
}

/// Length of the UTF-8 encoded white-space character at the end of `s`, or zero.
pub open spec fn trailing_space(s: Seq<u8>) -> nat {
    let n = s.len() as int;
    if n >= 1 && (s[n - 1] == 0x20 || (0x09 <= s[n - 1] && s[n - 1] <= 0x0d)) {
        1
    } else if n >= 2 && s[n - 2] == 0xc2 && (s[n - 1] == 0x85 || s[n - 1] == 0xa0) {
        2
    } else if n >= 3 && ((s[n - 3] == 0xe1 && s[n - 2] == 0x9a && s[n - 1] == 0x80)
        || (s[n - 3] == 0xe2 && s[n - 2] == 0x80 && ((0x80 <= s[n - 1] && s[n - 1] <= 0x8a) || s[n - 1] == 0xa8 || s[n - 1] == 0xa9 || s[n - 1] == 0xaf))
        || (s[n - 3] == 0xe2 && s[n - 2] == 0x81 && s[n - 1] == 0x9f)
        || (s[n - 3] == 0xe3 && s[n - 2] == 0x80 && s[n - 1] == 0x80)) {
        3
    } else {
        0
    }
}

/// `s` without leading white space.
pub open spec fn trim_start(s: Seq<u8>) -> Seq<u8>
    decreases s.len(),
{
    if leading_space(s) == 0 { s } else { trim_start(s.subrange(leading_space(s) as int, s.len() as int)) }
}

/// `s` without trailing white space.
pub open spec fn trim_end(s: Seq<u8>) -> Seq<u8>
    decreases s.len(),
{
    if trailing_space(s) == 0 { s } else { trim_end(s.subrange(0, s.len() - trailing_space(s))) }
}

/// `s` without leading and trailing white space.
pub open spec fn trim(s: Seq<u8>) -> Seq<u8> {
    trim_end(trim_start(s))
}

pub fn leading_space_len(s: &[u8], start: usize, end: usize) -> (n: usize)
    requires
        start <= end <= s@.len(),
    ensures
        n == leading_space(s@.subrange(start as int, end as int)),
{
    let ghost t = s@.subrange(start as int, end as int);
    let len = end - start;
    if len >= 1 && (s[start] == 0x20 || (0x09 <= s[start] && s[start] <= 0x0d)) {
        return 1;
    }
    if len >= 2 && s[start] == 0xc2 && (s[start + 1] == 0x85 || s[start + 1] == 0xa0) {
        return 2;
    }
    if len >= 3 {
        let (a, b, c) = (s[start], s[start + 1], s[start + 2]);
        if (a == 0xe1 && b == 0x9a && c == 0x80)
            || (a == 0xe2 && b == 0x80 && ((0x80 <= c && c <= 0x8a) || c == 0xa8 || c == 0xa9 || c == 0xaf))
            || (a == 0xe2 && b == 0x81 && c == 0x9f)
            || (a == 0xe3 && b == 0x80 && c == 0x80) {
            return 3;
        }
    }
    0
}

fn trailing_space_len(s: &[u8], start: usize, end: usize) -> (n: usize)
    requires
        start <= end <= s@.len(),
    ensures
        n == trailing_space(s@.subrange(start as int, end as int)),
{
    let len = end - start;
    if len >= 1 && (s[end - 1] == 0x20 || (0x09 <= s[end - 1] && s[end - 1] <= 0x0d)) {
        return 1;
    }
    if len >= 2 && s[end - 2] == 0xc2 && (s[end - 1] == 0x85 || s[end - 1] == 0xa0) {
        return 2;
    }
    if len >= 3 {
        let (a, b, c) = (s[end - 3], s[end - 2], s[end - 1]);
        if (a == 0xe1 && b == 0x9a && c == 0x80)
            || (a == 0xe2 && b == 0x80 && ((0x80 <= c && c <= 0x8a) || c == 0xa8 || c == 0xa9 || c == 0xaf))
            || (a == 0xe2 && b == 0x81 && c == 0x9f)
            || (a == 0xe3 && b == 0x80 && c == 0x80) {
            return 3;
        }
    }
    0
}

/// Bounds of `s[start..end]` with leading and trailing white space removed.
pub fn trim_range(s: &[u8], start: usize, end: usize) -> (r: (usize, usize))
    requires
        start <= end <= s@.len(),
    ensures
        start <= r.0 <= r.1 <= end,
        s@.subrange(r.0 as int, r.1 as int) == trim(s@.subrange(start as int, end as int)),
{
    let mut from = start;
    let mut done = false;
    while !done && from < end
        invariant
            start <= from <= end <= s@.len(),
            trim_start(s@.subrange(start as int, end as int)) == trim_start(s@.subrange(from as int, end as int)),
            done ==> leading_space(s@.subrange(from as int, end as int)) == 0,
        decreases end - from, (if done { 0int } else { 1int }),
    {
        let n = leading_space_len(s, from, end);
        if n == 0 {
            done = true;
        } else {
            proof {
                let t = s@.subrange(from as int, end as int);
                assert(t.subrange(n as int, t.len() as int) =~= s@.subrange(from + n, end as int));
            }
            from = from + n;
        }
    }
    proof {
        let t = s@.subrange(from as int, end as int);
        if from == end {
            assert(leading_space(t) == 0);
        }
        assert(trim_start(t) == t);
    }
    let mut to = end;
    let mut finished = false;
    while !finished && to > from
        invariant
            start <= from <= to <= end <= s@.len(),
            trim_start(s@.subrange(start as int, end as int)) == s@.subrange(from as int, end as int),
            trim_end(s@.subrange(from as int, end as int)) == trim_end(s@.subrange(from as int, to as int)),
            finished ==> trailing_space(s@.subrange(from as int, to as int)) == 0,
        decreases to - from, (if finished { 0int } else { 1int }),
    {
        let n = trailing_space_len(s, from, to);
        if n == 0 {
            finished = true;
        } else {
            proof {
                let t = s@.subrange(from as int, to as int);
                assert(t.subrange(0, t.len() - n) =~= s@.subrange(from as int, to - n));
            }
            to = to - n;
        }
    }
    proof {
        let t = s@.subrange(from as int, to as int);
        if from == to {
            assert(trailing_space(t) == 0);
        }
        assert(trim_end(t) == t);
    }
    (from, to)
}

/// Value of the digit `b` in base `radix` (10 or 16), if it is one.
pub open spec fn digit_value(b: u8, radix: nat) -> Option<nat> {
    if 0x30 <= b && b <= 0x39 {
        Some((b - 0x30) as nat)
    } else if radix == 16 && 0x61 <= b && b <= 0x66 {
        Some((b - 0x61 + 10) as nat)
    } else if radix == 16 && 0x41 <= b && b <= 0x46 {
        Some((b - 0x41 + 10) as nat)
    } else {
        None
    }
}

/// Whether every byte of `s` is a digit of base `radix`.
pub open spec fn all_digits(s: Seq<u8>, radix: nat) -> bool {
    forall|i: int| 0 <= i < s.len() ==> #[trigger] digit_value(s[i], radix) is Some
}

/// The number the digits `s` write in base `radix`, most significant first.
pub open spec fn digits_value(s: Seq<u8>, radix: nat) -> nat
    decreases s.len(),
{
    if s.len() == 0 {
        0
    } else {
        digits_value(s.drop_last(), radix) * radix + match digit_value(s.last(), radix) {
            Some(d) => d,
            None => 0,
        }
    }
}

/// The unsigned 64-bit number `s` writes in base `radix`: an optional `+`,
/// then at least one digit, with a value that fits.
pub open spec fn parse_unsigned(s: Seq<u8>, radix: nat) -> Option<u64> {
    let digits = if s.len() >= 1 && s[0] == 0x2b { s.drop_first() } else { s };
    if s.len() == 0 || digits.len() == 0 || !all_digits(digits, radix) || digits_value(digits, radix) > u64::MAX {
        None
    } else {
        Some(digits_value(digits, radix) as u64)
    }
}

proof fn lemma_digits_value_grows(s: Seq<u8>, radix: nat, k: int)
    requires
        radix >= 2,
        0 <= k <= s.len(),
    ensures
        digits_value(s.subrange(0, k), radix) <= digits_value(s, radix),
    decreases s.len() - k,
{
    if k < s.len() {
        lemma_digits_value_grows(s, radix, k + 1);
        let p = s.subrange(0, k + 1);
        assert(p.drop_last() =~= s.subrange(0, k));
        let v = digits_value(s.subrange(0, k), radix);
        assert(v * radix >= v) by (nonlinear_arith)
            requires
                radix >= 2,
                v >= 0,
        ;
    } else {
        assert(s.subrange(0, k) =~= s);
    }
}

fn digit_of(b: u8, radix: u64) -> (r: Option<u64>)
    requires
        radix == 10 || radix == 16,
    ensures
        r matches Some(d) ==> digit_value(b, radix as nat) == Some(d as nat),
        r is None ==> digit_value(b, radix as nat) is None,
{
    if 0x30 <= b && b <= 0x39 {
        Some((b - 0x30) as u64)
    } else if radix == 16 && 0x61 <= b && b <= 0x66 {
        Some((b - 0x61 + 10) as u64)
    } else if radix == 16 && 0x41 <= b && b <= 0x46 {
        Some((b - 0x41 + 10) as u64)
    } else {
        None
    }
}

/// Parses `s[start..end]` as an unsigned number in base `radix`.
pub fn parse_u64_radix(s: &[u8], start: usize, end: usize, radix: u64) -> (r: Option<u64>)
    requires
        start <= end <= s@.len(),
        radix == 10 || radix == 16,
    ensures
        r == parse_unsigned(s@.subrange(start as int, end as int), radix as nat),
{
    let ghost t = s@.subrange(start as int, end as int);
    if start == end {
        return None;
    }
    let first = if s[start] == 0x2b { start + 1 } else { start };
    let ghost digits = s@.subrange(first as int, end as int);
    assert(digits =~= (if t.len() >= 1 && t[0] == 0x2b { t.drop_first() } else { t }));
    if first == end {
        return None;
    }
    let mut value: u64 = 0;
    let mut i: usize = first;
    while i < end
        invariant
            first <= i <= end <= s@.len(),
            first < end,
            radix == 10 || radix == 16,
            digits == s@.subrange(first as int, end as int),
            t == s@.subrange(start as int, end as int),
            t.len() > 0,
            digits == (if t.len() >= 1 && t[0] == 0x2b { t.drop_first() } else { t }),
            all_digits(s@.subrange(first as int, i as int), radix as nat),
            value == digits_value(s@.subrange(first as int, i as int), radix as nat),
        decreases end - i,
    {
        let ghost prefix = s@.subrange(first as int, i as int);
        let ghost next = s@.subrange(first as int, i + 1);
        assert(next.drop_last() =~= prefix);
        assert(next.last() == s@[i as int]);
        let d = match digit_of(s[i], radix) {
            Some(d) => d,
            None => {
                assert(!all_digits(digits, radix as nat)) by {
                    assert(digits[i - first] == s@[i as int]);
                    assert(digit_value(digits[i - first], radix as nat) is None);
                }
                return None;
            },
        };
        assert(forall|j: int| 0 <= j < next.len() ==> #[trigger] next[j] == if j < prefix.len() { prefix[j] } else { s@[i as int] });
        assert(all_digits(next, radix as nat));
        let scaled = value.checked_mul(radix);
        let sum = match scaled {
            Some(v) => v.checked_add(d),
            None => None,
        };
        match sum {
            Some(v) => {
                value = v;
            },
            None => {
                proof {
                    assert(digits_value(next, radix as nat) == value * radix + d);
                    assert(next =~= digits.subrange(0, i + 1 - first));
                    lemma_digits_value_grows(digits, radix as nat, i + 1 - first);
                    if all_digits(digits, radix as nat) {
                        assert(digits_value(digits, radix as nat) > u64::MAX);
                    }
                }
                return None;
            },
        }
        i = i + 1;
    }
    assert(s@.subrange(first as int, i as int) =~= digits);
    Some(value)
}


/// Pieces of `s` between occurrences of `sep`, as `str::split` gives them:
/// one more piece than there are separators.
pub open spec fn split_on(s: Seq<u8>, sep: u8) -> Seq<Seq<u8>>
    decreases s.len(),
{
    if s.len() == 0 {
        seq![Seq::<u8>::empty()]
    } else {
        let parts = split_on(s.drop_last(), sep);
        if s.last() == sep {
            parts.push(Seq::<u8>::empty())
        } else {
            parts.update(parts.len() - 1, parts.last().push(s.last()))
        }
    }
}

proof fn lemma_split_on_nonempty(s: Seq<u8>, sep: u8)
    ensures
        split_on(s, sep).len() >= 1,
    decreases s.len(),
{
    if s.len() > 0 {
        lemma_split_on_nonempty(s.drop_last(), sep);
    }
}

/// Bounds of the pieces of `s[start..end]` between occurrences of `sep`.
pub fn split_ranges(s: &[u8], start: usize, end: usize, sep: u8) -> (r: Vec<(usize, usize)>)
    requires
        start <= end <= s@.len(),
    ensures
        r@.len() == split_on(s@.subrange(start as int, end as int), sep).len(),
        forall|k: int| 0 <= k < r@.len() ==> start <= (#[trigger] r@[k]).0 <= r@[k].1 <= end
            && s@.subrange(r@[k].0 as int, r@[k].1 as int) == split_on(s@.subrange(start as int, end as int), sep)[k],
{
    let mut ranges: Vec<(usize, usize)> = Vec::new();
    let mut piece_start = start;
    let mut i = start;
    proof {
        assert(s@.subrange(start as int, start as int) =~= Seq::<u8>::empty());
    }
    while i < end
        invariant
            start <= piece_start <= i <= end <= s@.len(),
            ranges@.len() + 1 == split_on(s@.subrange(start as int, i as int), sep).len(),
            forall|k: int| 0 <= k < ranges@.len() ==> start <= (#[trigger] ranges@[k]).0 <= ranges@[k].1 <= i
                && s@.subrange(ranges@[k].0 as int, ranges@[k].1 as int) == split_on(s@.subrange(start as int, i as int), sep)[k],
            s@.subrange(piece_start as int, i as int) == split_on(s@.subrange(start as int, i as int), sep).last(),
        decreases end - i,
    {
        let ghost prefix = s@.subrange(start as int, i as int);
        let ghost next = s@.subrange(start as int, i + 1);
        proof {
            assert(next.drop_last() =~= prefix);
            assert(next.last() == s@[i as int]);
            lemma_split_on_nonempty(prefix, sep);
        }
        if s[i] == sep {
            ranges.push((piece_start, i));
            piece_start = i + 1;
            proof {
                assert(s@.subrange(piece_start as int, i + 1) =~= Seq::<u8>::empty());
            }
        } else {
            proof {
                assert(s@.subrange(piece_start as int, i + 1) =~= s@.subrange(piece_start as int, i as int).push(s@[i as int]));
            }
        }
        i = i + 1;
    }
    ranges.push((piece_start, i));
    ranges
}

/// A copy of `bytes[from..to]`.
pub fn copy_bytes(bytes: &[u8], from: usize, to: usize) -> (v: Vec<u8>)
    requires
        from <= to <= bytes@.len(),
    ensures
        v@ == bytes@.subrange(from as int, to as int),
{
    let mut v: Vec<u8> = Vec::new();
    let mut i = from;
    while i < to
        invariant
            from <= i <= to <= bytes@.len(),
            v@ == bytes@.subrange(from as int, i as int),
        decreases to - i,
    {
        v.push(bytes[i]);
        i = i + 1;
        assert(v@ =~= bytes@.subrange(from as int, i as int));
    }
    v
}

} // verus!
