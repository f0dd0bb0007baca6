//! Little-endian integer encoding of fixed-width fields in byte records.

use vstd::prelude::*;

verus! {

/// `256` raised to `n`: one more than the largest value `n` bytes hold.
pub open spec fn byte_scale(n: nat) -> nat
    decreases n,
{
    if n == 0 { 1 } else { 256 * byte_scale((n - 1) as nat) }
}

proof fn lemma_byte_scale_monotone(a: nat, b: nat)
    requires
        a <= b,
    ensures
        1 <= byte_scale(a) <= byte_scale(b),
    decreases b,
{
    if b > 0 {
        lemma_byte_scale_monotone(if a < b { a } else { (b - 1) as nat }, (b - 1) as nat);
    }
}

proof fn lemma_byte_scale_eight()
    ensures
        byte_scale(8) == 0x1_0000_0000_0000_0000,
{
    reveal_with_fuel(byte_scale, 9);
}

/// Byte scales of the field widths the wire records use.
pub proof fn lemma_byte_scales()
    ensures
        byte_scale(2) == 0x1_0000,
        byte_scale(4) == 0x1_0000_0000,
        byte_scale(8) == 0x1_0000_0000_0000_0000,
{
    reveal_with_fuel(byte_scale, 9);
}

/// The `n` low-order bytes of `v`, least significant first.
pub open spec fn le_encode(v: nat, n: nat) -> Seq<u8>
    decreases n,
{
    if n == 0 {
        Seq::empty()
    } else {
        seq![(v % 256) as u8] + le_encode(v / 256, (n - 1) as nat)
    }
}

/// The number whose little-endian bytes are `s`.
pub open spec fn le_decode(s: Seq<u8>) -> nat
    decreases s.len(),
{
    if s.len() == 0 {
        0
    } else {
        (s[0] + 256 * le_decode(s.drop_first())) as nat
    }
}

pub proof fn lemma_le_encode_len(v: nat, n: nat)
    ensures
        le_encode(v, n).len() == n,
    decreases n,
{
    if n > 0 {
        lemma_le_encode_len(v / 256, (n - 1) as nat);
    }
}

pub proof fn lemma_le_decode_bound(s: Seq<u8>)
    ensures
        le_decode(s) < byte_scale(s.len()),
    decreases s.len(),
{
    if s.len() > 0 {
        lemma_le_decode_bound(s.drop_first());
        lemma_byte_scale_monotone(0, (s.len() - 1) as nat);
        let d = le_decode(s.drop_first());
        let p = byte_scale((s.len() - 1) as nat);
        assert(s[0] + 256 * d < 256 * p) by (nonlinear_arith)
            requires
                d < p,
                0 <= s[0] < 256,
                d >= 0,
        ;
    }
}

/// Decoding the encoding of a value that fits in `n` bytes gives the value back.
pub proof fn lemma_le_round_trip(v: nat, n: nat)
    requires
        v < byte_scale(n),
    ensures
        le_decode(le_encode(v, n)) == v,
    decreases n,
{
    if n > 0 {
        let p = byte_scale((n - 1) as nat);
        assert(v / 256 < p) by (nonlinear_arith)
            requires
                v < 256 * p,
        ;
        lemma_le_round_trip(v / 256, (n - 1) as nat);
        let e = le_encode(v, n);
        assert(e.drop_first() =~= le_encode(v / 256, (n - 1) as nat));
        assert(v == v % 256 + 256 * (v / 256)) by (nonlinear_arith);
    }
}

/// Encoding the value of a byte string gives the same bytes back.
pub proof fn lemma_le_decode_encode(s: Seq<u8>)
    ensures
        le_encode(le_decode(s), s.len()) == s,
    decreases s.len(),
{
    if s.len() > 0 {
        let d = le_decode(s.drop_first());
        lemma_le_decode_encode(s.drop_first());
        let v = le_decode(s);
        assert(v % 256 == s[0] && v / 256 == d) by (nonlinear_arith)
            requires
                v == s[0] + 256 * d,
                0 <= s[0] < 256,
                d >= 0,
        ;
        assert(le_encode(v, s.len()) =~= s);
    }
}

/// Writes the `n` low-order bytes of `value` at `offset`, least significant first.
pub fn put_le(bytes: &mut [u8], offset: usize, value: u64, n: usize)
    requires
        offset + n <= old(bytes)@.len(),
        n <= 8,
    ensures
        final(bytes)@ == old(bytes)@.subrange(0, offset as int) + le_encode(value as nat, n as nat)
            + old(bytes)@.subrange(offset + n, old(bytes)@.len() as int),
{
    let ghost initial = bytes@;
    let _len = bytes.len();
    let mut rest = value;
    let mut i: usize = 0;
    proof {
        lemma_le_encode_len(value as nat, n as nat);
    }
    while i < n
        invariant
            i <= n,
            n <= 8,
            offset + n <= bytes@.len(),
            bytes@.len() <= usize::MAX,
            bytes@.len() == initial.len(),
            le_encode(value as nat, n as nat).len() == n,
            le_encode(rest as nat, (n - i) as nat) == le_encode(value as nat, n as nat).subrange(
                i as int,
                n as int,
            ),
            forall|j: int| 0 <= j < offset ==> bytes@[j] == initial[j],
            forall|j: int| offset + n <= j < bytes@.len() ==> bytes@[j] == initial[j],
            forall|j: int|
                0 <= j < i ==> bytes@[offset + j] == le_encode(value as nat, n as nat)[j],
        decreases n - i,
    {
        let ghost enc = le_encode(rest as nat, (n - i) as nat);
        assert(enc[0] == (rest % 256) as u8);
        assert(enc.drop_first() == le_encode((rest / 256) as nat, (n - i - 1) as nat));
        bytes[offset + i] = (rest % 256) as u8;
        rest = rest / 256;
        i = i + 1;
        assert(le_encode(rest as nat, (n - i) as nat) =~= le_encode(value as nat, n as nat).subrange(
            i as int,
            n as int,
        ));
    }
    assert(bytes@ =~= initial.subrange(0, offset as int) + le_encode(value as nat, n as nat)
        + initial.subrange(offset + n, initial.len() as int));
}

/// Reads the `n`-byte little-endian value at `offset`.
pub fn get_le(bytes: &[u8], offset: usize, n: usize) -> (r: u64)
    requires
        offset + n <= bytes@.len(),
        n <= 8,
    ensures
        r == le_decode(bytes@.subrange(offset as int, offset + n)),
{
    let ghost whole = bytes@.subrange(offset as int, offset + n);
    let _len = bytes.len();
    let mut acc: u64 = 0;
    let mut i: usize = n;
    while i > 0
        invariant
            i <= n,
            n <= 8,
            offset + n <= bytes@.len(),
            bytes@.len() <= usize::MAX,
            whole == bytes@.subrange(offset as int, offset + n),
            acc == le_decode(bytes@.subrange(offset + i, offset + n)),
            acc < byte_scale((n - i) as nat),
        decreases i,
    {
        let ghost tail = bytes@.subrange(offset + i, offset + n);
        let ghost next = bytes@.subrange(offset + i - 1, offset + n);
        assert(next.drop_first() =~= tail);
        assert(next[0] == bytes@[offset + i - 1]);
        proof {
            lemma_byte_scale_monotone((n - i + 1) as nat, 8);
            lemma_byte_scale_eight();
            let p = byte_scale((n - i) as nat);
            assert(acc * 256 + 255 < 256 * p) by (nonlinear_arith)
                requires
                    acc < p,
            ;
        }
        acc = acc * 256 + bytes[offset + i - 1] as u64;
        i = i - 1;
    }
    assert(bytes@.subrange(offset as int, offset + n) =~= whole);
    acc
}

} // verus!
