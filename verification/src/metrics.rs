//! Saturating counters, a peak-tracking gauge and a log2-bucketed histogram.
//!
//! The kernel keeps these behind its own locks; here each metric is a plain
//! value whose updates are proved to saturate instead of wrapping.

use vstd::prelude::*;
use vstd::arithmetic::power2::pow2;

verus! {

/// Number of histogram buckets: bucket 0 holds zero, bucket `k` holds values
/// whose highest set bit is bit `k - 1`.
pub const HISTOGRAM_BUCKETS: usize = 65;

/// `a + b` clamped to `u64::MAX`.
pub open spec fn sat_add(a: int, b: int) -> int {
    if a + b > u64::MAX { u64::MAX as int } else { a + b }
}

/// `a - b` clamped to zero.
pub open spec fn sat_sub(a: int, b: int) -> int {
    if a - b < 0 { 0 } else { a - b }
}

pub open spec fn max_int(a: int, b: int) -> int {
    if a >= b { a } else { b }
}

/// Number of significant bits of `v` (0 for 0).
pub open spec fn bit_len(v: nat) -> nat
    decreases v,
{
    if v == 0 { 0 } else { 1 + bit_len(v / 2) }
}

/// Largest value that falls into bucket `index`.
pub open spec fn bucket_bound(index: int) -> u64 {
    if index == 0 {
        0
    } else if 1 <= index <= 63 {
        (pow2(index as nat) - 1) as u64
    } else {
        u64::MAX
    }
}

proof fn lemma_bit_len_bounds(v: nat, k: nat)
    requires
        v < pow2(k),
    ensures
        bit_len(v) <= k,
    decreases v,
{
    if v > 0 {
        if k == 0 {
            assert(pow2(0) == 1) by {
                vstd::arithmetic::power2::lemma2_to64();
            }
        } else {
            vstd::arithmetic::power2::lemma_pow2_unfold(k);
            lemma_bit_len_bounds(v / 2, (k - 1) as nat);
        }
    }
}

/// Bucket that `value` is counted in.
fn bucket_index(value: u64) -> (r: usize)
    ensures
        r == bit_len(value as nat),
        r < HISTOGRAM_BUCKETS,
{
    proof {
        vstd::arithmetic::power2::lemma2_to64();
        lemma_bit_len_bounds(value as nat, 64);
    }
    let mut rest = value;
    let mut bits: usize = 0;
    while rest != 0
        invariant
            bits + bit_len(rest as nat) == bit_len(value as nat),
            bit_len(value as nat) <= 64,
        decreases rest,
    {
        rest = rest / 2;
        bits = bits + 1;
    }
    bits
}

fn bucket_upper_bound(index: usize) -> (r: u64)
    ensures
        r == bucket_bound(index as int),
{
    if index == 0 {
        0
    } else if index <= 63 {
        proof {
            vstd::bits::lemma_u64_pow2_no_overflow(index as nat);
            vstd::bits::lemma_u64_shl_is_mul(1, index as u64);
        }
        (1u64 << (index as u64)) - 1
    } else {
        u64::MAX
    }
}

#[derive(Clone, Copy)]
pub struct AtomicGauge {
    current: u64,
    peak: u64,
}

#[derive(Clone, Copy, Debug, PartialEq, Eq, Structural)]
pub struct GaugeSnapshot {
    pub current: u64,
    pub peak: u64,
}

impl AtomicGauge {
    /// The peak never falls below the current value.
    #[verifier::type_invariant]
    spec fn peak_bounds_current(self) -> bool {
        self.current <= self.peak
    }

    pub closed spec fn current(&self) -> u64 {
        self.current
    }

    pub closed spec fn peak(&self) -> u64 {
        self.peak
    }

    pub fn new() -> (g: Self)
        ensures
            g.current() == 0,
            g.peak() == 0,
    {
        AtomicGauge { current: 0, peak: 0 }
    }

    /// Raises the current value by `value`, saturating, and folds it into the peak.
    pub fn add(&mut self, value: u64)
        ensures
            final(self).current() == sat_add(old(self).current() as int, value as int),
            final(self).peak() == max_int(
                old(self).peak() as int,
                sat_add(old(self).current() as int, value as int),
            ),
    {
        proof {
            use_type_invariant(&*self);
        }
        let next = self.current.saturating_add(value);
        let peak = if self.peak >= next { self.peak } else { next };
        self.peak = peak;
        self.current = next;
    }

    /// Lowers the current value by `value`, stopping at zero; the peak is kept.
    pub fn subtract(&mut self, value: u64)
        ensures
            final(self).current() == sat_sub(old(self).current() as int, value as int),
            final(self).peak() == old(self).peak(),
    {
        proof {
            use_type_invariant(&*self);
        }
        self.current = self.current.saturating_sub(value);
    }

    pub fn snapshot(&self) -> (s: GaugeSnapshot)
        ensures
            s.current == self.current(),
            s.peak == self.peak(),
            s.current <= s.peak,
    {
        proof {
            use_type_invariant(self);
        }
        GaugeSnapshot { current: self.current, peak: self.peak }
    }
}

pub struct AtomicHistogram {
    buckets: [u64; 65],
    count: u64,
    sum: u64,
    max: u64,
}

#[derive(Clone, Copy, Debug, PartialEq, Eq)]
pub struct HistogramSnapshot {
    pub buckets: [u64; 65],
    pub count: u64,
    pub sum: u64,
    pub max: u64,
}

impl AtomicHistogram {
    pub closed spec fn buckets(&self) -> Seq<u64> {
        self.buckets@
    }

    pub closed spec fn buckets_array(&self) -> [u64; 65] {
        self.buckets
    }

    pub closed spec fn count(&self) -> u64 {
        self.count
    }

    pub closed spec fn sum(&self) -> u64 {
        self.sum
    }

    pub closed spec fn max(&self) -> u64 {
        self.max
    }

    pub fn new() -> (h: Self)
        ensures
            h.buckets() == Seq::new(65, |i: int| 0u64),
            h.count() == 0,
            h.sum() == 0,
            h.max() == 0,
    {
        let h = AtomicHistogram { buckets: [0u64; 65], count: 0, sum: 0, max: 0 };
        assert(h.buckets@ =~= Seq::new(65, |i: int| 0u64));
        h
    }

    /// Counts `value` in its bucket and in the running count, sum and maximum.
    pub fn record(&mut self, value: u64)
        ensures
            final(self).buckets() == old(self).buckets().update(
                bit_len(value as nat) as int,
                sat_add(old(self).buckets()[bit_len(value as nat) as int] as int, 1) as u64,
            ),
            final(self).count() == sat_add(old(self).count() as int, 1),
            final(self).sum() == sat_add(old(self).sum() as int, value as int),
            final(self).max() == max_int(old(self).max() as int, value as int),
    {
        let index = bucket_index(value);
        let bucket = self.buckets[index].saturating_add(1);
        self.buckets[index] = bucket;
        self.count = self.count.saturating_add(1);
        self.sum = self.sum.saturating_add(value);
        if value > self.max {
            self.max = value;
        }
    }

    pub fn snapshot(&self) -> (s: HistogramSnapshot)
        ensures
            s.buckets == self.buckets_array(),
            s.buckets@ == self.buckets(),
            s.count == self.count(),
            s.sum == self.sum(),
            s.max == self.max(),
    {
        HistogramSnapshot { buckets: self.buckets, count: self.count, sum: self.sum, max: self.max }
    }
}

/// Sum of the first `n` entries of `b`.
pub open spec fn prefix_sum(b: Seq<u64>, n: int) -> int
    decreases n,
{
    if n <= 0 { 0 } else { prefix_sum(b, n - 1) + b[n - 1] }
}

/// Sum of the first `n` buckets, clamped to `u64::MAX` as the scan accumulates it.
pub open spec fn clamped_prefix(b: Seq<u64>, n: int) -> int {
    if prefix_sum(b, n) > u64::MAX { u64::MAX as int } else { prefix_sum(b, n) }
}

/// Clamped count of samples in buckets `0..=i`.
pub open spec fn through_bucket(b: Seq<u64>, i: int) -> int {
    clamped_prefix(b, i + 1)
}

/// One-based rank of the requested fraction of `count` samples, rounded up, at least 1.
pub open spec fn percentile_rank(count: int, numerator: int, denominator: int) -> int {
    let r = (count * numerator + denominator - 1) / denominator;
    if r < 1 { 1 } else { r }
}

/// Whether bucket `i` is the first whose cumulative count reaches `rank`.
pub open spec fn first_reaching(b: Seq<u64>, rank: int, i: int) -> bool {
    &&& 0 <= i < b.len()
    &&& through_bucket(b, i) >= rank
    &&& forall|j: int| 0 <= j < i ==> #[trigger] through_bucket(b, j) < rank
}

/// Bound of the first bucket whose cumulative count reaches `rank`, or `max`
/// when the buckets never reach it.
pub open spec fn percentile_value(b: Seq<u64>, rank: int, max: u64) -> u64 {
    if exists|i: int| first_reaching(b, rank, i) {
        bucket_bound(choose|i: int| first_reaching(b, rank, i))
    } else {
        max
    }
}

proof fn lemma_first_reaching_unique(b: Seq<u64>, rank: int, i: int, j: int)
    requires
        first_reaching(b, rank, i),
        first_reaching(b, rank, j),
    ensures
        i == j,
{
    if i < j {
        assert(through_bucket(b, i) < rank);
    } else if j < i {
        assert(through_bucket(b, j) < rank);
    }
}

proof fn lemma_prefix_nonneg_monotone(b: Seq<u64>, i: int, j: int)
    requires
        0 <= i <= j,
    ensures
        0 <= prefix_sum(b, i) <= prefix_sum(b, j),
    decreases j,
{
    if j > 0 {
        lemma_prefix_nonneg_monotone(b, if i < j { i } else { j - 1 }, j - 1);
    }
}

impl HistogramSnapshot {
    /// The bucket bound at which `numerator / denominator` of the samples have been
    /// seen; `None` for an empty histogram or a fraction outside `[0, 1]`.
    pub fn percentile(&self, numerator: u64, denominator: u64) -> (r: Option<u64>)
        ensures
            (self.count == 0 || denominator == 0 || numerator > denominator) ==> r is None,
            !(self.count == 0 || denominator == 0 || numerator > denominator) ==> r == Some(
                percentile_value(
                    self.buckets@,
                    percentile_rank(self.count as int, numerator as int, denominator as int),
                    self.max,
                ),
            ),
    {
        if self.count == 0 || denominator == 0 || numerator > denominator {
            return None;
        }
        let count = self.count as u128;
        let num = numerator as u128;
        let den = denominator as u128;
        proof {
            assert(count * num <= 0xffff_ffff_ffff_ffffu128 * 0xffff_ffff_ffff_ffffu128)
                by (nonlinear_arith)
                requires
                    count <= 0xffff_ffff_ffff_ffffu128,
                    num <= 0xffff_ffff_ffff_ffffu128,
            ;
        }
        let scaled = count * num + den - 1;
        let raw = scaled / den;
        let rank = if raw < 1 { 1 } else { raw };
        let ghost grank = percentile_rank(self.count as int, numerator as int, denominator as int);
        assert(rank == grank);
        let mut seen: u64 = 0;
        let mut index: usize = 0;
        while index < HISTOGRAM_BUCKETS
            invariant
                0 <= index <= 65,
                self.buckets@.len() == 65,
                !(self.count == 0 || denominator == 0 || numerator > denominator),
                seen == clamped_prefix(self.buckets@, index as int),
                rank == grank,
                grank == percentile_rank(self.count as int, numerator as int, denominator as int),
                forall|j: int| 0 <= j < index ==> #[trigger] through_bucket(self.buckets@, j) < grank,
            decreases 65 - index,
        {
            proof {
                lemma_prefix_nonneg_monotone(self.buckets@, index as int, index as int + 1);
                lemma_prefix_nonneg_monotone(self.buckets@, 0, index as int);
            }
            seen = seen.saturating_add(self.buckets[index]);
            assert(seen == through_bucket(self.buckets@, index as int));
            if seen as u128 >= rank {
                let bound = bucket_upper_bound(index);
                assert(first_reaching(self.buckets@, grank, index as int));
                proof {
                    let c = choose|i: int| first_reaching(self.buckets@, grank, i);
                    lemma_first_reaching_unique(self.buckets@, grank, c, index as int);
                    assert(percentile_value(self.buckets@, grank, self.max) == bound);
                }
                return Some(bound);
            }
            index = index + 1;
        }
        proof {
            assert forall|i: int| !first_reaching(self.buckets@, grank, i) by {
                if 0 <= i < 65 {
                    assert(through_bucket(self.buckets@, i) < grank);
                }
            }
        }
        Some(self.max)
    }

    /// Integer mean of the recorded samples, `None` when nothing was recorded.
    pub fn mean(&self) -> (r: Option<u64>)
        ensures
            self.count == 0 ==> r is None,
            self.count != 0 ==> r == Some((self.sum / self.count) as u64),
    {
        if self.count != 0 {
            Some(self.sum / self.count)
        } else {
            None
        }
    }
}

impl Default for AtomicGauge {
    fn default() -> (g: Self)
        ensures
            g.current() == 0,
            g.peak() == 0,
    {
        AtomicGauge::new()
    }
}

impl Default for AtomicHistogram {
    fn default() -> (h: Self)
        ensures
            h.buckets() == Seq::new(65, |i: int| 0u64),
            h.count() == 0,
            h.sum() == 0,
            h.max() == 0,
    {
        AtomicHistogram::new()
    }
}

} // verus!
