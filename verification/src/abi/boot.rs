//! Boot hand-off record and the memory-map transformation that returns loader
//! pages to the allocator.

use vstd::prelude::*;

verus! {

/// `MNUBOOT\0` read as a little-endian `u64`.
pub const BOOT_ABI_MAGIC: u64 = 0x0054_4f4f_4255_4e4d;
pub const BOOT_ABI_VERSION: u32 = 1;
pub const MAX_CPU_IDS: usize = 64;
pub const MAX_BOOT_MEMORY_REGIONS: usize = 256;
/// Size in bytes of the C layout of [`BootInfo`] that the loader writes.
pub const BOOT_INFO_SIZE: u32 = 488;
/// Size in bytes of the C layout of one [`MemoryRegion`] entry.
pub const MEMORY_REGION_SIZE: u32 = 24;

pub const BOOT_FEATURE_FRAMEBUFFER: u64 = 1;
pub const BOOT_FEATURE_INITFS: u64 = 2;
pub const BOOT_FEATURE_ROOTFS_IMAGE: u64 = 4;
pub const BOOT_FEATURE_SMP: u64 = 8;
pub const BOOT_FEATURE_ENTROPY: u64 = 16;
pub const BOOT_FEATURE_HYPERVISOR_DOMAIN: u64 = 32;

#[derive(Debug, Clone, Copy, PartialEq, Eq, Structural)]
pub enum BootInfoError {
    InvalidMagic,
    UnsupportedVersion,
    InvalidStructSize,
    InvalidMemoryMapEntrySize,
    InvalidCpuCount,
}

/// Words the loader and the application processors exchange while the
/// secondary CPUs start.
#[derive(Debug, Clone, Copy, PartialEq, Eq, Structural)]
pub struct SmpHandoff {
    pub ready: u64,
    pub kernel_secondary_entry: u64,
    pub boot_info_ptr: u64,
    pub kernel_cr3: u64,
    pub ap_count: u64,
}

impl SmpHandoff {
    pub fn new() -> (h: Self)
        ensures
            h == (SmpHandoff {
                ready: 0,
                kernel_secondary_entry: 0,
                boot_info_ptr: 0,
                kernel_cr3: 0,
                ap_count: 0,
            }),
    {
        SmpHandoff { ready: 0, kernel_secondary_entry: 0, boot_info_ptr: 0, kernel_cr3: 0, ap_count: 0 }
    }
}

#[derive(Debug, Clone, Copy, PartialEq, Eq, Structural)]
pub enum MemoryType {
    Usable,
    Reserved,
    AcpiReclaimable,
    AcpiNvs,
    BadMemory,
    BootloaderReclaimable,
    KernelStack,
    PageTable,
    Framebuffer,
}

#[derive(Debug, Clone, Copy, PartialEq, Eq, Structural)]
pub struct MemoryRegion {
    pub start: u64,
    pub len: u64,
    pub region_type: MemoryType,
}

#[derive(Debug, Clone, Copy, PartialEq, Eq, Structural)]
pub struct PhysicalRange {
    pub start: u64,
    pub len: u64,
}

#[derive(Debug, Clone, Copy, PartialEq, Eq, Structural)]
pub enum MemoryMapTransformError {
    InvalidMemoryRegion,
    InvalidReservedRange,
    OutputTooSmall,
}

pub open spec fn page_aligned(v: int) -> bool {
    v % 4096 == 0
}

/// A reserved range is usable when it is non-empty, page aligned and does not wrap.
pub open spec fn valid_reserved(r: PhysicalRange) -> bool {
    &&& r.len != 0
    &&& page_aligned(r.start as int)
    &&& page_aligned(r.len as int)
    &&& r.start + r.len <= u64::MAX
}

/// Region ready to be appended with `start`, `len` and `t`.
pub open spec fn mk_region(start: int, len: int, t: MemoryType) -> MemoryRegion {
    MemoryRegion { start: start as u64, len: len as u64, region_type: t }
}

/// Appending `r` to the map built so far: empty regions vanish, a region that
/// continues the last one with the same type extends it, others take a new slot.
pub open spec fn append_region(out: Seq<MemoryRegion>, r: MemoryRegion, cap: int) -> Result<
    Seq<MemoryRegion>,
    MemoryMapTransformError,
> {
    if r.len == 0 {
        Ok(out)
    } else if out.len() != 0 && out.last().start + out.last().len > u64::MAX {
        Err(MemoryMapTransformError::InvalidMemoryRegion)
    } else if out.len() != 0 && out.last().start + out.last().len == r.start
        && out.last().region_type == r.region_type {
        if out.last().len + r.len > u64::MAX {
            Err(MemoryMapTransformError::InvalidMemoryRegion)
        } else {
            Ok(out.update(out.len() - 1, mk_region(out.last().start as int, out.last().len + r.len, r.region_type)))
        }
    } else if out.len() >= cap {
        Err(MemoryMapTransformError::OutputTooSmall)
    } else {
        Ok(out.push(r))
    }
}

/// Appends every region of `rs` in order, stopping at the first error.
pub open spec fn append_all(out: Seq<MemoryRegion>, rs: Seq<MemoryRegion>, cap: int) -> Result<
    Seq<MemoryRegion>,
    MemoryMapTransformError,
>
    decreases rs.len(),
{
    if rs.len() == 0 {
        Ok(out)
    } else {
        match append_region(out, rs[0], cap) {
            Ok(next) => append_all(next, rs.drop_first(), cap),
            Err(e) => Err(e),
        }
    }
}

/// Part of `r` that lies inside `[cursor, end)`, as a half-open pair.
pub open spec fn overlap(r: PhysicalRange, cursor: int, end: int) -> (int, int) {
    (
        if r.start >= cursor { r.start as int } else { cursor },
        if r.start + r.len <= end { r.start + r.len } else { end },
    )
}

/// Earliest reserved overlap with `[cursor, end)` among the first `k` ranges;
/// overlaps that start together are widened to the furthest end.
pub open spec fn next_reserved(cursor: int, end: int, reserved: Seq<PhysicalRange>, k: int) -> Option<
    (int, int),
>
    decreases k,
{
    if k <= 0 {
        None
    } else {
        let prev = next_reserved(cursor, end, reserved, k - 1);
        let (s, e) = overlap(reserved[k - 1], cursor, end);
        if s >= e {
            prev
        } else {
            match prev {
                Some((bs, be)) => if bs < s {
                    prev
                } else if bs == s {
                    Some((bs, if be >= e { be } else { e }))
                } else {
                    Some((s, e))
                },
                None => Some((s, e)),
            }
        }
    }
}

pub proof fn lemma_next_reserved_bounds(cursor: int, end: int, reserved: Seq<PhysicalRange>, k: int)
    ensures
        next_reserved(cursor, end, reserved, k) matches Some((s, e)) ==> cursor <= s < e <= end,
    decreases k,
{
    if k > 0 {
        lemma_next_reserved_bounds(cursor, end, reserved, k - 1);
    }
}

/// Pieces that a reclaimable range `[cursor, end)` becomes: gaps between
/// reserved ranges turn `Usable`, the reserved parts turn `Reserved`.
pub open spec fn reclaim_pieces(cursor: int, end: int, reserved: Seq<PhysicalRange>) -> Seq<
    MemoryRegion,
>
    decreases end - cursor,
{
    if cursor >= end {
        Seq::empty()
    } else {
        match next_reserved(cursor, end, reserved, reserved.len() as int) {
            None => seq![mk_region(cursor, end - cursor, MemoryType::Usable)],
            Some((s, e)) => {
                proof {
                    lemma_next_reserved_bounds(cursor, end, reserved, reserved.len() as int);
                }
                let gap = if cursor < s {
                    seq![mk_region(cursor, s - cursor, MemoryType::Usable)]
                } else {
                    Seq::empty()
                };
                gap + seq![mk_region(s, e - s, MemoryType::Reserved)] + reclaim_pieces(e, end, reserved)
            },
        }
    }
}

/// Effect of one input region on the map built so far.
pub open spec fn transform_region(
    out: Seq<MemoryRegion>,
    r: MemoryRegion,
    reserved: Seq<PhysicalRange>,
    cap: int,
) -> Result<Seq<MemoryRegion>, MemoryMapTransformError> {
    if r.start + r.len > u64::MAX {
        Err(MemoryMapTransformError::InvalidMemoryRegion)
    } else if r.region_type != MemoryType::BootloaderReclaimable {
        append_region(out, r, cap)
    } else if !page_aligned(r.start as int) || !page_aligned(r.len as int) {
        Err(MemoryMapTransformError::InvalidMemoryRegion)
    } else {
        append_all(out, reclaim_pieces(r.start as int, r.start + r.len, reserved), cap)
    }
}

/// Map built from the first `n` input regions.
pub open spec fn transform_prefix(
    input: Seq<MemoryRegion>,
    n: int,
    reserved: Seq<PhysicalRange>,
    cap: int,
) -> Result<Seq<MemoryRegion>, MemoryMapTransformError>
    decreases n,
{
    if n <= 0 {
        Ok(Seq::empty())
    } else {
        match transform_prefix(input, n - 1, reserved, cap) {
            Ok(out) => transform_region(out, input[n - 1], reserved, cap),
            Err(e) => Err(e),
        }
    }
}

/// The reclaimed memory map of `input` with `reserved` kept out, written into
/// at most `cap` entries.
pub open spec fn reclaimed_map(
    input: Seq<MemoryRegion>,
    reserved: Seq<PhysicalRange>,
    cap: int,
) -> Result<Seq<MemoryRegion>, MemoryMapTransformError> {
    if exists|i: int| 0 <= i < reserved.len() && !valid_reserved(#[trigger] reserved[i]) {
        Err(MemoryMapTransformError::InvalidReservedRange)
    } else {
        transform_prefix(input, input.len() as int, reserved, cap)
    }
}

/// The shape every reclaimed map has: no empty region, none still
/// reclaimable, and no two neighbours that one region of their type could
/// cover.
pub open spec fn map_shaped(m: Seq<MemoryRegion>) -> bool {
    &&& forall|i: int| 0 <= i < m.len() ==> #[trigger] m[i].len > 0
    &&& forall|i: int| 0 <= i < m.len() ==> #[trigger] m[i].region_type != MemoryType::BootloaderReclaimable
    &&& forall|i: int| 0 <= i < m.len() - 1 ==> !(#[trigger] m[i].start + m[i].len == m[i + 1].start
        && m[i].region_type == m[i + 1].region_type)
}

proof fn lemma_append_region_shaped(out: Seq<MemoryRegion>, r: MemoryRegion, cap: int)
    requires
        map_shaped(out),
        r.region_type != MemoryType::BootloaderReclaimable,
    ensures
        append_region(out, r, cap) matches Ok(o) ==> map_shaped(o),
{
    if r.len != 0 && out.len() != 0 && out.last().start + out.last().len <= u64::MAX
        && out.last().start + out.last().len == r.start && out.last().region_type == r.region_type
        && out.last().len + r.len <= u64::MAX {
        let o = out.update(out.len() - 1, mk_region(out.last().start as int, out.last().len + r.len, r.region_type));
        assert forall|i: int| 0 <= i < o.len() - 1 implies !(#[trigger] o[i].start + o[i].len == o[i + 1].start
            && o[i].region_type == o[i + 1].region_type) by {
            assert(o[i] == out[i]);
        }
        assert(map_shaped(o));
    } else if r.len != 0 && (out.len() == 0 || out.last().start + out.last().len <= u64::MAX) && out.len() < cap
        && !(out.len() != 0 && out.last().start + out.last().len == r.start && out.last().region_type == r.region_type) {
        let o = out.push(r);
        assert forall|i: int| 0 <= i < o.len() - 1 implies !(#[trigger] o[i].start + o[i].len == o[i + 1].start
            && o[i].region_type == o[i + 1].region_type) by {
            if i < out.len() - 1 {
                assert(o[i] == out[i] && o[i + 1] == out[i + 1]);
            } else {
                assert(o[i] == out.last() && o[i + 1] == r);
            }
        }
        assert(map_shaped(o));
    }
}

proof fn lemma_append_all_shaped(out: Seq<MemoryRegion>, rs: Seq<MemoryRegion>, cap: int)
    requires
        map_shaped(out),
        forall|i: int| 0 <= i < rs.len() ==> #[trigger] rs[i].region_type != MemoryType::BootloaderReclaimable,
    ensures
        append_all(out, rs, cap) matches Ok(o) ==> map_shaped(o),
    decreases rs.len(),
{
    if rs.len() > 0 {
        lemma_append_region_shaped(out, rs[0], cap);
        if let Ok(next) = append_region(out, rs[0], cap) {
            assert forall|i: int| 0 <= i < rs.drop_first().len() implies #[trigger] rs.drop_first()[i].region_type
                != MemoryType::BootloaderReclaimable by {
                assert(rs.drop_first()[i] == rs[i + 1]);
            }
            lemma_append_all_shaped(next, rs.drop_first(), cap);
        }
    }
}

proof fn lemma_reclaim_pieces_kinds(cursor: int, end: int, reserved: Seq<PhysicalRange>)
    ensures
        forall|i: int| 0 <= i < reclaim_pieces(cursor, end, reserved).len()
            ==> #[trigger] reclaim_pieces(cursor, end, reserved)[i].region_type != MemoryType::BootloaderReclaimable,
    decreases end - cursor,
{
    if cursor < end {
        lemma_next_reserved_bounds(cursor, end, reserved, reserved.len() as int);
        if let Some((s, e)) = next_reserved(cursor, end, reserved, reserved.len() as int) {
            lemma_reclaim_pieces_kinds(e, end, reserved);
        }
    }
}

proof fn lemma_transform_prefix_shaped(input: Seq<MemoryRegion>, n: int, reserved: Seq<PhysicalRange>, cap: int)
    ensures
        transform_prefix(input, n, reserved, cap) matches Ok(o) ==> map_shaped(o),
    decreases n,
{
    if n > 0 {
        lemma_transform_prefix_shaped(input, n - 1, reserved, cap);
        if let Ok(out) = transform_prefix(input, n - 1, reserved, cap) {
            let r = input[n - 1];
            if r.region_type != MemoryType::BootloaderReclaimable {
                lemma_append_region_shaped(out, r, cap);
            } else {
                lemma_reclaim_pieces_kinds(r.start as int, r.start + r.len, reserved);
                lemma_append_all_shaped(out, reclaim_pieces(r.start as int, r.start + r.len, reserved), cap);
            }
        }
    }
}

/// Whether address `a` lies in reserved range `r`.
pub open spec fn in_range(r: PhysicalRange, a: int) -> bool {
    r.start <= a < r.start + r.len
}

/// Whether address `a` lies in none of the first `k` reserved ranges.
pub open spec fn free_of(reserved: Seq<PhysicalRange>, k: int, a: int) -> bool {
    forall|j: int| 0 <= j < k ==> !in_range(#[trigger] reserved[j], a)
}

/// Whether one of the first `k` reserved ranges covers all of `[s, e)`.
pub open spec fn covered_by(reserved: Seq<PhysicalRange>, k: int, s: int, e: int) -> bool {
    exists|j: int| 0 <= j < k && #[trigger] reserved[j].start <= s && e <= reserved[j].start + reserved[j].len
}

proof fn lemma_next_reserved_covers(cursor: int, end: int, reserved: Seq<PhysicalRange>, k: int)
    requires
        0 <= k <= reserved.len(),
    ensures
        next_reserved(cursor, end, reserved, k) is None
            ==> forall|a: int| cursor <= a < end ==> #[trigger] free_of(reserved, k, a),
        next_reserved(cursor, end, reserved, k) matches Some((s, e)) ==> {
            &&& forall|a: int| cursor <= a < s ==> #[trigger] free_of(reserved, k, a)
            &&& covered_by(reserved, k, s, e)
        },
    decreases k,
{
    if k > 0 {
        lemma_next_reserved_covers(cursor, end, reserved, k - 1);
        let prev = next_reserved(cursor, end, reserved, k - 1);
        let r = reserved[k - 1];
        let (os, oe) = overlap(r, cursor, end);
        let next = next_reserved(cursor, end, reserved, k);
        lemma_next_reserved_bounds(cursor, end, reserved, k);
        lemma_next_reserved_bounds(cursor, end, reserved, k - 1);
        if let Some((ns, ne)) = next {
            assert forall|a: int| cursor <= a < ns implies #[trigger] free_of(reserved, k, a) by {
                assert(free_of(reserved, k - 1, a)) by {
                    match prev {
                        None => {},
                        Some((bs, be)) => { assert(a < bs); },
                    }
                }
                assert forall|j: int| 0 <= j < k implies !in_range(#[trigger] reserved[j], a) by {
                    if j < k - 1 {
                        assert(!in_range(reserved[j], a));
                    }
                }
            }
        } else {
            assert forall|a: int| cursor <= a < end implies #[trigger] free_of(reserved, k, a) by {
                assert(free_of(reserved, k - 1, a));
                assert forall|j: int| 0 <= j < k implies !in_range(#[trigger] reserved[j], a) by {
                    if j < k - 1 {
                        assert(!in_range(reserved[j], a));
                    }
                }
            }
        }
        if os < oe {
            assert(r.start <= os && oe <= r.start + r.len);
            match prev {
                None => {
                    assert(covered_by(reserved, k, os, oe));
                },
                Some((bs, be)) => {
                    assert(covered_by(reserved, k - 1, bs, be));
                    let j = choose|j: int| 0 <= j < k - 1 && #[trigger] reserved[j].start <= bs && be <= reserved[j].start + reserved[j].len;
                    if bs < os {
                        assert(covered_by(reserved, k, bs, be)) by { assert(reserved[j].start <= bs); }
                    } else if bs == os {
                        if be >= oe {
                            assert(covered_by(reserved, k, bs, be)) by { assert(reserved[j].start <= bs); }
                        } else {
                            assert(covered_by(reserved, k, bs, oe)) by { assert(reserved[k - 1].start <= bs); }
                        }
                    } else {
                        assert(covered_by(reserved, k, os, oe)) by { assert(reserved[k - 1].start <= os); }
                    }
                },
            }
        } else {
            if let Some((bs, be)) = prev {
                let j = choose|j: int| 0 <= j < k - 1 && #[trigger] reserved[j].start <= bs && be <= reserved[j].start + reserved[j].len;
                assert(covered_by(reserved, k, bs, be)) by { assert(reserved[j].start <= bs); }
            }
        }
    }
}

/// What a reclaimable range `[cursor, end)` becomes: pieces inside it, each
/// `Usable` piece free of every reserved range, each `Reserved` piece inside
/// one reserved range.
pub proof fn lemma_reclaim_pieces_respect_reserved(cursor: int, end: int, reserved: Seq<PhysicalRange>)
    requires
        0 <= cursor <= end <= u64::MAX,
    ensures
        forall|i: int| 0 <= i < reclaim_pieces(cursor, end, reserved).len() ==> {
            let p = #[trigger] reclaim_pieces(cursor, end, reserved)[i];
            &&& cursor <= p.start && p.start + p.len <= end
            &&& p.region_type == MemoryType::Usable ==> forall|a: int| p.start <= a < p.start + p.len
                ==> #[trigger] free_of(reserved, reserved.len() as int, a)
            &&& p.region_type == MemoryType::Reserved ==> covered_by(reserved, reserved.len() as int, p.start as int, p.start + p.len)
        },
    decreases end - cursor,
{
    if cursor < end {
        let n = reserved.len() as int;
        lemma_next_reserved_bounds(cursor, end, reserved, n);
        lemma_next_reserved_covers(cursor, end, reserved, n);
        match next_reserved(cursor, end, reserved, n) {
            None => {},
            Some((s, e)) => {
                lemma_reclaim_pieces_respect_reserved(e, end, reserved);
                let gap: Seq<MemoryRegion> = if cursor < s {
                    seq![mk_region(cursor, s - cursor, MemoryType::Usable)]
                } else {
                    Seq::empty()
                };
                let head = gap + seq![mk_region(s, e - s, MemoryType::Reserved)];
                let rest = reclaim_pieces(e, end, reserved);
                assert(reclaim_pieces(cursor, end, reserved) == head + rest);
                assert forall|i: int| 0 <= i < reclaim_pieces(cursor, end, reserved).len() implies {
                    let p = #[trigger] reclaim_pieces(cursor, end, reserved)[i];
                    &&& cursor <= p.start && p.start + p.len <= end
                    &&& p.region_type == MemoryType::Usable ==> forall|a: int| p.start <= a < p.start + p.len
                        ==> #[trigger] free_of(reserved, reserved.len() as int, a)
                    &&& p.region_type == MemoryType::Reserved ==> covered_by(reserved, reserved.len() as int, p.start as int, p.start + p.len)
                } by {
                    if i >= head.len() {
                        assert(reclaim_pieces(cursor, end, reserved)[i] == rest[i - head.len()]);
                    }
                }
            },
        }
    }
}

/// Every reclaimed map is well shaped: each region is nonempty, none is
/// still bootloader-reclaimable, and neighbours that meet differ in type.
pub proof fn lemma_reclaimed_map_shaped(input: Seq<MemoryRegion>, reserved: Seq<PhysicalRange>, cap: int)
    ensures
        reclaimed_map(input, reserved, cap) matches Ok(m) ==> map_shaped(m),
{
    lemma_transform_prefix_shaped(input, input.len() as int, reserved, cap);
}

proof fn lemma_append_all_concat(
    out: Seq<MemoryRegion>,
    a: Seq<MemoryRegion>,
    b: Seq<MemoryRegion>,
    cap: int,
)
    ensures
        append_all(out, a + b, cap) == match append_all(out, a, cap) {
            Ok(o) => append_all(o, b, cap),
            Err(e) => Err(e),
        },
    decreases a.len(),
{
    if a.len() == 0 {
        assert(a + b =~= b);
    } else {
        assert((a + b).drop_first() =~= a.drop_first() + b);
        assert((a + b)[0] == a[0]);
        match append_region(out, a[0], cap) {
            Ok(next) => lemma_append_all_concat(next, a.drop_first(), b, cap),
            Err(e) => {},
        }
    }
}

proof fn lemma_append_all_single(out: Seq<MemoryRegion>, x: MemoryRegion, cap: int)
    ensures
        append_all(out, seq![x], cap) == append_region(out, x, cap),
{
    assert(seq![x].drop_first() =~= Seq::<MemoryRegion>::empty());
    reveal_with_fuel(append_all, 2);
}

proof fn lemma_transform_prefix_err(
    input: Seq<MemoryRegion>,
    i: int,
    n: int,
    reserved: Seq<PhysicalRange>,
    cap: int,
    e: MemoryMapTransformError,
)
    requires
        0 <= i <= n,
        transform_prefix(input, i, reserved, cap) == Err::<Seq<MemoryRegion>, MemoryMapTransformError>(e),
    ensures
        transform_prefix(input, n, reserved, cap) == Err::<Seq<MemoryRegion>, MemoryMapTransformError>(e),
    decreases n - i,
{
    if n > i {
        lemma_transform_prefix_err(input, i, n - 1, reserved, cap, e);
    }
}

/// The pair in `o` read as mathematical integers.
pub open spec fn widen_pair(o: Option<(u64, u64)>) -> Option<(int, int)> {
    match o {
        Some((a, b)) => Some((a as int, b as int)),
        None => None,
    }
}

fn append_memory_region(
    output: &mut [MemoryRegion],
    output_len: &mut usize,
    region: MemoryRegion,
) -> (r: Result<(), MemoryMapTransformError>)
    requires
        *old(output_len) <= old(output)@.len(),
    ensures
        final(output)@.len() == old(output)@.len(),
        *old(output_len) <= *final(output_len),
        forall|j: int| *final(output_len) <= j < old(output)@.len() ==> final(output)@[j] == old(output)@[j],
        match append_region(old(output)@.take(*old(output_len) as int), region, old(output)@.len() as int) {
            Ok(o) => r is Ok && *final(output_len) == o.len() && final(output)@.take(
                *final(output_len) as int,
            ) == o,
            Err(e) => r == Err::<(), MemoryMapTransformError>(e),
        },
{
    let ghost out = output@.take(*output_len as int);
    if region.len == 0 {
        return Ok(());
    }
    if *output_len != 0 {
        let last = *output_len - 1;
        let previous = output[last];
        let previous_end = match previous.start.checked_add(previous.len) {
            Some(e) => e,
            None => return Err(MemoryMapTransformError::InvalidMemoryRegion),
        };
        if previous_end == region.start && previous.region_type == region.region_type {
            let merged = match previous.len.checked_add(region.len) {
                Some(l) => l,
                None => return Err(MemoryMapTransformError::InvalidMemoryRegion),
            };
            output[last] = MemoryRegion {
                start: previous.start,
                len: merged,
                region_type: previous.region_type,
            };
            assert(output@.take(*output_len as int) =~= out.update(out.len() - 1, mk_region(out.last().start as int, out.last().len + region.len, region.region_type)));
            return Ok(());
        }
    }
    if *output_len >= output.len() {
        return Err(MemoryMapTransformError::OutputTooSmall);
    }
    output[*output_len] = region;
    *output_len = *output_len + 1;
    assert(output@.take(*output_len as int) =~= out.push(region));
    Ok(())
}

fn next_reserved_range(cursor: u64, region_end: u64, reserved: &[PhysicalRange]) -> (r: Option<
    (u64, u64),
>)
    requires
        forall|i: int| 0 <= i < reserved@.len() ==> #[trigger] reserved@[i].start + reserved@[i].len <= u64::MAX,
    ensures
        next_reserved(cursor as int, region_end as int, reserved@, reserved@.len() as int)
            == widen_pair(r),
{
    let mut next: Option<(u64, u64)> = None;
    let mut k: usize = 0;
    while k < reserved.len()
        invariant
            k <= reserved@.len(),
            forall|i: int| 0 <= i < reserved@.len() ==> #[trigger] reserved@[i].start + reserved@[i].len <= u64::MAX,
            next_reserved(cursor as int, region_end as int, reserved@, k as int) == widen_pair(next),
        decreases reserved@.len() - k,
    {
        let range = reserved[k];
        let overlap_start = if range.start >= cursor { range.start } else { cursor };
        let range_end = range.start + range.len;
        let overlap_end = if range_end <= region_end { range_end } else { region_end };
        if overlap_start < overlap_end {
            match next {
                Some((best_start, best_end)) => {
                    if best_start < overlap_start {
                    } else if best_start == overlap_start {
                        next = Some((best_start, if best_end >= overlap_end { best_end } else { overlap_end }));
                    } else {
                        next = Some((overlap_start, overlap_end));
                    }
                },
                None => {
                    next = Some((overlap_start, overlap_end));
                },
            }
        }
        k = k + 1;
    }
    next
}

/// Rewrites `input` into `output`, turning every `BootloaderReclaimable` page
/// that no `reserved` range covers into `Usable` memory and the covered pages into
/// `Reserved`; adjacent regions of one type are merged. Returns the number of
/// entries written.
pub fn build_reclaimed_memory_map(
    input: &[MemoryRegion],
    reserved: &[PhysicalRange],
    output: &mut [MemoryRegion],
) -> (r: Result<usize, MemoryMapTransformError>)
    ensures
        final(output)@.len() == old(output)@.len(),
        r matches Ok(n) ==> n <= old(output)@.len(),
        match reclaimed_map(input@, reserved@, old(output)@.len() as int) {
            Ok(map) => r == Ok::<usize, MemoryMapTransformError>(map.len() as usize)
                && map.len() <= old(output)@.len()
                && final(output)@.take(map.len() as int) == map,
            Err(e) => r == Err::<usize, MemoryMapTransformError>(e),
        },
        r matches Ok(n) ==> final(output)@.skip(n as int) == old(output)@.skip(n as int),
        (exists|i: int| 0 <= i < reserved@.len() && !valid_reserved(#[trigger] reserved@[i]))
            ==> final(output)@ == old(output)@,
{
    let ghost cap = output@.len() as int;
    let mut k: usize = 0;
    while k < reserved.len()
        invariant
            k <= reserved@.len(),
            forall|i: int| 0 <= i < k ==> valid_reserved(#[trigger] reserved@[i]),
        decreases reserved@.len() - k,
    {
        let range = reserved[k];
        if range.len == 0 || range.start % 4096 != 0 || range.len % 4096 != 0
            || range.start.checked_add(range.len).is_none() {
            assert(!valid_reserved(reserved@[k as int]));
            return Err(MemoryMapTransformError::InvalidReservedRange);
        }
        k = k + 1;
    }
    assert(!exists|i: int| 0 <= i < reserved@.len() && !valid_reserved(#[trigger] reserved@[i]));
    let mut output_len: usize = 0;
    let mut i: usize = 0;
    assert(output@.take(0) =~= Seq::<MemoryRegion>::empty());
    while i < input.len()
        invariant
            i <= input@.len(),
            output@.len() == cap,
            cap == old(output)@.len(),
            output_len <= cap,
            forall|j: int| output_len <= j < cap ==> output@[j] == old(output)@[j],
            forall|j: int| 0 <= j < reserved@.len() ==> valid_reserved(#[trigger] reserved@[j]),
            transform_prefix(input@, i as int, reserved@, cap) == Ok::<
                Seq<MemoryRegion>,
                MemoryMapTransformError,
            >(output@.take(output_len as int)),
        decreases input@.len() - i,
    {
        let ghost before = output@.take(output_len as int);
        let region = input[i];
        let ghost target = transform_region(before, region, reserved@, cap);
        assert(transform_prefix(input@, i as int + 1, reserved@, cap) == target);
        let region_end = match region.start.checked_add(region.len) {
            Some(e) => e,
            None => {
                proof {
                    lemma_transform_prefix_err(input@, i as int + 1, input@.len() as int, reserved@, cap, MemoryMapTransformError::InvalidMemoryRegion);
                }
                return Err(MemoryMapTransformError::InvalidMemoryRegion);
            },
        };
        if region.region_type != MemoryType::BootloaderReclaimable {
            match append_memory_region(output, &mut output_len, region) {
                Ok(()) => {},
                Err(e) => {
                    proof {
                        lemma_transform_prefix_err(input@, i as int + 1, input@.len() as int, reserved@, cap, e);
                    }
                    return Err(e);
                },
            }
        } else {
            if region.start % 4096 != 0 || region.len % 4096 != 0 {
                proof {
                    lemma_transform_prefix_err(input@, i as int + 1, input@.len() as int, reserved@, cap, MemoryMapTransformError::InvalidMemoryRegion);
                }
                return Err(MemoryMapTransformError::InvalidMemoryRegion);
            }
            let mut cursor = region.start;
            while cursor < region_end
                invariant
                    region.start <= cursor <= region_end,
                    i < input@.len(),
                    region == input@[i as int],
                    transform_prefix(input@, i as int + 1, reserved@, cap) == target,
                    output@.len() == cap,
                    cap == old(output)@.len(),
                    output_len <= cap,
                    forall|j: int| output_len <= j < cap ==> output@[j] == old(output)@[j],
                    forall|j: int| 0 <= j < reserved@.len() ==> valid_reserved(#[trigger] reserved@[j]),
                    target == append_all(
                        output@.take(output_len as int),
                        reclaim_pieces(cursor as int, region_end as int, reserved@),
                        cap,
                    ),
                decreases region_end - cursor,
            {
                let ghost cur = output@.take(output_len as int);
                let next = next_reserved_range(cursor, region_end, reserved);
                proof {
                    lemma_next_reserved_bounds(cursor as int, region_end as int, reserved@, reserved@.len() as int);
                }
                match next {
                    None => {
                        let piece = MemoryRegion {
                            start: cursor,
                            len: region_end - cursor,
                            region_type: MemoryType::Usable,
                        };
                        proof {
                            lemma_append_all_single(cur, piece, cap);
                        }
                        match append_memory_region(output, &mut output_len, piece) {
                            Ok(()) => {},
                            Err(e) => {
                                proof {
                                    lemma_transform_prefix_err(input@, i as int + 1, input@.len() as int, reserved@, cap, e);
                                }
                                return Err(e);
                            },
                        }
                        proof {
                            assert(reclaim_pieces(region_end as int, region_end as int, reserved@) =~= Seq::<MemoryRegion>::empty());
                        }
                        cursor = region_end;
                    },
                    Some((reserved_start, reserved_end)) => {
                        let ghost gap: Seq<MemoryRegion> = if cursor < reserved_start {
                            seq![mk_region(cursor as int, reserved_start - cursor, MemoryType::Usable)]
                        } else {
                            Seq::empty()
                        };
                        let ghost res_piece = mk_region(reserved_start as int, reserved_end - reserved_start, MemoryType::Reserved);
                        let ghost rest = reclaim_pieces(reserved_end as int, region_end as int, reserved@);
                        assert(reclaim_pieces(cursor as int, region_end as int, reserved@) == gap + seq![res_piece] + rest);
                        proof {
                            lemma_append_all_concat(cur, gap + seq![res_piece], rest, cap);
                            lemma_append_all_concat(cur, gap, seq![res_piece], cap);
                        }
                        if cursor < reserved_start {
                            let piece = MemoryRegion {
                                start: cursor,
                                len: reserved_start - cursor,
                                region_type: MemoryType::Usable,
                            };
                            proof {
                                lemma_append_all_single(cur, piece, cap);
                            }
                            match append_memory_region(output, &mut output_len, piece) {
                                Ok(()) => {},
                                Err(e) => {
                                    proof {
                                        lemma_transform_prefix_err(input@, i as int + 1, input@.len() as int, reserved@, cap, e);
                                    }
                                    return Err(e);
                                },
                            }
                        } else {
                            assert(gap =~= Seq::<MemoryRegion>::empty());
                        }
                        let ghost mid = output@.take(output_len as int);
                        let piece = MemoryRegion {
                            start: reserved_start,
                            len: reserved_end - reserved_start,
                            region_type: MemoryType::Reserved,
                        };
                        proof {
                            lemma_append_all_single(mid, piece, cap);
                        }
                        match append_memory_region(output, &mut output_len, piece) {
                            Ok(()) => {},
                            Err(e) => {
                                proof {
                                    lemma_transform_prefix_err(input@, i as int + 1, input@.len() as int, reserved@, cap, e);
                                }
                                return Err(e);
                            },
                        }
                        cursor = reserved_end;
                    },
                }
            }
        }
        i = i + 1;
    }
    assert(output@.skip(output_len as int) =~= old(output)@.skip(output_len as int));
    Ok(output_len)
}

/// Fixed-layout boot information the loader hands to the kernel.
#[derive(Clone, Copy)]
pub struct BootInfo {
    pub magic: u64,
    pub abi_version: u32,
    pub struct_size: u32,
    pub feature_flags: u64,
    pub physical_memory_offset: u64,
    pub framebuffer_addr: u64,
    pub framebuffer_size: u64,
    pub screen_width: u64,
    pub screen_height: u64,
    pub stride: u64,
    pub memory_map_addr: u64,
    pub memory_map_len: u64,
    pub memory_map_entry_size: u32,
    pub _reserved0: u32,
    pub kernel_heap_addr: u64,
    pub initfs_addr: u64,
    pub initfs_size: u64,
    pub rootfs_addr: u64,
    pub rootfs_size: u64,
    pub cpu_total: u32,
    pub cpu_enabled: u32,
    pub bsp_apic_id: u32,
    pub cpu_apic_ids: [u32; 64],
    pub cpu_apic_id_count: u32,
    pub _reserved1: u32,
    pub smp_handoff_addr: u64,
    pub smp_handoff_size: u32,
    pub _reserved2: u32,
    pub smp_trampoline_addr: u64,
    pub smp_trampoline_size: u64,
    pub entropy_seed: [u8; 32],
    pub entropy_seed_valid: u8,
    pub _reserved3: [u8; 7],
}

/// Error `validate` reports for `info`, checked in field order.
pub open spec fn boot_info_error(info: BootInfo) -> Option<BootInfoError> {
    if info.magic != BOOT_ABI_MAGIC {
        Some(BootInfoError::InvalidMagic)
    } else if info.abi_version != BOOT_ABI_VERSION {
        Some(BootInfoError::UnsupportedVersion)
    } else if info.struct_size < BOOT_INFO_SIZE {
        Some(BootInfoError::InvalidStructSize)
    } else if info.memory_map_entry_size != MEMORY_REGION_SIZE {
        Some(BootInfoError::InvalidMemoryMapEntrySize)
    } else if info.cpu_apic_id_count > MAX_CPU_IDS {
        Some(BootInfoError::InvalidCpuCount)
    } else {
        None
    }
}

/// The single-CPU record with no optional features.
pub open spec fn empty_boot_info(info: BootInfo) -> bool {
    &&& info.magic == BOOT_ABI_MAGIC
    &&& info.abi_version == BOOT_ABI_VERSION
    &&& info.struct_size == BOOT_INFO_SIZE
    &&& info.memory_map_entry_size == MEMORY_REGION_SIZE
    &&& info.feature_flags == 0
    &&& info.physical_memory_offset == 0
    &&& info.framebuffer_addr == 0 && info.framebuffer_size == 0
    &&& info.screen_width == 0 && info.screen_height == 0 && info.stride == 0
    &&& info.memory_map_addr == 0 && info.memory_map_len == 0
    &&& info.kernel_heap_addr == 0
    &&& info.initfs_addr == 0 && info.initfs_size == 0
    &&& info.rootfs_addr == 0 && info.rootfs_size == 0
    &&& info.cpu_total == 1 && info.cpu_enabled == 1 && info.bsp_apic_id == 0
    &&& forall|i: int| 0 <= i < 64 ==> info.cpu_apic_ids[i] == 0
    &&& info.cpu_apic_id_count == 1
    &&& info.smp_handoff_addr == 0 && info.smp_handoff_size == 0
    &&& info.smp_trampoline_addr == 0 && info.smp_trampoline_size == 0
    &&& forall|i: int| 0 <= i < 32 ==> info.entropy_seed[i] == 0
    &&& info.entropy_seed_valid == 0
    &&& info._reserved0 == 0 && info._reserved1 == 0 && info._reserved2 == 0
    &&& forall|i: int| 0 <= i < 7 ==> info._reserved3[i] == 0
}

impl BootInfo {
    /// A single-CPU record with no optional features, valid for `validate`.
    pub fn empty() -> (info: Self)
        ensures
            empty_boot_info(info),
            boot_info_error(info) is None,
    {
        BootInfo {
            magic: BOOT_ABI_MAGIC,
            abi_version: BOOT_ABI_VERSION,
            struct_size: BOOT_INFO_SIZE,
            feature_flags: 0,
            physical_memory_offset: 0,
            framebuffer_addr: 0,
            framebuffer_size: 0,
            screen_width: 0,
            screen_height: 0,
            stride: 0,
            memory_map_addr: 0,
            memory_map_len: 0,
            memory_map_entry_size: MEMORY_REGION_SIZE,
            _reserved0: 0,
            kernel_heap_addr: 0,
            initfs_addr: 0,
            initfs_size: 0,
            rootfs_addr: 0,
            rootfs_size: 0,
            cpu_total: 1,
            cpu_enabled: 1,
            bsp_apic_id: 0,
            cpu_apic_ids: [0u32; 64],
            cpu_apic_id_count: 1,
            _reserved1: 0,
            smp_handoff_addr: 0,
            smp_handoff_size: 0,
            _reserved2: 0,
            smp_trampoline_addr: 0,
            smp_trampoline_size: 0,
            entropy_seed: [0u8; 32],
            entropy_seed_valid: 0,
            _reserved3: [0u8; 7],
        }
    }

    /// Checks the identifying header fields and the CPU table bound.
    pub fn validate(&self) -> (r: Result<(), BootInfoError>)
        ensures
            match boot_info_error(*self) {
                Some(e) => r == Err::<(), BootInfoError>(e),
                None => r is Ok,
            },
    {
        if self.magic != BOOT_ABI_MAGIC {
            return Err(BootInfoError::InvalidMagic);
        }
        if self.abi_version != BOOT_ABI_VERSION {
            return Err(BootInfoError::UnsupportedVersion);
        }
        if self.struct_size < BOOT_INFO_SIZE {
            return Err(BootInfoError::InvalidStructSize);
        }
        if self.memory_map_entry_size != MEMORY_REGION_SIZE {
            return Err(BootInfoError::InvalidMemoryMapEntrySize);
        }
        if self.cpu_apic_id_count as usize > MAX_CPU_IDS {
            return Err(BootInfoError::InvalidCpuCount);
        }
        Ok(())
    }
}

impl Default for SmpHandoff {
    fn default() -> (h: Self)
        ensures
            h == (SmpHandoff { ready: 0, kernel_secondary_entry: 0, boot_info_ptr: 0, kernel_cr3: 0, ap_count: 0 }),
    {
        SmpHandoff::new()
    }
}

impl Default for BootInfo {
    fn default() -> (info: Self)
        ensures
            empty_boot_info(info),
            boot_info_error(info) is None,
    {
        BootInfo::empty()
    }
}

} // verus!
