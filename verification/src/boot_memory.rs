//! Boot memory preparation: page-rounding of reserved ranges and the outcome
//! of reclaiming bootloader memory.

use vstd::prelude::*;
use crate::abi::boot::{
    boot_info_error, build_reclaimed_memory_map, reclaimed_map, BootInfo, BootInfoError,
    MemoryMapTransformError, MemoryRegion, MemoryType, PhysicalRange, MAX_BOOT_MEMORY_REGIONS,
};
use crate::metrics::{sat_add, sat_sub};

verus! {

pub const PAGE_SIZE: u64 = 4096;

#[derive(Clone, Copy, Debug, PartialEq, Eq, Structural)]
pub enum BootMemoryPreparation {
    Succeeded { reclaimed_bytes: u64 },
    Failed,
}

/// The whole pages that `len` bytes at `start` touch, when the range is
/// nonempty and its page-rounded end fits.
pub open spec fn page_span(start: u64, len: u64) -> Option<PhysicalRange> {
    let page_start = start - start % 4096;
    let end = start + len;
    let page_end = end + 4095 - (end + 4095) % 4096;
    if len == 0 || end + 4095 > u64::MAX {
        None
    } else {
        Some(PhysicalRange { start: page_start as u64, len: (page_end - page_start) as u64 })
    }
}

pub fn page_range(start: u64, len: u64) -> (r: Option<PhysicalRange>)
    ensures
        r == page_span(start, len),
{
    if len == 0 {
        return None;
    }
    let page_start = start & !0xfffu64;
    assert(page_start == start - start % 4096) by (bit_vector)
        requires
            page_start == start & !0xfffu64,
    ;
    let end = start.checked_add(len)?;
    let rounded = end.checked_add(PAGE_SIZE - 1)?;
    let page_end = rounded & !0xfffu64;
    assert(page_end == rounded - rounded % 4096) by (bit_vector)
        requires
            page_end == rounded & !0xfffu64,
    ;
    let span = page_end.checked_sub(page_start)?;
    Some(PhysicalRange { start: page_start, len: span })
}

/// Outcome of boot memory preparation, once there is one.
pub struct BootMemoryStatus {
    status: Option<BootMemoryPreparation>,
}

impl BootMemoryStatus {
    pub closed spec fn outcome(&self) -> Option<BootMemoryPreparation> {
        self.status
    }

    pub fn new() -> (s: Self)
        ensures
            s.outcome() is None,
    {
        BootMemoryStatus { status: None }
    }

    /// Records that preparation succeeded and reclaimed `reclaimed_bytes`.
    pub fn note_preparation_success(&mut self, reclaimed_bytes: u64)
        ensures
            final(self).outcome() == Some(BootMemoryPreparation::Succeeded { reclaimed_bytes }),
    {
        self.status = Some(BootMemoryPreparation::Succeeded { reclaimed_bytes });
    }

    pub fn note_preparation_failure(&mut self)
        ensures
            final(self).outcome() == Some(BootMemoryPreparation::Failed),
    {
        self.status = Some(BootMemoryPreparation::Failed);
    }

    pub fn preparation_status(&self) -> (r: Option<BootMemoryPreparation>)
        ensures
            r == self.outcome(),
    {
        self.status
    }
}

/// Ranges the kernel keeps out of reclaimed memory: its image, the initial
/// and root file systems, the SMP trampoline and the boot stack.
pub const MAX_RESERVED_RANGES: usize = 5;
/// Entries of the reclaimed memory map the kernel keeps.
pub const RECLAIMED_MEMORY_MAP_CAPACITY: usize = MAX_BOOT_MEMORY_REGIONS + MAX_RESERVED_RANGES * 2;

#[derive(Clone, Copy, Debug, PartialEq, Eq, Structural)]
pub enum BootMemoryError {
    InvalidBootInfo(BootInfoError),
    InvalidMemoryMap,
    InvalidKernelRange,
    InvalidSmpHandoff,
    Transform(MemoryMapTransformError),
}

/// Number of memory map entries `info` describes, checked before the map
/// is read: the header must be valid and the map nonempty, bounded and
/// present.
pub fn boot_memory_map_len(info: &BootInfo) -> (r: Result<usize, BootMemoryError>)
    ensures
        match boot_info_error(*info) {
            Some(e) => r == Err::<usize, BootMemoryError>(BootMemoryError::InvalidBootInfo(e)),
            None => if info.memory_map_len == 0 || info.memory_map_len > MAX_BOOT_MEMORY_REGIONS
                || info.memory_map_addr == 0 {
                r == Err::<usize, BootMemoryError>(BootMemoryError::InvalidMemoryMap)
            } else {
                r == Ok::<usize, BootMemoryError>(info.memory_map_len as usize)
            },
        },
{
    match info.validate() {
        Err(e) => return Err(BootMemoryError::InvalidBootInfo(e)),
        Ok(()) => {},
    }
    if info.memory_map_len == 0 || info.memory_map_len > MAX_BOOT_MEMORY_REGIONS as u64 {
        return Err(BootMemoryError::InvalidMemoryMap);
    }
    if info.memory_map_addr == 0 {
        return Err(BootMemoryError::InvalidMemoryMap);
    }
    Ok(info.memory_map_len as usize)
}

/// The boot stack's region: the first region holding `stack_pointer`, kept
/// when the loader may reclaim it, ignored when it is firmware memory, and
/// an error when it is usable memory, when a region ends past the address
/// space, or when no region holds it.
pub open spec fn stack_range_spec(map: Seq<MemoryRegion>, stack_pointer: u64) -> Result<Option<PhysicalRange>, BootMemoryError>
    decreases map.len(),
{
    if map.len() == 0 {
        Err(BootMemoryError::InvalidMemoryMap)
    } else if map[0].start + map[0].len > u64::MAX {
        Err(BootMemoryError::InvalidMemoryMap)
    } else if stack_pointer < map[0].start || stack_pointer >= map[0].start + map[0].len {
        stack_range_spec(map.drop_first(), stack_pointer)
    } else {
        match map[0].region_type {
            MemoryType::BootloaderReclaimable => Ok(Some(PhysicalRange { start: map[0].start, len: map[0].len })),
            MemoryType::Usable => Err(BootMemoryError::InvalidMemoryMap),
            _ => Ok(None),
        }
    }
}

pub fn boot_stack_range(memory_map: &[MemoryRegion], stack_pointer: u64) -> (r: Result<Option<PhysicalRange>, BootMemoryError>)
    ensures
        r == stack_range_spec(memory_map@, stack_pointer),
{
    let mut i: usize = 0;
    assert(memory_map@.subrange(0, memory_map@.len() as int) =~= memory_map@);
    while i < memory_map.len()
        invariant
            i <= memory_map@.len(),
            stack_range_spec(memory_map@, stack_pointer) == stack_range_spec(
                memory_map@.subrange(i as int, memory_map@.len() as int),
                stack_pointer,
            ),
        decreases memory_map@.len() - i,
    {
        let region = memory_map[i];
        let ghost rest = memory_map@.subrange(i as int, memory_map@.len() as int);
        assert(rest[0] == region);
        assert(rest.drop_first() =~= memory_map@.subrange(i + 1, memory_map@.len() as int));
        let end = match region.start.checked_add(region.len) {
            Some(end) => end,
            None => return Err(BootMemoryError::InvalidMemoryMap),
        };
        if !(stack_pointer < region.start || stack_pointer >= end) {
            return match region.region_type {
                MemoryType::BootloaderReclaimable => Ok(Some(PhysicalRange { start: region.start, len: region.len })),
                MemoryType::Usable => Err(BootMemoryError::InvalidMemoryMap),
                _ => Ok(None),
            };
        }
        i = i + 1;
    }
    assert(memory_map@.subrange(i as int, memory_map@.len() as int).len() == 0);
    Err(BootMemoryError::InvalidMemoryMap)
}

/// The present ranges, in order.
pub open spec fn present_ranges(s: Seq<Option<PhysicalRange>>) -> Seq<PhysicalRange>
    decreases s.len(),
{
    if s.len() == 0 {
        Seq::empty()
    } else {
        match s.last() {
            Some(r) => present_ranges(s.drop_last()).push(r),
            None => present_ranges(s.drop_last()),
        }
    }
}

/// Whether the SMP handoff block is described inconsistently: an address
/// without a size or the reverse, or a size other than the block's layout.
pub open spec fn handoff_invalid(info: BootInfo, handoff_layout_size: u64) -> bool {
    ((info.smp_handoff_addr == 0) != (info.smp_handoff_size == 0))
        || (info.smp_handoff_addr != 0 && info.smp_handoff_size != handoff_layout_size)
}

/// The ranges to keep reserved, or why there are none.
pub open spec fn reserved_ranges_spec(
    info: BootInfo,
    map: Seq<MemoryRegion>,
    kernel_start: u64,
    kernel_end: u64,
    stack_pointer: u64,
    handoff_layout_size: u64,
) -> Result<Seq<PhysicalRange>, BootMemoryError> {
    if kernel_end <= kernel_start {
        Err(BootMemoryError::InvalidKernelRange)
    } else {
        match stack_range_spec(map, stack_pointer) {
            Err(e) => Err(e),
            Ok(stack) => if handoff_invalid(info, handoff_layout_size) {
                Err(BootMemoryError::InvalidSmpHandoff)
            } else {
                Ok(present_ranges(seq![
                    page_span(kernel_start, (kernel_end - kernel_start) as u64),
                    page_span(info.initfs_addr, info.initfs_size),
                    page_span(info.rootfs_addr, info.rootfs_size),
                    page_span(info.smp_trampoline_addr, info.smp_trampoline_size),
                    stack,
                ]))
            },
        }
    }
}

fn push_reserved_range(ranges: &mut Vec<PhysicalRange>, range: Option<PhysicalRange>)
    requires
        old(ranges)@.len() < MAX_RESERVED_RANGES,
    ensures
        final(ranges)@ == match range {
            Some(r) => old(ranges)@.push(r),
            None => old(ranges)@,
        },
{
    match range {
        Some(r) => ranges.push(r),
        None => {},
    }
}

/// Collects the ranges the kernel keeps reserved while it reclaims loader
/// memory, after checking the kernel range and the SMP handoff block, whose
/// layout has `handoff_layout_size` bytes.
pub fn reserve_boot_ranges(
    info: &BootInfo,
    memory_map: &[MemoryRegion],
    kernel_start: u64,
    kernel_end: u64,
    stack_pointer: u64,
    handoff_layout_size: u64,
) -> (r: Result<Vec<PhysicalRange>, BootMemoryError>)
    ensures
        match reserved_ranges_spec(*info, memory_map@, kernel_start, kernel_end, stack_pointer, handoff_layout_size) {
            Ok(ranges) => r matches Ok(v) && v@ == ranges,
            Err(e) => r == Err::<Vec<PhysicalRange>, BootMemoryError>(e),
        },
        r matches Ok(v) ==> v@.len() <= MAX_RESERVED_RANGES,
{
    if kernel_end <= kernel_start {
        return Err(BootMemoryError::InvalidKernelRange);
    }
    let kernel = page_range(kernel_start, kernel_end - kernel_start);
    let initfs = page_range(info.initfs_addr, info.initfs_size);
    let rootfs = page_range(info.rootfs_addr, info.rootfs_size);
    let trampoline = page_range(info.smp_trampoline_addr, info.smp_trampoline_size);
    let mut ranges: Vec<PhysicalRange> = Vec::new();
    push_reserved_range(&mut ranges, kernel);
    push_reserved_range(&mut ranges, initfs);
    push_reserved_range(&mut ranges, rootfs);
    push_reserved_range(&mut ranges, trampoline);
    let stack = match boot_stack_range(memory_map, stack_pointer) {
        Ok(stack) => stack,
        Err(e) => return Err(e),
    };
    push_reserved_range(&mut ranges, stack);
    if (info.smp_handoff_addr == 0) != (info.smp_handoff_size == 0) {
        return Err(BootMemoryError::InvalidSmpHandoff);
    }
    if info.smp_handoff_addr != 0 && info.smp_handoff_size as u64 != handoff_layout_size {
        return Err(BootMemoryError::InvalidSmpHandoff);
    }
    proof {
        reveal_with_fuel(present_ranges, 6);
        let cands = seq![kernel, initfs, rootfs, trampoline, stack];
        assert(cands.drop_last() =~= seq![kernel, initfs, rootfs, trampoline]);
        assert(cands.drop_last().drop_last() =~= seq![kernel, initfs, rootfs]);
        assert(cands.drop_last().drop_last().drop_last() =~= seq![kernel, initfs]);
        assert(cands.drop_last().drop_last().drop_last().drop_last() =~= seq![kernel]);
        assert(seq![kernel].drop_last() =~= Seq::<Option<PhysicalRange>>::empty());
    }
    Ok(ranges)
}

/// Usable bytes of a memory map, summed in order and saturating.
pub open spec fn usable_total(map: Seq<MemoryRegion>) -> int
    decreases map.len(),
{
    if map.len() == 0 {
        0
    } else {
        sat_add(
            usable_total(map.drop_last()),
            if map.last().region_type == MemoryType::Usable { map.last().len as int } else { 0 },
        )
    }
}

pub fn usable_bytes(memory_map: &[MemoryRegion]) -> (r: u64)
    ensures
        r == usable_total(memory_map@),
{
    let mut total: u64 = 0;
    let mut i: usize = 0;
    while i < memory_map.len()
        invariant
            i <= memory_map@.len(),
            total == usable_total(memory_map@.take(i as int)),
        decreases memory_map@.len() - i,
    {
        assert(memory_map@.take(i + 1).drop_last() =~= memory_map@.take(i as int));
        if memory_map[i].region_type == MemoryType::Usable {
            total = total.saturating_add(memory_map[i].len);
        }
        i = i + 1;
    }
    assert(memory_map@.take(i as int) =~= memory_map@);
    total
}

/// Writes the reclaimed memory map into `output` and returns its length
/// with the usable bytes it gained over `memory_map`.
pub fn reclaim_memory(
    memory_map: &[MemoryRegion],
    reserved: &[PhysicalRange],
    output: &mut [MemoryRegion],
) -> (r: Result<(usize, u64), BootMemoryError>)
    ensures
        final(output)@.len() == old(output)@.len(),
        match reclaimed_map(memory_map@, reserved@, old(output)@.len() as int) {
            Ok(map) => r == Ok::<(usize, u64), BootMemoryError>((
                map.len() as usize,
                sat_sub(usable_total(map), usable_total(memory_map@)) as u64,
            )) && final(output)@.take(map.len() as int) == map,
            Err(e) => r == Err::<(usize, u64), BootMemoryError>(BootMemoryError::Transform(e)),
        },
{
    let capacity = output.len();
    let written = match build_reclaimed_memory_map(memory_map, reserved, output) {
        Ok(n) => n,
        Err(e) => return Err(BootMemoryError::Transform(e)),
    };
    let mut written_map: Vec<MemoryRegion> = Vec::new();
    let mut i: usize = 0;
    while i < written
        invariant
            i <= written,
            written <= output@.len(),
            written_map@ == output@.take(i as int),
        decreases written - i,
    {
        written_map.push(output[i]);
        i = i + 1;
        assert(written_map@ =~= output@.take(i as int));
    }
    let after = usable_bytes(written_map.as_slice());
    let before = usable_bytes(memory_map);
    proof {
        let map = reclaimed_map(memory_map@, reserved@, capacity as int)->Ok_0;
        assert(map.len() <= capacity);
        assert(written == map.len());
    }
    Ok((written, after.saturating_sub(before)))
}

} // verus!
