//! Kernel performance instrumentation: the clock description, frame and VFS
//! activity counters, and the allocation-context slots that charge heap
//! allocations to a subsystem.

use vstd::prelude::*;
use crate::abi::performance::{
    counter_index, failure_index, gauge_index, milestone_index, size_class, size_class_index, subsystem_index,
    AllocationSubsystem, BootMilestone, CounterMetric, DistributionSnapshot, FrameActivitySnapshot,
    FrameAllocationFailure, FrameAllocatorSnapshot, FrameFragmentationSnapshot, GaugeMetric, HeapAllocationSizeClass,
    KernelPerformanceSnapshot, LatencyMetric, TimerActivitySnapshot, TimerQueueSnapshot, VfsActivitySnapshot,
    PERFORMANCE_FLAG_INSTRUMENTED, PERFORMANCE_FLAG_INVARIANT_TSC, PERFORMANCE_FLAG_RDTSCP,
    PERFORMANCE_FLAG_WEAK_SNAPSHOT, PERFORMANCE_SNAPSHOT_SIZE, PERFORMANCE_SNAPSHOT_VERSION,
};
use crate::mem::heap::HEAP_SIZE;
use crate::metrics::{
    bit_len, percentile_rank, percentile_value, AtomicGauge, AtomicHistogram, GaugeSnapshot, HistogramSnapshot, max_int,
    sat_add, sat_sub,
};

verus! {

#[derive(Clone, Copy, Debug, PartialEq, Eq, Structural)]
pub enum ClockSource {
    Unavailable,
    HypervisorVirtual,
    CpuidCrystal,
}

impl ClockSource {
    /// Raw value a clock source is stored as.
    pub open spec fn raw_value(self) -> u8 {
        match self {
            ClockSource::Unavailable => 0,
            ClockSource::HypervisorVirtual => 1,
            ClockSource::CpuidCrystal => 2,
        }
    }

    pub fn raw(self) -> (r: u8)
        ensures
            r == self.raw_value(),
    {
        match self {
            ClockSource::Unavailable => 0,
            ClockSource::HypervisorVirtual => 1,
            ClockSource::CpuidCrystal => 2,
        }
    }

    /// The source stored as `value`; unknown values read as unavailable.
    pub fn from_raw(value: u8) -> (s: Self)
        ensures
            s == (if value == 1 {
                ClockSource::HypervisorVirtual
            } else if value == 2 {
                ClockSource::CpuidCrystal
            } else {
                ClockSource::Unavailable
            }),
            value <= 2 ==> s.raw_value() == value,
    {
        if value == 1 {
            ClockSource::HypervisorVirtual
        } else if value == 2 {
            ClockSource::CpuidCrystal
        } else {
            ClockSource::Unavailable
        }
    }
}

#[derive(Clone, Copy, Debug, PartialEq, Eq, Structural)]
pub struct ClockInfo {
    pub invariant_tsc: bool,
    pub rdtscp: bool,
    pub frequency_khz: u32,
    pub source: ClockSource,
}

/// Processor identification words the clock is described from.
#[derive(Clone, Copy, Debug, PartialEq, Eq, Structural)]
pub struct ClockIdentification {
    /// Highest extended leaf (`0x8000_0000`, EAX).
    pub maximum_extended_leaf: u32,
    /// EDX of leaf `0x8000_0001`.
    pub extended_features_edx: u32,
    /// EDX of leaf `0x8000_0007`.
    pub power_management_edx: u32,
    /// Highest basic leaf (leaf 0, EAX).
    pub maximum_basic_leaf: u32,
    /// EAX, EBX and ECX of leaf `0x15`: the crystal ratio and frequency.
    pub crystal_denominator: u32,
    pub crystal_numerator: u32,
    pub crystal_hz: u32,
    /// TSC frequency the hypervisor reports, zero when there is none.
    pub hypervisor_khz: u32,
}

/// TSC frequency in kHz and where it came from: the hypervisor when it
/// reports one, else the CPUID crystal ratio when leaf `0x15` is complete and
/// the result fits, else unavailable.
pub open spec fn tsc_frequency_spec(id: ClockIdentification) -> (u32, ClockSource) {
    if id.hypervisor_khz != 0 {
        (id.hypervisor_khz, ClockSource::HypervisorVirtual)
    } else if id.maximum_basic_leaf >= 0x15 && id.crystal_denominator != 0 && id.crystal_numerator != 0
        && id.crystal_hz != 0 && (id.crystal_hz * id.crystal_numerator / (id.crystal_denominator as int)) / 1000 <= u32::MAX {
        (((id.crystal_hz * id.crystal_numerator / (id.crystal_denominator as int)) / 1000) as u32, ClockSource::CpuidCrystal)
    } else {
        (0, ClockSource::Unavailable)
    }
}

/// The clock described by `id`.
pub open spec fn clock_from(id: ClockIdentification) -> ClockInfo {
    ClockInfo {
        invariant_tsc: id.maximum_extended_leaf >= 0x8000_0007 && id.power_management_edx & 0x100 != 0,
        rdtscp: id.maximum_extended_leaf >= 0x8000_0001 && id.extended_features_edx & 0x800_0000 != 0,
        frequency_khz: tsc_frequency_spec(id).0,
        source: tsc_frequency_spec(id).1,
    }
}

fn tsc_frequency(id: ClockIdentification) -> (r: (u32, ClockSource))
    ensures
        r == tsc_frequency_spec(id),
{
    if id.hypervisor_khz != 0 {
        return (id.hypervisor_khz, ClockSource::HypervisorVirtual);
    }
    if id.maximum_basic_leaf >= 0x15 && id.crystal_denominator != 0 && id.crystal_numerator != 0 && id.crystal_hz != 0 {
        let hz = id.crystal_hz as u64;
        let numerator = id.crystal_numerator as u64;
        assert(hz * numerator <= 0xffff_ffff * 0xffff_ffff) by (nonlinear_arith)
            requires
                hz <= 0xffff_ffff,
                numerator <= 0xffff_ffff,
        ;
        let product = hz * numerator;
        let frequency_hz = product / (id.crystal_denominator as u64);
        let khz = frequency_hz / 1000;
        if khz <= 0xffff_ffff {
            return (khz as u32, ClockSource::CpuidCrystal);
        }
    }
    (0, ClockSource::Unavailable)
}

/// Nanoseconds in `cycles` ticks of a `frequency_khz` clock, when the clock
/// frequency is known and the result fits.
pub open spec fn cycles_to_nanoseconds_spec(cycles: u64, frequency_khz: u32) -> Option<u64> {
    if frequency_khz == 0 {
        None
    } else if cycles * 1_000_000 / (frequency_khz as int) > u64::MAX {
        None
    } else {
        Some((cycles * 1_000_000 / (frequency_khz as int)) as u64)
    }
}

/// Slots that name the subsystem current allocations are charged to: one per
/// thread slot, then one per CPU.
pub struct AllocationContexts {
    slots: Vec<AllocationSubsystem>,
}

/// A charge of allocations to a subsystem, undone by `AllocationContexts::leave`.
pub struct AllocationScope {
    context_index: usize,
    previous: AllocationSubsystem,
}

pub const ALLOCATION_THREAD_SLOTS: usize = 64;
pub const ALLOCATION_CONTEXT_SLOTS: usize = 128;

impl AllocationContexts {
    pub closed spec fn view_slots(&self) -> Seq<AllocationSubsystem> {
        self.slots@
    }

    pub fn new() -> (c: Self)
        ensures
            c.view_slots() == Seq::new(ALLOCATION_CONTEXT_SLOTS as nat, |i: int| AllocationSubsystem::Other),
    {
        let slots = vec![AllocationSubsystem::Other; ALLOCATION_CONTEXT_SLOTS];
        assert(slots@ =~= Seq::new(ALLOCATION_CONTEXT_SLOTS as nat, |i: int| AllocationSubsystem::Other));
        AllocationContexts { slots }
    }

    /// Slot of the running context: the thread's slot when it has one below
    /// the thread slot count, else the slot of `cpu`.
    pub fn context_index(thread_slot: Option<usize>, cpu: usize) -> (r: usize)
        requires
            cpu < ALLOCATION_CONTEXT_SLOTS - ALLOCATION_THREAD_SLOTS,
        ensures
            r == (match thread_slot {
                Some(slot) if slot < ALLOCATION_THREAD_SLOTS => slot,
                _ => (ALLOCATION_THREAD_SLOTS + cpu) as usize,
            }),
            r < ALLOCATION_CONTEXT_SLOTS,
    {
        match thread_slot {
            Some(slot) if slot < ALLOCATION_THREAD_SLOTS => slot,
            _ => ALLOCATION_THREAD_SLOTS + cpu,
        }
    }

    /// Subsystem the context in slot `index` is charged to.
    pub fn current(&self, index: usize) -> (s: AllocationSubsystem)
        requires
            index < self.view_slots().len(),
        ensures
            s == self.view_slots()[index as int],
    {
        self.slots[index]
    }

    /// Charges the context in slot `index` to `subsystem` until the returned
    /// scope is left.
    pub fn enter(&mut self, index: usize, subsystem: AllocationSubsystem) -> (scope: AllocationScope)
        requires
            index < old(self).view_slots().len(),
        ensures
            final(self).view_slots() == old(self).view_slots().update(index as int, subsystem),
            scope.index() == index,
            scope.previous() == old(self).view_slots()[index as int],
    {
        let previous = self.slots[index];
        self.slots.set(index, subsystem);
        AllocationScope { context_index: index, previous }
    }

    /// Restores what the slot of `scope` held before the scope was entered.
    pub fn leave(&mut self, scope: AllocationScope)
        requires
            scope.index() < old(self).view_slots().len(),
        ensures
            final(self).view_slots() == old(self).view_slots().update(scope.index() as int, scope.previous()),
    {
        self.slots.set(scope.context_index, scope.previous);
    }
}

impl AllocationScope {
    pub closed spec fn index(&self) -> usize {
        self.context_index
    }

    pub closed spec fn previous(&self) -> AllocationSubsystem {
        self.previous
    }
}

/// Leaving a scope right after entering it gives the slot back what it held.
pub proof fn lemma_scope_restores(before: Seq<AllocationSubsystem>, index: int, subsystem: AllocationSubsystem)
    requires
        0 <= index < before.len(),
    ensures
        before.update(index, subsystem).update(index, before[index]) == before,
{
    assert(before.update(index, subsystem).update(index, before[index]) =~= before);
}

/// Timer queues whose housekeeping is measured.
#[derive(Clone, Copy, Debug, PartialEq, Eq, Structural)]
pub enum TimerQueueKind {
    Sleep,
    FutexTimeout,
}

/// Housekeeping measurements of one timer queue.
pub struct TimerQueueCounters {
    pub housekeeping: AtomicHistogram,
    pub full_scans: u64,
    pub skipped_checks: u64,
    pub wakeups: u64,
}

/// Whether nothing was measured of `q` yet.
pub open spec fn queue_empty(q: TimerQueueCounters) -> bool {
    &&& q.housekeeping.buckets() == Seq::new(65, |i: int| 0u64)
    &&& q.housekeeping.count() == 0 && q.housekeeping.sum() == 0 && q.housekeeping.max() == 0
    &&& q.full_scans == 0 && q.skipped_checks == 0 && q.wakeups == 0
}

/// `after` is `before` with one check recorded: its duration in the
/// histogram, a full scan or a skipped one, and the tasks it woke.
pub open spec fn queue_checked(
    before: TimerQueueCounters,
    after: TimerQueueCounters,
    cycles: u64,
    full_scan: bool,
    wakeups: usize,
) -> bool {
    let k = bit_len(cycles as nat) as int;
    &&& after.housekeeping.buckets() == before.housekeeping.buckets().update(
        k,
        sat_add(before.housekeeping.buckets()[k] as int, 1) as u64,
    )
    &&& after.housekeeping.count() == sat_add(before.housekeeping.count() as int, 1)
    &&& after.housekeeping.sum() == sat_add(before.housekeeping.sum() as int, cycles as int)
    &&& after.housekeeping.max() == max_int(before.housekeeping.max() as int, cycles as int)
    &&& after.full_scans == if full_scan { wrap_add(before.full_scans, 1) } else { before.full_scans }
    &&& after.skipped_checks == if full_scan { before.skipped_checks } else { wrap_add(before.skipped_checks, 1) }
    &&& after.wakeups == wrap_add(before.wakeups, wakeups as u64)
}

impl TimerQueueCounters {
    pub fn new() -> (q: Self)
        ensures
            queue_empty(q),
    {
        TimerQueueCounters { housekeeping: AtomicHistogram::new(), full_scans: 0, skipped_checks: 0, wakeups: 0 }
    }

    /// Records one check of the queue that took `cycles` cycles.
    pub fn record_check(&mut self, cycles: u64, full_scan: bool, wakeups: usize)
        ensures
            queue_checked(*old(self), *final(self), cycles, full_scan, wakeups),
    {
        self.housekeeping.record(cycles);
        if full_scan {
            self.full_scans = self.full_scans.wrapping_add(1);
        } else {
            self.skipped_checks = self.skipped_checks.wrapping_add(1);
        }
        self.wakeups = self.wakeups.wrapping_add(wakeups as u64);
    }
}

/// Counters of the frame allocator, the heap and the VFS, and the clock they
/// are timed with.
pub struct PerformanceState {
    pub clock_initialized: bool,
    pub clock: ClockInfo,
    pub heap_internal_fragmentation: AtomicGauge,
    pub frame_requests: u64,
    pub frame_free_list_hits: u64,
    pub frame_bump_hits: u64,
    pub frame_contiguous_requests: u64,
    pub frame_regions_examined: u64,
    pub frame_zero_calls: u64,
    pub frame_zero_bytes: u64,
    pub frame_zero_cycles: u64,
    pub frame_allocator_lock_wait: AtomicHistogram,
    pub frame_recycled_pages: u64,
    pub vfs_metadata_queries: u64,
    pub vfs_read_range_calls: u64,
    pub vfs_write_range_calls: u64,
    pub vfs_read_requested_bytes: u64,
    pub vfs_read_transferred_bytes: u64,
    pub vfs_write_requested_bytes: u64,
    pub vfs_write_transferred_bytes: u64,
    pub vfs_temporary_buffer_allocations: u64,
    pub vfs_temporary_buffer_bytes: u64,
    pub vfs_path_clone_allocations: u64,
    pub vfs_path_clone_bytes: u64,
    /// Saturating counters, by `CounterMetric`.
    pub counters: Vec<u64>,
    /// Gauges, by `GaugeMetric`.
    pub gauges: Vec<AtomicGauge>,
    /// First time each boot milestone was reached, zero while it was not.
    pub boot_milestones: Vec<u64>,
    pub heap_allocations_by_size: Vec<u64>,
    pub heap_allocations_by_cpu: Vec<u64>,
    pub heap_allocations_by_subsystem: Vec<u64>,
    pub frame_failures: Vec<u64>,
    pub frame_allocated_pages_by_cpu: Vec<u64>,
    pub frame_allocated_pages_by_subsystem: Vec<u64>,
    pub frame_zero_calls_by_subsystem: Vec<u64>,
    pub frame_zero_cycles_by_subsystem: Vec<u64>,
    pub sleep_queue: TimerQueueCounters,
    pub futex_timeout_queue: TimerQueueCounters,
}

/// CPUs whose activity is counted apart.
pub const PERFORMANCE_CPUS: usize = 64;

fn zeros(n: usize) -> (v: Vec<u64>)
    ensures
        v@ == Seq::new(n as nat, |i: int| 0u64),
{
    let mut v: Vec<u64> = Vec::new();
    let mut i: usize = 0;
    while i < n
        invariant
            i <= n,
            v@ == Seq::new(i as nat, |k: int| 0u64),
        decreases n - i,
    {
        v.push(0);
        i = i + 1;
        assert(v@ =~= Seq::new(i as nat, |k: int| 0u64));
    }
    v
}

fn empty_gauges(n: usize) -> (v: Vec<AtomicGauge>)
    ensures
        v@.len() == n,
        forall|i: int| 0 <= i < n ==> (#[trigger] v@[i]).current() == 0 && v@[i].peak() == 0,
{
    let mut v: Vec<AtomicGauge> = Vec::new();
    let mut i: usize = 0;
    while i < n
        invariant
            i <= n,
            v@.len() == i,
            forall|k: int| 0 <= k < i ==> (#[trigger] v@[k]).current() == 0 && v@[k].peak() == 0,
        decreases n - i,
    {
        v.push(AtomicGauge::new());
        i = i + 1;
    }
    v
}

/// `a + b` modulo 2^64, as an atomic add does.
pub open spec fn wrap_add(a: u64, b: u64) -> u64 {
    if a + b > u64::MAX { (a + b - 0x1_0000_0000_0000_0000) as u64 } else { (a + b) as u64 }
}

/// `table` with `value` added to entry `i`, wrapping as an atomic add does.
pub open spec fn bump(table: Seq<u64>, i: int, value: u64) -> Seq<u64> {
    table.update(i, wrap_add(table[i], value))
}

fn bump_entry(table: &mut Vec<u64>, i: usize, value: u64)
    requires
        i < old(table)@.len(),
    ensures
        final(table)@ == bump(old(table)@, i as int, value),
{
    let current = table[i];
    table.set(i, current.wrapping_add(value));
}

impl PerformanceState {
    pub fn new() -> (s: Self)
        ensures
            !s.clock_initialized,
            s.clock == (ClockInfo { invariant_tsc: false, rdtscp: false, frequency_khz: 0, source: ClockSource::Unavailable }),
            s.heap_internal_fragmentation.current() == 0,
            s.frame_requests == 0 && s.frame_free_list_hits == 0 && s.frame_bump_hits == 0,
            s.frame_contiguous_requests == 0 && s.frame_regions_examined == 0,
            s.frame_zero_calls == 0 && s.frame_zero_bytes == 0 && s.frame_zero_cycles == 0,
            s.frame_allocator_lock_wait.count() == 0,
            s.frame_recycled_pages == 0,
            s.vfs_metadata_queries == 0 && s.vfs_read_range_calls == 0 && s.vfs_write_range_calls == 0,
            s.vfs_read_requested_bytes == 0 && s.vfs_read_transferred_bytes == 0,
            s.vfs_write_requested_bytes == 0 && s.vfs_write_transferred_bytes == 0,
            s.vfs_temporary_buffer_allocations == 0 && s.vfs_temporary_buffer_bytes == 0,
            s.vfs_path_clone_allocations == 0 && s.vfs_path_clone_bytes == 0,
            s.tables_sized(),
            s.counters@ == Seq::new(CounterMetric::COUNT as nat, |i: int| 0u64),
            forall|i: int| 0 <= i < GaugeMetric::COUNT ==> (#[trigger] s.gauges@[i]).current() == 0 && s.gauges@[i].peak() == 0,
            s.boot_milestones@ == Seq::new(BootMilestone::COUNT as nat, |i: int| 0u64),
            s.heap_allocations_by_size@ == Seq::new(HeapAllocationSizeClass::COUNT as nat, |i: int| 0u64),
            s.heap_allocations_by_cpu@ == Seq::new(PERFORMANCE_CPUS as nat, |i: int| 0u64),
            s.heap_allocations_by_subsystem@ == Seq::new(AllocationSubsystem::COUNT as nat, |i: int| 0u64),
            s.frame_failures@ == Seq::new(FrameAllocationFailure::COUNT as nat, |i: int| 0u64),
            s.frame_allocated_pages_by_cpu@ == Seq::new(PERFORMANCE_CPUS as nat, |i: int| 0u64),
            s.frame_allocated_pages_by_subsystem@ == Seq::new(AllocationSubsystem::COUNT as nat, |i: int| 0u64),
            s.frame_zero_calls_by_subsystem@ == Seq::new(AllocationSubsystem::COUNT as nat, |i: int| 0u64),
            s.frame_zero_cycles_by_subsystem@ == Seq::new(AllocationSubsystem::COUNT as nat, |i: int| 0u64),
            queue_empty(s.sleep_queue),
            queue_empty(s.futex_timeout_queue),
    {
        PerformanceState {
            clock_initialized: false,
            clock: ClockInfo { invariant_tsc: false, rdtscp: false, frequency_khz: 0, source: ClockSource::Unavailable },
            heap_internal_fragmentation: AtomicGauge::new(),
            frame_requests: 0,
            frame_free_list_hits: 0,
            frame_bump_hits: 0,
            frame_contiguous_requests: 0,
            frame_regions_examined: 0,
            frame_zero_calls: 0,
            frame_zero_bytes: 0,
            frame_zero_cycles: 0,
            frame_allocator_lock_wait: AtomicHistogram::new(),
            frame_recycled_pages: 0,
            vfs_metadata_queries: 0,
            vfs_read_range_calls: 0,
            vfs_write_range_calls: 0,
            vfs_read_requested_bytes: 0,
            vfs_read_transferred_bytes: 0,
            vfs_write_requested_bytes: 0,
            vfs_write_transferred_bytes: 0,
            vfs_temporary_buffer_allocations: 0,
            vfs_temporary_buffer_bytes: 0,
            vfs_path_clone_allocations: 0,
            vfs_path_clone_bytes: 0,
            counters: zeros(CounterMetric::COUNT),
            gauges: empty_gauges(GaugeMetric::COUNT),
            boot_milestones: zeros(BootMilestone::COUNT),
            heap_allocations_by_size: zeros(HeapAllocationSizeClass::COUNT),
            heap_allocations_by_cpu: zeros(PERFORMANCE_CPUS),
            heap_allocations_by_subsystem: zeros(AllocationSubsystem::COUNT),
            frame_failures: zeros(FrameAllocationFailure::COUNT),
            frame_allocated_pages_by_cpu: zeros(PERFORMANCE_CPUS),
            frame_allocated_pages_by_subsystem: zeros(AllocationSubsystem::COUNT),
            frame_zero_calls_by_subsystem: zeros(AllocationSubsystem::COUNT),
            frame_zero_cycles_by_subsystem: zeros(AllocationSubsystem::COUNT),
            sleep_queue: TimerQueueCounters::new(),
            futex_timeout_queue: TimerQueueCounters::new(),
        }
    }

    /// Whether every table has one entry per metric, CPU or subsystem.
    pub open spec fn tables_sized(&self) -> bool {
        &&& self.counters@.len() == CounterMetric::COUNT
        &&& self.gauges@.len() == GaugeMetric::COUNT
        &&& self.boot_milestones@.len() == BootMilestone::COUNT
        &&& self.heap_allocations_by_size@.len() == HeapAllocationSizeClass::COUNT
        &&& self.heap_allocations_by_cpu@.len() == PERFORMANCE_CPUS
        &&& self.heap_allocations_by_subsystem@.len() == AllocationSubsystem::COUNT
        &&& self.frame_failures@.len() == FrameAllocationFailure::COUNT
        &&& self.frame_allocated_pages_by_cpu@.len() == PERFORMANCE_CPUS
        &&& self.frame_allocated_pages_by_subsystem@.len() == AllocationSubsystem::COUNT
        &&& self.frame_zero_calls_by_subsystem@.len() == AllocationSubsystem::COUNT
        &&& self.frame_zero_cycles_by_subsystem@.len() == AllocationSubsystem::COUNT
    }

    /// Whether every table has its full size, as the recording methods need.
    pub fn tables_ready(&self) -> (r: bool)
        ensures
            r == self.tables_sized(),
    {
        self.counters.len() == CounterMetric::COUNT && self.gauges.len() == GaugeMetric::COUNT
            && self.boot_milestones.len() == BootMilestone::COUNT
            && self.heap_allocations_by_size.len() == HeapAllocationSizeClass::COUNT
            && self.heap_allocations_by_cpu.len() == PERFORMANCE_CPUS
            && self.heap_allocations_by_subsystem.len() == AllocationSubsystem::COUNT
            && self.frame_failures.len() == FrameAllocationFailure::COUNT
            && self.frame_allocated_pages_by_cpu.len() == PERFORMANCE_CPUS
            && self.frame_allocated_pages_by_subsystem.len() == AllocationSubsystem::COUNT
            && self.frame_zero_calls_by_subsystem.len() == AllocationSubsystem::COUNT
            && self.frame_zero_cycles_by_subsystem.len() == AllocationSubsystem::COUNT
    }

    /// Takes the heap bytes a freed allocation had reserved beyond its request
    /// off the fragmentation gauge.
    pub fn record_heap_deallocation(&mut self, user_bytes: usize, reserved_bytes: usize)
        ensures
            *final(self) == (PerformanceState {
                heap_internal_fragmentation: final(self).heap_internal_fragmentation,
                ..*old(self)
            }),
            final(self).heap_internal_fragmentation.current() == sat_sub(
                old(self).heap_internal_fragmentation.current() as int,
                sat_sub(reserved_bytes as int, user_bytes as int),
            ),
            final(self).heap_internal_fragmentation.peak() == old(self).heap_internal_fragmentation.peak(),
    {
        self.heap_internal_fragmentation.subtract(reserved_bytes.saturating_sub(user_bytes) as u64);
    }

    /// Records a heap allocation of `user_bytes` that reserved
    /// `reserved_bytes`, made on `cpu` for `subsystem`: counted by size class,
    /// CPU and subsystem, with the excess charged to the fragmentation gauge.
    pub fn record_heap_allocation(&mut self, user_bytes: usize, reserved_bytes: usize, cpu: usize, subsystem: AllocationSubsystem)
        requires
            old(self).tables_sized(),
            cpu < PERFORMANCE_CPUS,
        ensures
            *final(self) == (PerformanceState {
                heap_allocations_by_size: final(self).heap_allocations_by_size,
                heap_allocations_by_cpu: final(self).heap_allocations_by_cpu,
                heap_allocations_by_subsystem: final(self).heap_allocations_by_subsystem,
                heap_internal_fragmentation: final(self).heap_internal_fragmentation,
                ..*old(self)
            }),
            final(self).tables_sized(),
            final(self).heap_allocations_by_size@ == bump(
                old(self).heap_allocations_by_size@,
                size_class_index(size_class(user_bytes as int)),
                1,
            ),
            final(self).heap_allocations_by_cpu@ == bump(old(self).heap_allocations_by_cpu@, cpu as int, 1),
            final(self).heap_allocations_by_subsystem@ == bump(
                old(self).heap_allocations_by_subsystem@,
                subsystem_index(subsystem),
                1,
            ),
            final(self).heap_internal_fragmentation.current() == sat_add(
                old(self).heap_internal_fragmentation.current() as int,
                sat_sub(reserved_bytes as int, user_bytes as int),
            ),
    {
        let class = HeapAllocationSizeClass::for_size(user_bytes).index();
        bump_entry(&mut self.heap_allocations_by_size, class, 1);
        bump_entry(&mut self.heap_allocations_by_cpu, cpu, 1);
        bump_entry(&mut self.heap_allocations_by_subsystem, subsystem.index(), 1);
        self.heap_internal_fragmentation.add(reserved_bytes.saturating_sub(user_bytes) as u64);
    }

    /// Adds `value` to a counter, saturating.
    pub fn increment(&mut self, metric: CounterMetric, value: u64)
        requires
            old(self).tables_sized(),
        ensures
            *final(self) == (PerformanceState {
                counters: final(self).counters,
                ..*old(self)
            }),
            final(self).tables_sized(),
            final(self).counters@ == old(self).counters@.update(
                counter_index(metric),
                sat_add(old(self).counters@[counter_index(metric)] as int, value as int) as u64,
            ),
    {
        let i = metric.index();
        let current = self.counters[i];
        self.counters.set(i, current.saturating_add(value));
    }

    pub fn counter(&self, metric: CounterMetric) -> (r: u64)
        requires
            self.tables_sized(),
        ensures
            r == self.counters@[counter_index(metric)],
    {
        self.counters[metric.index()]
    }

    pub fn gauge_add(&mut self, metric: GaugeMetric, value: u64)
        requires
            old(self).tables_sized(),
        ensures
            *final(self) == (PerformanceState {
                gauges: final(self).gauges,
                ..*old(self)
            }),
            final(self).tables_sized(),
            forall|i: int| 0 <= i < GaugeMetric::COUNT && i != gauge_index(metric)
                ==> #[trigger] final(self).gauges@[i] == old(self).gauges@[i],
            final(self).gauges@[gauge_index(metric)].current() == sat_add(
                old(self).gauges@[gauge_index(metric)].current() as int,
                value as int,
            ),
            final(self).gauges@[gauge_index(metric)].peak() == max_int(
                old(self).gauges@[gauge_index(metric)].peak() as int,
                final(self).gauges@[gauge_index(metric)].current() as int,
            ),
    {
        let i = metric.index();
        let mut gauge = self.gauges[i];
        gauge.add(value);
        self.gauges.set(i, gauge);
    }

    pub fn gauge_subtract(&mut self, metric: GaugeMetric, value: u64)
        requires
            old(self).tables_sized(),
        ensures
            *final(self) == (PerformanceState {
                gauges: final(self).gauges,
                ..*old(self)
            }),
            final(self).tables_sized(),
            forall|i: int| 0 <= i < GaugeMetric::COUNT && i != gauge_index(metric)
                ==> #[trigger] final(self).gauges@[i] == old(self).gauges@[i],
            final(self).gauges@[gauge_index(metric)].current() == sat_sub(
                old(self).gauges@[gauge_index(metric)].current() as int,
                value as int,
            ),
            final(self).gauges@[gauge_index(metric)].peak() == old(self).gauges@[gauge_index(metric)].peak(),
    {
        let i = metric.index();
        let mut gauge = self.gauges[i];
        gauge.subtract(value);
        self.gauges.set(i, gauge);
    }

    pub fn gauge_snapshot(&self, metric: GaugeMetric) -> (s: GaugeSnapshot)
        requires
            self.tables_sized(),
        ensures
            s.current == self.gauges@[gauge_index(metric)].current(),
            s.peak == self.gauges@[gauge_index(metric)].peak(),
    {
        self.gauges[metric.index()].snapshot()
    }

    /// Records that `milestone` was reached at `timestamp` (counted as at
    /// least one), unless it was reached before.
    pub fn mark_boot(&mut self, milestone: BootMilestone, timestamp: u64)
        requires
            old(self).tables_sized(),
        ensures
            *final(self) == (PerformanceState {
                boot_milestones: final(self).boot_milestones,
                ..*old(self)
            }),
            final(self).tables_sized(),
            final(self).boot_milestones@ == if old(self).boot_milestones@[milestone_index(milestone)] == 0 {
                old(self).boot_milestones@.update(milestone_index(milestone), if timestamp == 0 { 1u64 } else { timestamp })
            } else {
                old(self).boot_milestones@
            },
    {
        let i = milestone.index();
        if self.boot_milestones[i] == 0 {
            self.boot_milestones.set(i, if timestamp == 0 { 1 } else { timestamp });
        }
    }

    /// When `milestone` was first reached, if it was.
    pub fn boot_milestone(&self, milestone: BootMilestone) -> (r: Option<u64>)
        requires
            self.tables_sized(),
        ensures
            r == if self.boot_milestones@[milestone_index(milestone)] == 0 {
                None::<u64>
            } else {
                Some(self.boot_milestones@[milestone_index(milestone)])
            },
    {
        let t = self.boot_milestones[milestone.index()];
        if t != 0 {
            Some(t)
        } else {
            None
        }
    }

    pub fn record_frame_failure(&mut self, reason: FrameAllocationFailure)
        requires
            old(self).tables_sized(),
        ensures
            *final(self) == (PerformanceState {
                frame_failures: final(self).frame_failures,
                ..*old(self)
            }),
            final(self).tables_sized(),
            final(self).frame_failures@ == bump(old(self).frame_failures@, failure_index(reason), 1),
    {
        bump_entry(&mut self.frame_failures, reason.index(), 1);
    }

    /// Records `page_count` frames handed out on `cpu` for `subsystem`.
    pub fn record_frame_allocation(&mut self, page_count: usize, cpu: usize, subsystem: AllocationSubsystem)
        requires
            old(self).tables_sized(),
            cpu < PERFORMANCE_CPUS,
        ensures
            *final(self) == (PerformanceState {
                counters: final(self).counters,
                gauges: final(self).gauges,
                frame_allocated_pages_by_cpu: final(self).frame_allocated_pages_by_cpu,
                frame_allocated_pages_by_subsystem: final(self).frame_allocated_pages_by_subsystem,
                ..*old(self)
            }),
            final(self).tables_sized(),
            final(self).counters@ == old(self).counters@.update(
                counter_index(CounterMetric::FrameAllocations),
                sat_add(old(self).counters@[counter_index(CounterMetric::FrameAllocations)] as int, page_count as int) as u64,
            ),
            final(self).gauges@[gauge_index(GaugeMetric::FramesInUse)].current() == sat_add(
                old(self).gauges@[gauge_index(GaugeMetric::FramesInUse)].current() as int,
                page_count as int,
            ),
            final(self).gauges@[gauge_index(GaugeMetric::FramesInUse)].peak() == max_int(
                old(self).gauges@[gauge_index(GaugeMetric::FramesInUse)].peak() as int,
                final(self).gauges@[gauge_index(GaugeMetric::FramesInUse)].current() as int,
            ),
            forall|i: int| 0 <= i < GaugeMetric::COUNT && i != gauge_index(GaugeMetric::FramesInUse)
                ==> #[trigger] final(self).gauges@[i] == old(self).gauges@[i],
            final(self).frame_allocated_pages_by_cpu@ == bump(old(self).frame_allocated_pages_by_cpu@, cpu as int, page_count as u64),
            final(self).frame_allocated_pages_by_subsystem@ == bump(
                old(self).frame_allocated_pages_by_subsystem@,
                subsystem_index(subsystem),
                page_count as u64,
            ),
    {
        let pages = page_count as u64;
        let c = CounterMetric::FrameAllocations.index();
        let count = self.counters[c];
        self.counters.set(c, count.saturating_add(pages));
        let g = GaugeMetric::FramesInUse.index();
        let mut gauge = self.gauges[g];
        gauge.add(pages);
        self.gauges.set(g, gauge);
        bump_entry(&mut self.frame_allocated_pages_by_cpu, cpu, pages);
        bump_entry(&mut self.frame_allocated_pages_by_subsystem, subsystem.index(), pages);
    }

    pub fn record_frame_request(&mut self, contiguous: bool)
        ensures
            *final(self) == (PerformanceState {
                frame_requests: final(self).frame_requests,
                frame_contiguous_requests: final(self).frame_contiguous_requests,
                ..*old(self)
            }),
            final(self).frame_requests == wrap_add(old(self).frame_requests, 1),
            final(self).frame_contiguous_requests == (if contiguous {
                wrap_add(old(self).frame_contiguous_requests, 1)
            } else {
                old(self).frame_contiguous_requests
            }),
    {
        self.frame_requests = self.frame_requests.wrapping_add(1);
        if contiguous {
            self.frame_contiguous_requests = self.frame_contiguous_requests.wrapping_add(1);
        }
    }

    pub fn record_frame_free_list_hit(&mut self)
        ensures
            *final(self) == (PerformanceState {
                frame_free_list_hits: final(self).frame_free_list_hits,
                ..*old(self)
            }),
            final(self).frame_free_list_hits == wrap_add(old(self).frame_free_list_hits, 1),
    {
        self.frame_free_list_hits = self.frame_free_list_hits.wrapping_add(1);
    }

    pub fn record_frame_bump_hit(&mut self)
        ensures
            *final(self) == (PerformanceState {
                frame_bump_hits: final(self).frame_bump_hits,
                ..*old(self)
            }),
            final(self).frame_bump_hits == wrap_add(old(self).frame_bump_hits, 1),
    {
        self.frame_bump_hits = self.frame_bump_hits.wrapping_add(1);
    }

    pub fn record_frame_region_examined(&mut self)
        ensures
            *final(self) == (PerformanceState {
                frame_regions_examined: final(self).frame_regions_examined,
                ..*old(self)
            }),
            final(self).frame_regions_examined == wrap_add(old(self).frame_regions_examined, 1),
    {
        self.frame_regions_examined = self.frame_regions_examined.wrapping_add(1);
    }

    /// Cycles from `start` to `now`; zero if the clock appears to run backwards.
    pub fn elapsed_cycles(start: u64, now: u64) -> (r: u64)
        ensures
            r == sat_sub(now as int, start as int),
    {
        now.saturating_sub(start)
    }

    /// Records a frame-zeroing pass of `bytes` bytes that began at `start`
    /// and ended at `now`.
    pub fn record_frame_zero(&mut self, start: u64, bytes: usize, now: u64, subsystem: AllocationSubsystem)
        requires
            old(self).tables_sized(),
        ensures
            *final(self) == (PerformanceState {
                frame_zero_calls: final(self).frame_zero_calls,
                frame_zero_bytes: final(self).frame_zero_bytes,
                frame_zero_cycles: final(self).frame_zero_cycles,
                frame_zero_calls_by_subsystem: final(self).frame_zero_calls_by_subsystem,
                frame_zero_cycles_by_subsystem: final(self).frame_zero_cycles_by_subsystem,
                ..*old(self)
            }),
            final(self).tables_sized(),
            final(self).frame_zero_calls == wrap_add(old(self).frame_zero_calls, 1),
            final(self).frame_zero_bytes == wrap_add(old(self).frame_zero_bytes, bytes as u64),
            final(self).frame_zero_cycles == wrap_add(old(self).frame_zero_cycles, sat_sub(now as int, start as int) as u64),
            final(self).frame_zero_calls_by_subsystem@ == bump(
                old(self).frame_zero_calls_by_subsystem@,
                subsystem_index(subsystem),
                1,
            ),
            final(self).frame_zero_cycles_by_subsystem@ == bump(
                old(self).frame_zero_cycles_by_subsystem@,
                subsystem_index(subsystem),
                sat_sub(now as int, start as int) as u64,
            ),
    {
        self.frame_zero_calls = self.frame_zero_calls.wrapping_add(1);
        self.frame_zero_bytes = self.frame_zero_bytes.wrapping_add(bytes as u64);
        let cycles = Self::elapsed_cycles(start, now);
        self.frame_zero_cycles = self.frame_zero_cycles.wrapping_add(cycles);
        let k = subsystem.index();
        bump_entry(&mut self.frame_zero_calls_by_subsystem, k, 1);
        bump_entry(&mut self.frame_zero_cycles_by_subsystem, k, cycles);
    }

    /// Records a wait for the frame allocator lock from `start` to `now`.
    pub fn record_frame_allocator_lock_wait(&mut self, start: u64, now: u64)
        ensures
            *final(self) == (PerformanceState {
                frame_allocator_lock_wait: final(self).frame_allocator_lock_wait,
                ..*old(self)
            }),
            final(self).frame_allocator_lock_wait.buckets() == old(self).frame_allocator_lock_wait.buckets().update(
                bit_len(sat_sub(now as int, start as int) as nat) as int,
                sat_add(
                    old(self).frame_allocator_lock_wait.buckets()[bit_len(sat_sub(now as int, start as int) as nat) as int] as int,
                    1,
                ) as u64,
            ),
            final(self).frame_allocator_lock_wait.max() == max_int(
                old(self).frame_allocator_lock_wait.max() as int,
                sat_sub(now as int, start as int),
            ),
            final(self).frame_allocator_lock_wait.count() == sat_add(old(self).frame_allocator_lock_wait.count() as int, 1),
            final(self).frame_allocator_lock_wait.sum() == sat_add(
                old(self).frame_allocator_lock_wait.sum() as int,
                sat_sub(now as int, start as int),
            ),
    {
        let cycles = Self::elapsed_cycles(start, now);
        self.frame_allocator_lock_wait.record(cycles);
    }

    pub fn add_frame_recycled(&mut self)
        ensures
            *final(self) == (PerformanceState {
                frame_recycled_pages: final(self).frame_recycled_pages,
                ..*old(self)
            }),
            final(self).frame_recycled_pages == wrap_add(old(self).frame_recycled_pages, 1),
    {
        self.frame_recycled_pages = self.frame_recycled_pages.wrapping_add(1);
    }

    /// One recycled page fewer, never below zero.
    pub fn remove_frame_recycled(&mut self)
        ensures
            *final(self) == (PerformanceState {
                frame_recycled_pages: final(self).frame_recycled_pages,
                ..*old(self)
            }),
            final(self).frame_recycled_pages == sat_sub(old(self).frame_recycled_pages as int, 1),
    {
        self.frame_recycled_pages = self.frame_recycled_pages.saturating_sub(1);
    }

    pub fn clear_frame_recycled(&mut self)
        ensures
            *final(self) == (PerformanceState {
                frame_recycled_pages: final(self).frame_recycled_pages,
                ..*old(self)
            }),
            final(self).frame_recycled_pages == 0,
    {
        self.frame_recycled_pages = 0;
    }

    pub fn frame_recycled_pages(&self) -> (r: u64)
        ensures
            r == self.frame_recycled_pages,
    {
        self.frame_recycled_pages
    }

    /// Describes the clock from the processor's identification and keeps it.
    pub fn initialize_clock(&mut self, id: ClockIdentification) -> (c: ClockInfo)
        ensures
            *final(self) == (PerformanceState {
                clock: final(self).clock,
                clock_initialized: final(self).clock_initialized,
                ..*old(self)
            }),
            c == clock_from(id),
            final(self).clock == c,
            final(self).clock_initialized,
    {
        let rdtscp = id.maximum_extended_leaf >= 0x8000_0001 && id.extended_features_edx & 0x800_0000 != 0;
        let invariant_tsc = id.maximum_extended_leaf >= 0x8000_0007 && id.power_management_edx & 0x100 != 0;
        let (frequency_khz, source) = tsc_frequency(id);
        let info = ClockInfo { invariant_tsc, rdtscp, frequency_khz, source };
        self.clock = info;
        self.clock_initialized = true;
        info
    }

    pub fn clock_info(&self) -> (c: ClockInfo)
        ensures
            c == self.clock,
    {
        self.clock
    }

    /// Whether timestamps are read with `RDTSCP` rather than a fenced `RDTSC`.
    pub fn timestamp_uses_rdtscp(&self) -> (r: bool)
        ensures
            r == (self.clock_initialized && self.clock.rdtscp),
    {
        self.clock_initialized && self.clock.rdtscp
    }

    /// `cycles` of the kept clock in nanoseconds.
    pub fn cycles_to_nanoseconds(&self, cycles: u64) -> (r: Option<u64>)
        ensures
            r == cycles_to_nanoseconds_spec(cycles, self.clock.frequency_khz),
    {
        let frequency_khz = self.clock.frequency_khz as u128;
        if frequency_khz == 0 {
            return None;
        }
        let scaled = (cycles as u128) * 1_000_000;
        let nanoseconds = scaled / frequency_khz;
        if nanoseconds <= 0xffff_ffff_ffff_ffff {
            Some(nanoseconds as u64)
        } else {
            None
        }
    }

    pub fn record_vfs_metadata_query(&mut self)
        ensures
            *final(self) == (PerformanceState {
                vfs_metadata_queries: wrap_add(old(self).vfs_metadata_queries, 1),
                ..*old(self)
            }),
    {
        self.vfs_metadata_queries = self.vfs_metadata_queries.wrapping_add(1);
    }

    pub fn record_vfs_read_range(&mut self)
        ensures
            *final(self) == (PerformanceState {
                vfs_read_range_calls: final(self).vfs_read_range_calls,
                ..*old(self)
            }),
            final(self).vfs_read_range_calls == wrap_add(old(self).vfs_read_range_calls, 1),
    {
        self.vfs_read_range_calls = self.vfs_read_range_calls.wrapping_add(1);
    }

    pub fn record_vfs_write_range(&mut self)
        ensures
            *final(self) == (PerformanceState {
                vfs_write_range_calls: final(self).vfs_write_range_calls,
                ..*old(self)
            }),
            final(self).vfs_write_range_calls == wrap_add(old(self).vfs_write_range_calls, 1),
    {
        self.vfs_write_range_calls = self.vfs_write_range_calls.wrapping_add(1);
    }

    pub fn record_vfs_read(&mut self, requested_bytes: u64, transferred_bytes: u64)
        ensures
            *final(self) == (PerformanceState {
                vfs_read_requested_bytes: final(self).vfs_read_requested_bytes,
                vfs_read_transferred_bytes: final(self).vfs_read_transferred_bytes,
                ..*old(self)
            }),
            final(self).vfs_read_requested_bytes == wrap_add(old(self).vfs_read_requested_bytes, requested_bytes),
            final(self).vfs_read_transferred_bytes == wrap_add(old(self).vfs_read_transferred_bytes, transferred_bytes),
    {
        self.vfs_read_requested_bytes = self.vfs_read_requested_bytes.wrapping_add(requested_bytes);
        self.vfs_read_transferred_bytes = self.vfs_read_transferred_bytes.wrapping_add(transferred_bytes);
    }

    pub fn record_vfs_write(&mut self, requested_bytes: u64, transferred_bytes: u64)
        ensures
            *final(self) == (PerformanceState {
                vfs_write_requested_bytes: final(self).vfs_write_requested_bytes,
                vfs_write_transferred_bytes: final(self).vfs_write_transferred_bytes,
                ..*old(self)
            }),
            final(self).vfs_write_requested_bytes == wrap_add(old(self).vfs_write_requested_bytes, requested_bytes),
            final(self).vfs_write_transferred_bytes == wrap_add(old(self).vfs_write_transferred_bytes, transferred_bytes),
    {
        self.vfs_write_requested_bytes = self.vfs_write_requested_bytes.wrapping_add(requested_bytes);
        self.vfs_write_transferred_bytes = self.vfs_write_transferred_bytes.wrapping_add(transferred_bytes);
    }

    pub fn record_vfs_temporary_buffer(&mut self, bytes: usize)
        ensures
            *final(self) == (PerformanceState {
                vfs_temporary_buffer_allocations: final(self).vfs_temporary_buffer_allocations,
                vfs_temporary_buffer_bytes: final(self).vfs_temporary_buffer_bytes,
                ..*old(self)
            }),
            final(self).vfs_temporary_buffer_allocations == wrap_add(old(self).vfs_temporary_buffer_allocations, 1),
            final(self).vfs_temporary_buffer_bytes == wrap_add(old(self).vfs_temporary_buffer_bytes, bytes as u64),
    {
        self.vfs_temporary_buffer_allocations = self.vfs_temporary_buffer_allocations.wrapping_add(1);
        self.vfs_temporary_buffer_bytes = self.vfs_temporary_buffer_bytes.wrapping_add(bytes as u64);
    }

    pub fn record_vfs_path_clone(&mut self, bytes: usize)
        ensures
            *final(self) == (PerformanceState {
                vfs_path_clone_allocations: final(self).vfs_path_clone_allocations,
                vfs_path_clone_bytes: final(self).vfs_path_clone_bytes,
                ..*old(self)
            }),
            final(self).vfs_path_clone_allocations == wrap_add(old(self).vfs_path_clone_allocations, 1),
            final(self).vfs_path_clone_bytes == wrap_add(old(self).vfs_path_clone_bytes, bytes as u64),
    {
        self.vfs_path_clone_allocations = self.vfs_path_clone_allocations.wrapping_add(1);
        self.vfs_path_clone_bytes = self.vfs_path_clone_bytes.wrapping_add(bytes as u64);
    }
}

/// The distribution a histogram's snapshot is published as: its count,
/// sum and maximum, and the 50th, 95th and 99th percentiles, zero when it
/// is empty.
pub open spec fn percentile_or_zero(h: HistogramSnapshot, numerator: u64) -> u64 {
    if h.count == 0 {
        0
    } else {
        percentile_value(h.buckets@, percentile_rank(h.count as int, numerator as int, 100), h.max)
    }
}

pub open spec fn distribution_of(h: HistogramSnapshot) -> DistributionSnapshot {
    DistributionSnapshot {
        count: h.count,
        sum_cycles: h.sum,
        max_cycles: h.max,
        p50_cycles: percentile_or_zero(h, 50),
        p95_cycles: percentile_or_zero(h, 95),
        p99_cycles: percentile_or_zero(h, 99),
    }
}

/// The snapshot of a live histogram.
pub open spec fn histogram_of(h: AtomicHistogram) -> HistogramSnapshot {
    HistogramSnapshot { buckets: h.buckets_array(), count: h.count(), sum: h.sum(), max: h.max() }
}

pub fn distribution_snapshot(snapshot: &HistogramSnapshot) -> (d: DistributionSnapshot)
    ensures
        d == distribution_of(*snapshot),
{
    DistributionSnapshot {
        count: snapshot.count,
        sum_cycles: snapshot.sum,
        max_cycles: snapshot.max,
        p50_cycles: match snapshot.percentile(50, 100) {
            Some(v) => v,
            None => 0,
        },
        p95_cycles: match snapshot.percentile(95, 100) {
            Some(v) => v,
            None => 0,
        },
        p99_cycles: match snapshot.percentile(99, 100) {
            Some(v) => v,
            None => 0,
        },
    }
}

/// The flags of a snapshot taken with `clock`: instrumented and weak, and
/// whether the TSC is invariant and RDTSCP is available.
pub open spec fn snapshot_flags(clock: ClockInfo) -> u64 {
    let base = PERFORMANCE_FLAG_INSTRUMENTED | PERFORMANCE_FLAG_WEAK_SNAPSHOT;
    let with_tsc = if clock.invariant_tsc { base | PERFORMANCE_FLAG_INVARIANT_TSC } else { base };
    if clock.rdtscp {
        with_tsc | PERFORMANCE_FLAG_RDTSCP
    } else {
        with_tsc
    }
}

/// A gauge as the snapshot publishes it.
pub open spec fn gauge_of(g: AtomicGauge) -> crate::abi::performance::GaugeSnapshot {
    crate::abi::performance::GaugeSnapshot { current: g.current(), peak: g.peak() }
}

/// A timer queue as the snapshot publishes it.
pub open spec fn queue_of(q: TimerQueueCounters) -> TimerQueueSnapshot {
    TimerQueueSnapshot {
        housekeeping: distribution_of(histogram_of(q.housekeeping)),
        full_scans: q.full_scans,
        skipped_checks: q.skipped_checks,
        wakeups: q.wakeups,
    }
}

fn fill_from<const N: usize>(a: &mut [u64; N], v: &Vec<u64>)
    requires
        v@.len() == N,
    ensures
        final(a)@ == v@,
{
    let mut i: usize = 0;
    while i < N
        invariant
            i <= N == v@.len(),
            final(a)@.len() == N,
            a@.len() == N,
            forall|j: int| 0 <= j < i ==> a@[j] == v@[j],
        decreases N - i,
    {
        a[i] = v[i];
        i = i + 1;
    }
    assert(a@ =~= v@);
}

fn queue_snapshot(q: &TimerQueueCounters) -> (s: TimerQueueSnapshot)
    ensures
        s == queue_of(*q),
{
    let h = q.housekeeping.snapshot();
    assert(h == histogram_of(q.housekeeping));
    TimerQueueSnapshot {
        housekeeping: distribution_snapshot(&h),
        full_scans: q.full_scans,
        skipped_checks: q.skipped_checks,
        wakeups: q.wakeups,
    }
}

impl PerformanceState {
    /// Records a check of the timer queue `queue` that ran from `start` to
    /// `now`, scanned it fully or not, and woke `wakeups` tasks.
    pub fn record_timer_queue_check(
        &mut self,
        queue: TimerQueueKind,
        start: u64,
        now: u64,
        full_scan: bool,
        wakeups: usize,
    )
        ensures
            *final(self) == (PerformanceState {
                sleep_queue: final(self).sleep_queue,
                futex_timeout_queue: final(self).futex_timeout_queue,
                ..*old(self)
            }),
            match queue {
                TimerQueueKind::Sleep => queue_checked(
                    old(self).sleep_queue,
                    final(self).sleep_queue,
                    sat_sub(now as int, start as int) as u64,
                    full_scan,
                    wakeups,
                ) && final(self).futex_timeout_queue == old(self).futex_timeout_queue,
                TimerQueueKind::FutexTimeout => queue_checked(
                    old(self).futex_timeout_queue,
                    final(self).futex_timeout_queue,
                    sat_sub(now as int, start as int) as u64,
                    full_scan,
                    wakeups,
                ) && final(self).sleep_queue == old(self).sleep_queue,
            },
    {
        let cycles = Self::elapsed_cycles(start, now);
        match queue {
            TimerQueueKind::Sleep => self.sleep_queue.record_check(cycles, full_scan, wakeups),
            TimerQueueKind::FutexTimeout => self.futex_timeout_queue.record_check(cycles, full_scan, wakeups),
        }
    }

    /// The snapshot the kernel publishes of these measurements. The
    /// latency histograms, merged over the CPUs, and what the frame
    /// allocator, the task table and the heap report are handed in.
    pub fn snapshot(
        &self,
        latencies: &Vec<HistogramSnapshot>,
        usable_frames: u64,
        frame_fragmentation: FrameFragmentationSnapshot,
        kernel_stack_high_water_bytes: u32,
        heap_committed_bytes: u64,
    ) -> (s: KernelPerformanceSnapshot)
        requires
            self.tables_sized(),
            latencies@.len() == LatencyMetric::COUNT,
        ensures
            s.version == PERFORMANCE_SNAPSHOT_VERSION,
            s.size == PERFORMANCE_SNAPSHOT_SIZE,
            s.flags == snapshot_flags(self.clock),
            s.tsc_frequency_khz == self.clock.frequency_khz,
            s.clock_source == self.clock.source.raw_value(),
            s.kernel_stack_high_water_bytes == kernel_stack_high_water_bytes,
            s.usable_frames == usable_frames,
            s.free_frames == sat_sub(
                usable_frames as int,
                sat_add(
                    self.gauges@[gauge_index(GaugeMetric::FramesInUse)].current() as int,
                    self.gauges@[gauge_index(GaugeMetric::FramesQuarantined)].current() as int,
                ),
            ),
            s.heap_capacity_bytes == HEAP_SIZE,
            s.counters@ == self.counters@,
            forall|i: int| 0 <= i < GaugeMetric::COUNT ==> s.gauges@[i] == gauge_of(#[trigger] self.gauges@[i]),
            forall|i: int| 0 <= i < LatencyMetric::COUNT ==> s.latencies@[i] == distribution_of(#[trigger] latencies@[i]),
            s.boot_timestamps@ == self.boot_milestones@,
            s.heap_committed_bytes == heap_committed_bytes,
            s.heap_internal_fragmentation == gauge_of(self.heap_internal_fragmentation),
            s.heap_allocations_by_size@ == self.heap_allocations_by_size@,
            s.heap_allocations_by_cpu@ == self.heap_allocations_by_cpu@,
            s.heap_allocations_by_subsystem@ == self.heap_allocations_by_subsystem@,
            s.frame_allocator.requests == self.frame_requests,
            s.frame_allocator.free_list_hits == self.frame_free_list_hits,
            s.frame_allocator.bump_hits == self.frame_bump_hits,
            s.frame_allocator.contiguous_requests == self.frame_contiguous_requests,
            s.frame_allocator.memory_map_regions_examined == self.frame_regions_examined,
            s.frame_allocator.zero_calls == self.frame_zero_calls,
            s.frame_allocator.zero_bytes == self.frame_zero_bytes,
            s.frame_allocator.zero_cycles == self.frame_zero_cycles,
            s.frame_allocator.failures@ == self.frame_failures@,
            s.frame_allocator_lock_wait == distribution_of(histogram_of(self.frame_allocator_lock_wait)),
            s.frame_fragmentation == frame_fragmentation,
            s.frame_activity.allocated_pages_by_cpu@ == self.frame_allocated_pages_by_cpu@,
            s.frame_activity.allocated_pages_by_subsystem@ == self.frame_allocated_pages_by_subsystem@,
            s.frame_activity.zero_calls_by_subsystem@ == self.frame_zero_calls_by_subsystem@,
            s.frame_activity.zero_cycles_by_subsystem@ == self.frame_zero_cycles_by_subsystem@,
            s.timer_activity.sleep_queue == queue_of(self.sleep_queue),
            s.timer_activity.futex_timeout_queue == queue_of(self.futex_timeout_queue),
            s.vfs_activity == (VfsActivitySnapshot {
                metadata_queries: self.vfs_metadata_queries,
                read_range_calls: self.vfs_read_range_calls,
                write_range_calls: self.vfs_write_range_calls,
                read_requested_bytes: self.vfs_read_requested_bytes,
                read_transferred_bytes: self.vfs_read_transferred_bytes,
                write_requested_bytes: self.vfs_write_requested_bytes,
                write_transferred_bytes: self.vfs_write_transferred_bytes,
                temporary_buffer_allocations: self.vfs_temporary_buffer_allocations,
                temporary_buffer_bytes: self.vfs_temporary_buffer_bytes,
                path_clone_allocations: self.vfs_path_clone_allocations,
                path_clone_bytes: self.vfs_path_clone_bytes,
            }),
    {
        let clock = self.clock;
        let mut flags = PERFORMANCE_FLAG_INSTRUMENTED | PERFORMANCE_FLAG_WEAK_SNAPSHOT;
        if clock.invariant_tsc {
            flags = flags | PERFORMANCE_FLAG_INVARIANT_TSC;
        }
        if clock.rdtscp {
            flags = flags | PERFORMANCE_FLAG_RDTSCP;
        }
        let zero_gauge = crate::abi::performance::GaugeSnapshot { current: 0, peak: 0 };
        let mut gauges = [zero_gauge; 5];
        let mut i: usize = 0;
        while i < 5
            invariant
                i <= 5,
                self.tables_sized(),
                gauges@.len() == 5,
                forall|j: int| 0 <= j < i ==> gauges@[j] == gauge_of(#[trigger] self.gauges@[j]),
            decreases 5 - i,
        {
            let g = self.gauges[i].snapshot();
            gauges[i] = crate::abi::performance::GaugeSnapshot { current: g.current, peak: g.peak };
            i = i + 1;
        }
        let frames_in_use = gauges[GaugeMetric::FramesInUse.index()].current;
        let frames_quarantined = gauges[GaugeMetric::FramesQuarantined.index()].current;
        let zero_distribution = DistributionSnapshot {
            count: 0,
            sum_cycles: 0,
            max_cycles: 0,
            p50_cycles: 0,
            p95_cycles: 0,
            p99_cycles: 0,
        };
        let mut latency_table = [zero_distribution; 18];
        let mut k: usize = 0;
        while k < 18
            invariant
                k <= 18,
                latencies@.len() == 18,
                latency_table@.len() == 18,
                forall|j: int| 0 <= j < k ==> latency_table@[j] == distribution_of(#[trigger] latencies@[j]),
            decreases 18 - k,
        {
            latency_table[k] = distribution_snapshot(&latencies[k]);
            k = k + 1;
        }
        let mut counters = [0u64; 13];
        fill_from(&mut counters, &self.counters);
        let mut boot_timestamps = [0u64; 12];
        fill_from(&mut boot_timestamps, &self.boot_milestones);
        let mut by_size = [0u64; 9];
        fill_from(&mut by_size, &self.heap_allocations_by_size);
        let mut by_cpu = [0u64; 64];
        fill_from(&mut by_cpu, &self.heap_allocations_by_cpu);
        let mut by_subsystem = [0u64; 11];
        fill_from(&mut by_subsystem, &self.heap_allocations_by_subsystem);
        let mut failures = [0u64; 4];
        fill_from(&mut failures, &self.frame_failures);
        let mut pages_by_cpu = [0u64; 64];
        fill_from(&mut pages_by_cpu, &self.frame_allocated_pages_by_cpu);
        let mut pages_by_subsystem = [0u64; 11];
        fill_from(&mut pages_by_subsystem, &self.frame_allocated_pages_by_subsystem);
        let mut zero_calls = [0u64; 11];
        fill_from(&mut zero_calls, &self.frame_zero_calls_by_subsystem);
        let mut zero_cycles = [0u64; 11];
        fill_from(&mut zero_cycles, &self.frame_zero_cycles_by_subsystem);
        let fragmentation = self.heap_internal_fragmentation.snapshot();
        let lock_wait = self.frame_allocator_lock_wait.snapshot();
        assert(lock_wait == histogram_of(self.frame_allocator_lock_wait));
        KernelPerformanceSnapshot {
            version: PERFORMANCE_SNAPSHOT_VERSION,
            size: PERFORMANCE_SNAPSHOT_SIZE,
            flags,
            tsc_frequency_khz: clock.frequency_khz as u64,
            clock_source: clock.source.raw() as u32,
            kernel_stack_high_water_bytes,
            usable_frames,
            free_frames: usable_frames.saturating_sub(frames_in_use.saturating_add(frames_quarantined)),
            heap_capacity_bytes: HEAP_SIZE as u64,
            counters,
            gauges,
            latencies: latency_table,
            boot_timestamps,
            heap_committed_bytes,
            heap_internal_fragmentation: crate::abi::performance::GaugeSnapshot {
                current: fragmentation.current,
                peak: fragmentation.peak,
            },
            heap_allocations_by_size: by_size,
            heap_allocations_by_cpu: by_cpu,
            heap_allocations_by_subsystem: by_subsystem,
            frame_allocator: FrameAllocatorSnapshot {
                requests: self.frame_requests,
                free_list_hits: self.frame_free_list_hits,
                bump_hits: self.frame_bump_hits,
                contiguous_requests: self.frame_contiguous_requests,
                memory_map_regions_examined: self.frame_regions_examined,
                zero_calls: self.frame_zero_calls,
                zero_bytes: self.frame_zero_bytes,
                zero_cycles: self.frame_zero_cycles,
                failures,
            },
            frame_allocator_lock_wait: distribution_snapshot(&lock_wait),
            frame_fragmentation,
            frame_activity: FrameActivitySnapshot {
                allocated_pages_by_cpu: pages_by_cpu,
                allocated_pages_by_subsystem: pages_by_subsystem,
                zero_calls_by_subsystem: zero_calls,
                zero_cycles_by_subsystem: zero_cycles,
            },
            timer_activity: TimerActivitySnapshot {
                sleep_queue: queue_snapshot(&self.sleep_queue),
                futex_timeout_queue: queue_snapshot(&self.futex_timeout_queue),
            },
            vfs_activity: VfsActivitySnapshot {
                metadata_queries: self.vfs_metadata_queries,
                read_range_calls: self.vfs_read_range_calls,
                write_range_calls: self.vfs_write_range_calls,
                read_requested_bytes: self.vfs_read_requested_bytes,
                read_transferred_bytes: self.vfs_read_transferred_bytes,
                write_requested_bytes: self.vfs_write_requested_bytes,
                write_transferred_bytes: self.vfs_write_transferred_bytes,
                temporary_buffer_allocations: self.vfs_temporary_buffer_allocations,
                temporary_buffer_bytes: self.vfs_temporary_buffer_bytes,
                path_clone_allocations: self.vfs_path_clone_allocations,
                path_clone_bytes: self.vfs_path_clone_bytes,
            },
        }
    }
}

} // verus!
