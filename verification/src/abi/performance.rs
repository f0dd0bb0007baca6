//! Layout of the kernel performance snapshot and the metric identifiers it is
//! indexed by.

use vstd::prelude::*;

verus! {

pub const PERFORMANCE_SNAPSHOT_VERSION: u32 = 7;
pub const PERFORMANCE_SNAPSHOT_V1_SIZE: usize = 1_200;
pub const PERFORMANCE_SNAPSHOT_V2_SIZE: usize = 1_896;
pub const PERFORMANCE_SNAPSHOT_V3_SIZE: usize = 1_992;
pub const PERFORMANCE_SNAPSHOT_V4_SIZE: usize = 2_064;
pub const PERFORMANCE_SNAPSHOT_V5_SIZE: usize = 2_840;
pub const PERFORMANCE_SNAPSHOT_V6_SIZE: usize = 2_984;
/// Size in bytes of the C layout of the whole snapshot.
pub const PERFORMANCE_SNAPSHOT_SIZE: u32 = 3_072;
pub const PERFORMANCE_CPU_SLOTS: usize = 64;

pub const PERFORMANCE_FLAG_INSTRUMENTED: u64 = 1 << 0;
pub const PERFORMANCE_FLAG_INVARIANT_TSC: u64 = 1 << 1;
pub const PERFORMANCE_FLAG_RDTSCP: u64 = 1 << 2;
pub const PERFORMANCE_FLAG_WEAK_SNAPSHOT: u64 = 1 << 3;

pub const CLOCK_SOURCE_UNAVAILABLE: u32 = 0;
pub const CLOCK_SOURCE_HYPERVISOR: u32 = 1;
pub const CLOCK_SOURCE_CPUID_CRYSTAL: u32 = 2;

/// Latency distributions, indexed from 0 in declaration order.
#[derive(Clone, Copy, Debug, PartialEq, Eq, Structural)]
pub enum LatencyMetric {
    IpcSmallOneWay,
    IpcSmallRoundTrip,
    IpcFourKilobytes,
    IpcLockWait,
    IpcWakeup,
    ContextSwitch,
    SchedulerRunQueue,
    SchedulerWakeup,
    VfsPathLookup,
    VfsOpen,
    VfsRead,
    VfsWrite,
    VfsClose,
    VfsStat,
    ExecParse,
    ExecLoad,
    ExecRelocate,
    ExecEntry,
}

impl LatencyMetric {
    pub const COUNT: usize = 18;
}

/// Monotonic counters, indexed from 0 in declaration order.
#[derive(Clone, Copy, Debug, PartialEq, Eq, Structural)]
pub enum CounterMetric {
    HeapAllocations,
    HeapAllocationBytes,
    HeapFrees,
    HeapFreedBytes,
    HeapAllocationFailures,
    FrameAllocations,
    FrameFrees,
    IpcBytesCopied,
    IpcSendAllocations,
    IpcReceiveAllocations,
    TimerInterrupts,
    PageFaults,
    ExecutableBytesRead,
}

impl CounterMetric {
    pub const COUNT: usize = 13;
}

/// Gauges, indexed from 0 in declaration order.
#[derive(Clone, Copy, Debug, PartialEq, Eq, Structural)]
pub enum GaugeMetric {
    HeapLiveBytes,
    HeapReservedBytes,
    HeapQuarantinedBytes,
    FramesInUse,
    FramesQuarantined,
}

impl GaugeMetric {
    pub const COUNT: usize = 5;
}

/// Boot milestones, indexed from 0 in declaration order.
#[derive(Clone, Copy, Debug, PartialEq, Eq, Structural)]
pub enum BootMilestone {
    MnuEntry,
    EarlyMemoryReady,
    PageAllocatorReady,
    BspReady,
    ApReady,
    SchedulerStarted,
    FilesystemMounted,
    SystemServicesStarted,
    CompositorStarted,
    UserInterfaceStarted,
    UserInterfaceFirstFrame,
    Idle,
}

impl BootMilestone {
    pub const COUNT: usize = 12;
}

/// Heap allocation size classes by requested byte count.
#[derive(Clone, Copy, Debug, PartialEq, Eq, Structural)]
pub enum HeapAllocationSizeClass {
    Bytes16,
    Bytes64,
    Bytes256,
    Bytes1024,
    Bytes4096,
    Bytes16384,
    Bytes65536,
    Bytes262144,
    Larger,
}

/// Class an allocation of `size` bytes is counted in: the smallest listed bound
/// that is at least `size`.
pub open spec fn size_class(size: int) -> HeapAllocationSizeClass {
    if size <= 16 {
        HeapAllocationSizeClass::Bytes16
    } else if size <= 64 {
        HeapAllocationSizeClass::Bytes64
    } else if size <= 256 {
        HeapAllocationSizeClass::Bytes256
    } else if size <= 1_024 {
        HeapAllocationSizeClass::Bytes1024
    } else if size <= 4_096 {
        HeapAllocationSizeClass::Bytes4096
    } else if size <= 16_384 {
        HeapAllocationSizeClass::Bytes16384
    } else if size <= 65_536 {
        HeapAllocationSizeClass::Bytes65536
    } else if size <= 262_144 {
        HeapAllocationSizeClass::Bytes262144
    } else {
        HeapAllocationSizeClass::Larger
    }
}

impl HeapAllocationSizeClass {
    pub const COUNT: usize = 9;

    pub fn for_size(size: usize) -> (c: Self)
        ensures
            c == size_class(size as int),
    {
        if size <= 16 {
            HeapAllocationSizeClass::Bytes16
        } else if size <= 64 {
            HeapAllocationSizeClass::Bytes64
        } else if size <= 256 {
            HeapAllocationSizeClass::Bytes256
        } else if size <= 1_024 {
            HeapAllocationSizeClass::Bytes1024
        } else if size <= 4_096 {
            HeapAllocationSizeClass::Bytes4096
        } else if size <= 16_384 {
            HeapAllocationSizeClass::Bytes16384
        } else if size <= 65_536 {
            HeapAllocationSizeClass::Bytes65536
        } else if size <= 262_144 {
            HeapAllocationSizeClass::Bytes262144
        } else {
            HeapAllocationSizeClass::Larger
        }
    }
}

/// Subsystems an allocation is charged to, indexed from 0 in declaration order.
#[derive(Clone, Copy, Debug, PartialEq, Eq, Structural)]
pub enum AllocationSubsystem {
    Other,
    Scheduler,
    Ipc,
    Vfs,
    PageFault,
    NetworkReceive,
    NetworkTransmit,
    BlockIo,
    ProcessCreation,
    ThreadCreation,
    Syscall,
}

impl AllocationSubsystem {
    pub const COUNT: usize = 11;
}

/// Reasons a frame allocation fails, indexed from 0 in declaration order.
#[derive(Clone, Copy, Debug, PartialEq, Eq, Structural)]
pub enum FrameAllocationFailure {
    AllocatorUnavailable,
    Exhausted,
    InvalidContiguousRequest,
    ContiguousUnavailable,
}

impl FrameAllocationFailure {
    pub const COUNT: usize = 4;
}

#[derive(Clone, Copy, Debug, Default, PartialEq, Eq, Structural)]
pub struct DistributionSnapshot {
    pub count: u64,
    pub sum_cycles: u64,
    pub max_cycles: u64,
    pub p50_cycles: u64,
    pub p95_cycles: u64,
    pub p99_cycles: u64,
}

#[derive(Clone, Copy, Debug, Default, PartialEq, Eq, Structural)]
pub struct GaugeSnapshot {
    pub current: u64,
    pub peak: u64,
}

#[derive(Clone, Copy, Debug, Default, PartialEq, Eq)]
pub struct FrameAllocatorSnapshot {
    pub requests: u64,
    pub free_list_hits: u64,
    pub bump_hits: u64,
    pub contiguous_requests: u64,
    pub memory_map_regions_examined: u64,
    pub zero_calls: u64,
    pub zero_bytes: u64,
    pub zero_cycles: u64,
    pub failures: [u64; 4],
}

#[derive(Clone, Copy, Debug, Default, PartialEq, Eq, Structural)]
pub struct FrameFragmentationSnapshot {
    pub bump_free_pages: u64,
    pub recycled_pages: u64,
    pub largest_contiguous_pages: u64,
}

#[derive(Clone, Copy, Debug, PartialEq, Eq)]
pub struct FrameActivitySnapshot {
    pub allocated_pages_by_cpu: [u64; 64],
    pub allocated_pages_by_subsystem: [u64; 11],
    pub zero_calls_by_subsystem: [u64; 11],
    pub zero_cycles_by_subsystem: [u64; 11],
}

#[derive(Clone, Copy, Debug, Default, PartialEq, Eq, Structural)]
pub struct TimerQueueSnapshot {
    pub housekeeping: DistributionSnapshot,
    pub full_scans: u64,
    pub skipped_checks: u64,
    pub wakeups: u64,
}

#[derive(Clone, Copy, Debug, Default, PartialEq, Eq, Structural)]
pub struct TimerActivitySnapshot {
    pub sleep_queue: TimerQueueSnapshot,
    pub futex_timeout_queue: TimerQueueSnapshot,
}

#[derive(Clone, Copy, Debug, Default, PartialEq, Eq, Structural)]
pub struct VfsActivitySnapshot {
    pub metadata_queries: u64,
    pub read_range_calls: u64,
    pub write_range_calls: u64,
    pub read_requested_bytes: u64,
    pub read_transferred_bytes: u64,
    pub write_requested_bytes: u64,
    pub write_transferred_bytes: u64,
    pub temporary_buffer_allocations: u64,
    pub temporary_buffer_bytes: u64,
    pub path_clone_allocations: u64,
    pub path_clone_bytes: u64,
}

/// `a - b`, or zero when `b` exceeds `a`.
pub open spec fn floor_sub(a: u64, b: u64) -> u64 {
    if a >= b { (a - b) as u64 } else { 0 }
}

impl VfsActivitySnapshot {
    /// Activity recorded since `earlier`, every field clamped at zero.
    pub fn saturating_sub(self, earlier: Self) -> (d: Self)
        ensures
            d.metadata_queries == floor_sub(self.metadata_queries, earlier.metadata_queries),
            d.read_range_calls == floor_sub(self.read_range_calls, earlier.read_range_calls),
            d.write_range_calls == floor_sub(self.write_range_calls, earlier.write_range_calls),
            d.read_requested_bytes == floor_sub(
                self.read_requested_bytes,
                earlier.read_requested_bytes,
            ),
            d.read_transferred_bytes == floor_sub(
                self.read_transferred_bytes,
                earlier.read_transferred_bytes,
            ),
            d.write_requested_bytes == floor_sub(
                self.write_requested_bytes,
                earlier.write_requested_bytes,
            ),
            d.write_transferred_bytes == floor_sub(
                self.write_transferred_bytes,
                earlier.write_transferred_bytes,
            ),
            d.temporary_buffer_allocations == floor_sub(
                self.temporary_buffer_allocations,
                earlier.temporary_buffer_allocations,
            ),
            d.temporary_buffer_bytes == floor_sub(
                self.temporary_buffer_bytes,
                earlier.temporary_buffer_bytes,
            ),
            d.path_clone_allocations == floor_sub(
                self.path_clone_allocations,
                earlier.path_clone_allocations,
            ),
            d.path_clone_bytes == floor_sub(self.path_clone_bytes, earlier.path_clone_bytes),
    {
        VfsActivitySnapshot {
            metadata_queries: self.metadata_queries.saturating_sub(earlier.metadata_queries),
            read_range_calls: self.read_range_calls.saturating_sub(earlier.read_range_calls),
            write_range_calls: self.write_range_calls.saturating_sub(earlier.write_range_calls),
            read_requested_bytes: self.read_requested_bytes.saturating_sub(
                earlier.read_requested_bytes,
            ),
            read_transferred_bytes: self.read_transferred_bytes.saturating_sub(
                earlier.read_transferred_bytes,
            ),
            write_requested_bytes: self.write_requested_bytes.saturating_sub(
                earlier.write_requested_bytes,
            ),
            write_transferred_bytes: self.write_transferred_bytes.saturating_sub(
                earlier.write_transferred_bytes,
            ),
            temporary_buffer_allocations: self.temporary_buffer_allocations.saturating_sub(
                earlier.temporary_buffer_allocations,
            ),
            temporary_buffer_bytes: self.temporary_buffer_bytes.saturating_sub(
                earlier.temporary_buffer_bytes,
            ),
            path_clone_allocations: self.path_clone_allocations.saturating_sub(
                earlier.path_clone_allocations,
            ),
            path_clone_bytes: self.path_clone_bytes.saturating_sub(earlier.path_clone_bytes),
        }
    }
}

/// The snapshot of kernel performance counters exported to user space.
#[derive(Clone, Copy, Debug, PartialEq, Eq)]
pub struct KernelPerformanceSnapshot {
    pub version: u32,
    pub size: u32,
    pub flags: u64,
    pub tsc_frequency_khz: u64,
    pub clock_source: u32,
    /// Largest use of one kernel stack observed by an instrumented build.
    pub kernel_stack_high_water_bytes: u32,
    pub usable_frames: u64,
    pub free_frames: u64,
    pub heap_capacity_bytes: u64,
    pub counters: [u64; 13],
    pub gauges: [GaugeSnapshot; 5],
    pub latencies: [DistributionSnapshot; 18],
    pub boot_timestamps: [u64; 12],
    pub heap_committed_bytes: u64,
    pub heap_internal_fragmentation: GaugeSnapshot,
    pub heap_allocations_by_size: [u64; 9],
    pub heap_allocations_by_cpu: [u64; 64],
    pub heap_allocations_by_subsystem: [u64; 11],
    pub frame_allocator: FrameAllocatorSnapshot,
    pub frame_allocator_lock_wait: DistributionSnapshot,
    pub frame_fragmentation: FrameFragmentationSnapshot,
    pub frame_activity: FrameActivitySnapshot,
    pub timer_activity: TimerActivitySnapshot,
    pub vfs_activity: VfsActivitySnapshot,
}

/// Whether every counter of `a` is zero.
pub open spec fn activity_zero(a: FrameActivitySnapshot) -> bool {
    &&& a.allocated_pages_by_cpu@ == Seq::new(64, |i: int| 0u64)
    &&& a.allocated_pages_by_subsystem@ == Seq::new(11, |i: int| 0u64)
    &&& a.zero_calls_by_subsystem@ == Seq::new(11, |i: int| 0u64)
    &&& a.zero_cycles_by_subsystem@ == Seq::new(11, |i: int| 0u64)
}

impl Default for FrameActivitySnapshot {
    fn default() -> (a: Self)
        ensures
            activity_zero(a),
    {
        let a = FrameActivitySnapshot {
            allocated_pages_by_cpu: [0u64; 64],
            allocated_pages_by_subsystem: [0u64; 11],
            zero_calls_by_subsystem: [0u64; 11],
            zero_cycles_by_subsystem: [0u64; 11],
        };
        assert(a.allocated_pages_by_cpu@ =~= Seq::new(64, |i: int| 0u64));
        assert(a.allocated_pages_by_subsystem@ =~= Seq::new(11, |i: int| 0u64));
        assert(a.zero_calls_by_subsystem@ =~= Seq::new(11, |i: int| 0u64));
        assert(a.zero_cycles_by_subsystem@ =~= Seq::new(11, |i: int| 0u64));
        a
    }
}

/// A snapshot with nothing recorded: version and size zero, every counter,
/// gauge and distribution zero.
pub open spec fn snapshot_zero(s: KernelPerformanceSnapshot) -> bool {
    let g = GaugeSnapshot { current: 0, peak: 0 };
    let d = DistributionSnapshot { count: 0, sum_cycles: 0, max_cycles: 0, p50_cycles: 0, p95_cycles: 0, p99_cycles: 0 };
    let q = TimerQueueSnapshot { housekeeping: d, full_scans: 0, skipped_checks: 0, wakeups: 0 };
    &&& s.version == 0 && s.size == 0 && s.flags == 0 && s.tsc_frequency_khz == 0 && s.clock_source == 0
    &&& s.kernel_stack_high_water_bytes == 0 && s.usable_frames == 0 && s.free_frames == 0
    &&& s.heap_capacity_bytes == 0 && s.heap_committed_bytes == 0
    &&& s.counters@ == Seq::new(13, |i: int| 0u64)
    &&& s.gauges@ == Seq::new(5, |i: int| g)
    &&& s.latencies@ == Seq::new(18, |i: int| d)
    &&& s.boot_timestamps@ == Seq::new(12, |i: int| 0u64)
    &&& s.heap_internal_fragmentation == g
    &&& s.heap_allocations_by_size@ == Seq::new(9, |i: int| 0u64)
    &&& s.heap_allocations_by_cpu@ == Seq::new(64, |i: int| 0u64)
    &&& s.heap_allocations_by_subsystem@ == Seq::new(11, |i: int| 0u64)
    &&& s.frame_allocator.requests == 0 && s.frame_allocator.free_list_hits == 0
    &&& s.frame_allocator.bump_hits == 0 && s.frame_allocator.contiguous_requests == 0
    &&& s.frame_allocator.memory_map_regions_examined == 0 && s.frame_allocator.zero_calls == 0
    &&& s.frame_allocator.zero_bytes == 0 && s.frame_allocator.zero_cycles == 0
    &&& s.frame_allocator.failures@ == Seq::new(4, |i: int| 0u64)
    &&& s.frame_allocator_lock_wait == d
    &&& s.frame_fragmentation == (FrameFragmentationSnapshot { bump_free_pages: 0, recycled_pages: 0, largest_contiguous_pages: 0 })
    &&& activity_zero(s.frame_activity)
    &&& s.timer_activity == (TimerActivitySnapshot { sleep_queue: q, futex_timeout_queue: q })
    &&& s.vfs_activity == (VfsActivitySnapshot {
        metadata_queries: 0,
        read_range_calls: 0,
        write_range_calls: 0,
        read_requested_bytes: 0,
        read_transferred_bytes: 0,
        write_requested_bytes: 0,
        write_transferred_bytes: 0,
        temporary_buffer_allocations: 0,
        temporary_buffer_bytes: 0,
        path_clone_allocations: 0,
        path_clone_bytes: 0,
    })
}

impl Default for KernelPerformanceSnapshot {
    fn default() -> (s: Self)
        ensures
            snapshot_zero(s),
    {
        let g = GaugeSnapshot { current: 0, peak: 0 };
        let d = DistributionSnapshot { count: 0, sum_cycles: 0, max_cycles: 0, p50_cycles: 0, p95_cycles: 0, p99_cycles: 0 };
        let q = TimerQueueSnapshot { housekeeping: d, full_scans: 0, skipped_checks: 0, wakeups: 0 };
        let s = KernelPerformanceSnapshot {
            version: 0,
            size: 0,
            flags: 0,
            tsc_frequency_khz: 0,
            clock_source: 0,
            kernel_stack_high_water_bytes: 0,
            usable_frames: 0,
            free_frames: 0,
            heap_capacity_bytes: 0,
            counters: [0u64; 13],
            gauges: [g; 5],
            latencies: [d; 18],
            boot_timestamps: [0u64; 12],
            heap_committed_bytes: 0,
            heap_internal_fragmentation: g,
            heap_allocations_by_size: [0u64; 9],
            heap_allocations_by_cpu: [0u64; 64],
            heap_allocations_by_subsystem: [0u64; 11],
            frame_allocator: FrameAllocatorSnapshot {
                requests: 0,
                free_list_hits: 0,
                bump_hits: 0,
                contiguous_requests: 0,
                memory_map_regions_examined: 0,
                zero_calls: 0,
                zero_bytes: 0,
                zero_cycles: 0,
                failures: [0u64; 4],
            },
            frame_allocator_lock_wait: d,
            frame_fragmentation: FrameFragmentationSnapshot { bump_free_pages: 0, recycled_pages: 0, largest_contiguous_pages: 0 },
            frame_activity: FrameActivitySnapshot::default(),
            timer_activity: TimerActivitySnapshot { sleep_queue: q, futex_timeout_queue: q },
            vfs_activity: VfsActivitySnapshot {
                metadata_queries: 0,
                read_range_calls: 0,
                write_range_calls: 0,
                read_requested_bytes: 0,
                read_transferred_bytes: 0,
                write_requested_bytes: 0,
                write_transferred_bytes: 0,
                temporary_buffer_allocations: 0,
                temporary_buffer_bytes: 0,
                path_clone_allocations: 0,
                path_clone_bytes: 0,
            },
        };
        assert(s.counters@ =~= Seq::new(13, |i: int| 0u64));
        assert(s.gauges@ =~= Seq::new(5, |i: int| g));
        assert(s.latencies@ =~= Seq::new(18, |i: int| d));
        assert(s.boot_timestamps@ =~= Seq::new(12, |i: int| 0u64));
        assert(s.heap_allocations_by_size@ =~= Seq::new(9, |i: int| 0u64));
        assert(s.heap_allocations_by_cpu@ =~= Seq::new(64, |i: int| 0u64));
        assert(s.heap_allocations_by_subsystem@ =~= Seq::new(11, |i: int| 0u64));
        assert(s.frame_allocator.failures@ =~= Seq::new(4, |i: int| 0u64));
        s
    }
}


/// Position of `m` in declaration order.
pub open spec fn latency_index(m: LatencyMetric) -> int {
    match m {
        LatencyMetric::IpcSmallOneWay => 0,
        LatencyMetric::IpcSmallRoundTrip => 1,
        LatencyMetric::IpcFourKilobytes => 2,
        LatencyMetric::IpcLockWait => 3,
        LatencyMetric::IpcWakeup => 4,
        LatencyMetric::ContextSwitch => 5,
        LatencyMetric::SchedulerRunQueue => 6,
        LatencyMetric::SchedulerWakeup => 7,
        LatencyMetric::VfsPathLookup => 8,
        LatencyMetric::VfsOpen => 9,
        LatencyMetric::VfsRead => 10,
        LatencyMetric::VfsWrite => 11,
        LatencyMetric::VfsClose => 12,
        LatencyMetric::VfsStat => 13,
        LatencyMetric::ExecParse => 14,
        LatencyMetric::ExecLoad => 15,
        LatencyMetric::ExecRelocate => 16,
        LatencyMetric::ExecEntry => 17,
    }
}

impl LatencyMetric {
    pub fn index(self) -> (i: usize)
        ensures
            i == latency_index(self),
            i < 18,
    {
        match self {
            LatencyMetric::IpcSmallOneWay => 0,
            LatencyMetric::IpcSmallRoundTrip => 1,
            LatencyMetric::IpcFourKilobytes => 2,
            LatencyMetric::IpcLockWait => 3,
            LatencyMetric::IpcWakeup => 4,
            LatencyMetric::ContextSwitch => 5,
            LatencyMetric::SchedulerRunQueue => 6,
            LatencyMetric::SchedulerWakeup => 7,
            LatencyMetric::VfsPathLookup => 8,
            LatencyMetric::VfsOpen => 9,
            LatencyMetric::VfsRead => 10,
            LatencyMetric::VfsWrite => 11,
            LatencyMetric::VfsClose => 12,
            LatencyMetric::VfsStat => 13,
            LatencyMetric::ExecParse => 14,
            LatencyMetric::ExecLoad => 15,
            LatencyMetric::ExecRelocate => 16,
            LatencyMetric::ExecEntry => 17,
        }
    }
}

/// Position of `m` in declaration order.
pub open spec fn counter_index(m: CounterMetric) -> int {
    match m {
        CounterMetric::HeapAllocations => 0,
        CounterMetric::HeapAllocationBytes => 1,
        CounterMetric::HeapFrees => 2,
        CounterMetric::HeapFreedBytes => 3,
        CounterMetric::HeapAllocationFailures => 4,
        CounterMetric::FrameAllocations => 5,
        CounterMetric::FrameFrees => 6,
        CounterMetric::IpcBytesCopied => 7,
        CounterMetric::IpcSendAllocations => 8,
        CounterMetric::IpcReceiveAllocations => 9,
        CounterMetric::TimerInterrupts => 10,
        CounterMetric::PageFaults => 11,
        CounterMetric::ExecutableBytesRead => 12,
    }
}

impl CounterMetric {
    pub fn index(self) -> (i: usize)
        ensures
            i == counter_index(self),
            i < 13,
    {
        match self {
            CounterMetric::HeapAllocations => 0,
            CounterMetric::HeapAllocationBytes => 1,
            CounterMetric::HeapFrees => 2,
            CounterMetric::HeapFreedBytes => 3,
            CounterMetric::HeapAllocationFailures => 4,
            CounterMetric::FrameAllocations => 5,
            CounterMetric::FrameFrees => 6,
            CounterMetric::IpcBytesCopied => 7,
            CounterMetric::IpcSendAllocations => 8,
            CounterMetric::IpcReceiveAllocations => 9,
            CounterMetric::TimerInterrupts => 10,
            CounterMetric::PageFaults => 11,
            CounterMetric::ExecutableBytesRead => 12,
        }
    }
}

/// Position of `m` in declaration order.
pub open spec fn gauge_index(m: GaugeMetric) -> int {
    match m {
        GaugeMetric::HeapLiveBytes => 0,
        GaugeMetric::HeapReservedBytes => 1,
        GaugeMetric::HeapQuarantinedBytes => 2,
        GaugeMetric::FramesInUse => 3,
        GaugeMetric::FramesQuarantined => 4,
    }
}

impl GaugeMetric {
    pub fn index(self) -> (i: usize)
        ensures
            i == gauge_index(self),
            i < 5,
    {
        match self {
            GaugeMetric::HeapLiveBytes => 0,
            GaugeMetric::HeapReservedBytes => 1,
            GaugeMetric::HeapQuarantinedBytes => 2,
            GaugeMetric::FramesInUse => 3,
            GaugeMetric::FramesQuarantined => 4,
        }
    }
}

/// Position of `m` in declaration order.
pub open spec fn milestone_index(m: BootMilestone) -> int {
    match m {
        BootMilestone::MnuEntry => 0,
        BootMilestone::EarlyMemoryReady => 1,
        BootMilestone::PageAllocatorReady => 2,
        BootMilestone::BspReady => 3,
        BootMilestone::ApReady => 4,
        BootMilestone::SchedulerStarted => 5,
        BootMilestone::FilesystemMounted => 6,
        BootMilestone::SystemServicesStarted => 7,
        BootMilestone::CompositorStarted => 8,
        BootMilestone::UserInterfaceStarted => 9,
        BootMilestone::UserInterfaceFirstFrame => 10,
        BootMilestone::Idle => 11,
    }
}

impl BootMilestone {
    pub fn index(self) -> (i: usize)
        ensures
            i == milestone_index(self),
            i < 12,
    {
        match self {
            BootMilestone::MnuEntry => 0,
            BootMilestone::EarlyMemoryReady => 1,
            BootMilestone::PageAllocatorReady => 2,
            BootMilestone::BspReady => 3,
            BootMilestone::ApReady => 4,
            BootMilestone::SchedulerStarted => 5,
            BootMilestone::FilesystemMounted => 6,
            BootMilestone::SystemServicesStarted => 7,
            BootMilestone::CompositorStarted => 8,
            BootMilestone::UserInterfaceStarted => 9,
            BootMilestone::UserInterfaceFirstFrame => 10,
            BootMilestone::Idle => 11,
        }
    }
}

/// Position of `m` in declaration order.
pub open spec fn size_class_index(m: HeapAllocationSizeClass) -> int {
    match m {
        HeapAllocationSizeClass::Bytes16 => 0,
        HeapAllocationSizeClass::Bytes64 => 1,
        HeapAllocationSizeClass::Bytes256 => 2,
        HeapAllocationSizeClass::Bytes1024 => 3,
        HeapAllocationSizeClass::Bytes4096 => 4,
        HeapAllocationSizeClass::Bytes16384 => 5,
        HeapAllocationSizeClass::Bytes65536 => 6,
        HeapAllocationSizeClass::Bytes262144 => 7,
        HeapAllocationSizeClass::Larger => 8,
    }
}

impl HeapAllocationSizeClass {
    pub fn index(self) -> (i: usize)
        ensures
            i == size_class_index(self),
            i < 9,
    {
        match self {
            HeapAllocationSizeClass::Bytes16 => 0,
            HeapAllocationSizeClass::Bytes64 => 1,
            HeapAllocationSizeClass::Bytes256 => 2,
            HeapAllocationSizeClass::Bytes1024 => 3,
            HeapAllocationSizeClass::Bytes4096 => 4,
            HeapAllocationSizeClass::Bytes16384 => 5,
            HeapAllocationSizeClass::Bytes65536 => 6,
            HeapAllocationSizeClass::Bytes262144 => 7,
            HeapAllocationSizeClass::Larger => 8,
        }
    }
}

/// Position of `m` in declaration order.
pub open spec fn subsystem_index(m: AllocationSubsystem) -> int {
    match m {
        AllocationSubsystem::Other => 0,
        AllocationSubsystem::Scheduler => 1,
        AllocationSubsystem::Ipc => 2,
        AllocationSubsystem::Vfs => 3,
        AllocationSubsystem::PageFault => 4,
        AllocationSubsystem::NetworkReceive => 5,
        AllocationSubsystem::NetworkTransmit => 6,
        AllocationSubsystem::BlockIo => 7,
        AllocationSubsystem::ProcessCreation => 8,
        AllocationSubsystem::ThreadCreation => 9,
        AllocationSubsystem::Syscall => 10,
    }
}

impl AllocationSubsystem {
    pub fn index(self) -> (i: usize)
        ensures
            i == subsystem_index(self),
            i < 11,
    {
        match self {
            AllocationSubsystem::Other => 0,
            AllocationSubsystem::Scheduler => 1,
            AllocationSubsystem::Ipc => 2,
            AllocationSubsystem::Vfs => 3,
            AllocationSubsystem::PageFault => 4,
            AllocationSubsystem::NetworkReceive => 5,
            AllocationSubsystem::NetworkTransmit => 6,
            AllocationSubsystem::BlockIo => 7,
            AllocationSubsystem::ProcessCreation => 8,
            AllocationSubsystem::ThreadCreation => 9,
            AllocationSubsystem::Syscall => 10,
        }
    }
}

/// Position of `m` in declaration order.
pub open spec fn failure_index(m: FrameAllocationFailure) -> int {
    match m {
        FrameAllocationFailure::AllocatorUnavailable => 0,
        FrameAllocationFailure::Exhausted => 1,
        FrameAllocationFailure::InvalidContiguousRequest => 2,
        FrameAllocationFailure::ContiguousUnavailable => 3,
    }
}

impl FrameAllocationFailure {
    pub fn index(self) -> (i: usize)
        ensures
            i == failure_index(self),
            i < 4,
    {
        match self {
            FrameAllocationFailure::AllocatorUnavailable => 0,
            FrameAllocationFailure::Exhausted => 1,
            FrameAllocationFailure::InvalidContiguousRequest => 2,
            FrameAllocationFailure::ContiguousUnavailable => 3,
        }
    }
}

} // verus!
