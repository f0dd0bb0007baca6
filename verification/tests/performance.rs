use mnu::abi::performance::{FrameFragmentationSnapshot, PERFORMANCE_SNAPSHOT_SIZE, PERFORMANCE_SNAPSHOT_VERSION};
use mnu::performance::TimerQueueKind;
use mnu::abi::performance::{AllocationSubsystem, BootMilestone, CounterMetric, FrameAllocationFailure, GaugeMetric};
use mnu::performance::{
    AllocationContexts, ClockIdentification, ClockInfo, ClockSource, PerformanceState,
    ALLOCATION_THREAD_SLOTS,
};

fn identification() -> ClockIdentification {
    ClockIdentification {
        maximum_extended_leaf: 0x8000_0008,
        extended_features_edx: 1 << 27,
        power_management_edx: 1 << 8,
        maximum_basic_leaf: 0x16,
        crystal_denominator: 2,
        crystal_numerator: 176,
        crystal_hz: 24_000_000,
        hypervisor_khz: 0,
    }
}

#[test]
fn clock_source_raw_values_round_trip() {
    for source in [ClockSource::Unavailable, ClockSource::HypervisorVirtual, ClockSource::CpuidCrystal] {
        assert_eq!(ClockSource::from_raw(source.raw()), source);
    }
    assert_eq!(ClockSource::from_raw(9), ClockSource::Unavailable);
}

#[test]
fn crystal_ratio_gives_tsc_frequency() {
    let mut state = PerformanceState::new();
    assert!(!state.timestamp_uses_rdtscp());
    let info = state.initialize_clock(identification());
    assert_eq!(
        info,
        ClockInfo { invariant_tsc: true, rdtscp: true, frequency_khz: 2_112_000, source: ClockSource::CpuidCrystal }
    );
    assert_eq!(state.clock_info(), info);
    assert!(state.timestamp_uses_rdtscp());
    assert_eq!(state.cycles_to_nanoseconds(2_112_000), Some(1_000_000));
}

#[test]
fn hypervisor_frequency_wins() {
    let mut state = PerformanceState::new();
    let mut id = identification();
    id.hypervisor_khz = 3_000_000;
    id.maximum_extended_leaf = 0x8000_0000;
    let info = state.initialize_clock(id);
    assert_eq!(info.frequency_khz, 3_000_000);
    assert_eq!(info.source, ClockSource::HypervisorVirtual);
    assert!(!info.rdtscp);
    assert!(!info.invariant_tsc);
}

#[test]
fn incomplete_crystal_leaf_is_unavailable() {
    let mut state = PerformanceState::new();
    let mut id = identification();
    id.crystal_denominator = 0;
    let info = state.initialize_clock(id);
    assert_eq!(info.source, ClockSource::Unavailable);
    assert_eq!(info.frequency_khz, 0);
    assert_eq!(state.cycles_to_nanoseconds(100), None);
    id = identification();
    id.maximum_basic_leaf = 0x14;
    assert_eq!(state.initialize_clock(id).source, ClockSource::Unavailable);
}

#[test]
fn nanoseconds_that_do_not_fit_are_refused() {
    let mut state = PerformanceState::new();
    let mut id = identification();
    id.hypervisor_khz = 1;
    state.initialize_clock(id);
    assert_eq!(state.cycles_to_nanoseconds(u64::MAX), None);
    assert_eq!(state.cycles_to_nanoseconds(7), Some(7_000_000));
}

#[test]
fn counters_and_recycled_pages() {
    let mut state = PerformanceState::new();
    state.record_frame_request(true);
    state.record_frame_request(false);
    assert_eq!(state.frame_requests, 2);
    assert_eq!(state.frame_contiguous_requests, 1);
    state.record_frame_free_list_hit();
    state.record_frame_bump_hit();
    state.record_frame_region_examined();
    assert_eq!((state.frame_free_list_hits, state.frame_bump_hits, state.frame_regions_examined), (1, 1, 1));
    state.remove_frame_recycled();
    assert_eq!(state.frame_recycled_pages(), 0);
    state.add_frame_recycled();
    state.add_frame_recycled();
    state.remove_frame_recycled();
    assert_eq!(state.frame_recycled_pages(), 1);
    state.clear_frame_recycled();
    assert_eq!(state.frame_recycled_pages(), 0);
}

#[test]
fn frame_zero_and_lock_wait_use_elapsed_cycles() {
    let mut state = PerformanceState::new();
    assert_eq!(PerformanceState::elapsed_cycles(10, 4), 0);
    assert_eq!(PerformanceState::elapsed_cycles(4, 10), 6);
    state.record_frame_zero(100, 4096, 160, AllocationSubsystem::Vfs);
    state.record_frame_zero(200, 4096, 150, AllocationSubsystem::Vfs);
    assert_eq!(state.frame_zero_calls, 2);
    assert_eq!(state.frame_zero_bytes, 8192);
    assert_eq!(state.frame_zero_cycles, 60);
    assert_eq!(state.frame_zero_calls_by_subsystem[3], 2);
    assert_eq!(state.frame_zero_cycles_by_subsystem[3], 60);
    state.record_frame_allocator_lock_wait(5, 25);
    let snapshot = state.frame_allocator_lock_wait.snapshot();
    assert_eq!((snapshot.count, snapshot.sum, snapshot.max), (1, 20, 20));
}

#[test]
fn heap_fragmentation_gauge() {
    let mut state = PerformanceState::new();
    state.record_heap_allocation(24, 32, 2, AllocationSubsystem::Ipc);
    state.record_heap_allocation(40, 32, 2, AllocationSubsystem::Other);
    assert_eq!(state.heap_allocations_by_size[0], 0);
    assert_eq!(state.heap_allocations_by_size[1], 2);
    assert_eq!(state.heap_allocations_by_cpu[2], 2);
    assert_eq!(state.heap_allocations_by_subsystem[2], 1);
    assert_eq!(state.heap_allocations_by_subsystem[0], 1);
    assert_eq!(state.heap_internal_fragmentation.snapshot().current, 8);
    state.record_heap_deallocation(16, 64);
    let snapshot = state.heap_internal_fragmentation.snapshot();
    assert_eq!((snapshot.current, snapshot.peak), (0, 8));
}

#[test]
fn allocation_scopes_restore_the_previous_subsystem() {
    let mut contexts = AllocationContexts::new();
    let thread = AllocationContexts::context_index(Some(3), 1);
    assert_eq!(thread, 3);
    let cpu = AllocationContexts::context_index(Some(ALLOCATION_THREAD_SLOTS), 1);
    assert_eq!(cpu, ALLOCATION_THREAD_SLOTS + 1);
    assert_eq!(AllocationContexts::context_index(None, 0), ALLOCATION_THREAD_SLOTS);
    let outer = contexts.enter(thread, AllocationSubsystem::Vfs);
    let inner = contexts.enter(thread, AllocationSubsystem::BlockIo);
    assert_eq!(contexts.current(thread), AllocationSubsystem::BlockIo);
    contexts.leave(inner);
    assert_eq!(contexts.current(thread), AllocationSubsystem::Vfs);
    contexts.leave(outer);
    assert_eq!(contexts.current(thread), AllocationSubsystem::Other);
    assert_eq!(contexts.current(cpu), AllocationSubsystem::Other);
}

#[test]
fn vfs_counters() {
    let mut state = PerformanceState::new();
    state.record_vfs_metadata_query();
    state.record_vfs_read_range();
    state.record_vfs_write_range();
    assert_eq!(state.vfs_metadata_queries, 1);
    assert_eq!(state.vfs_read_range_calls, 1);
    assert_eq!(state.vfs_write_range_calls, 1);
}

#[test]
fn vfs_byte_counters() {
    let mut state = PerformanceState::new();
    state.record_vfs_read(4096, 100);
    state.record_vfs_write(10, 10);
    state.record_vfs_temporary_buffer(512);
    state.record_vfs_path_clone(12);
    assert_eq!((state.vfs_read_requested_bytes, state.vfs_read_transferred_bytes), (4096, 100));
    assert_eq!((state.vfs_write_requested_bytes, state.vfs_write_transferred_bytes), (10, 10));
    assert_eq!((state.vfs_temporary_buffer_allocations, state.vfs_temporary_buffer_bytes), (1, 512));
    assert_eq!((state.vfs_path_clone_allocations, state.vfs_path_clone_bytes), (1, 12));
}

#[test]
fn counters_saturate_and_gauges_track_peaks() {
    let mut state = PerformanceState::new();
    state.increment(CounterMetric::PageFaults, 5);
    state.increment(CounterMetric::PageFaults, u64::MAX);
    assert_eq!(state.counter(CounterMetric::PageFaults), u64::MAX);
    assert_eq!(state.counter(CounterMetric::HeapFrees), 0);
    state.gauge_add(GaugeMetric::HeapLiveBytes, 100);
    state.gauge_subtract(GaugeMetric::HeapLiveBytes, 30);
    let gauge = state.gauge_snapshot(GaugeMetric::HeapLiveBytes);
    assert_eq!((gauge.current, gauge.peak), (70, 100));
    state.gauge_subtract(GaugeMetric::FramesInUse, 1);
    assert_eq!(state.gauge_snapshot(GaugeMetric::FramesInUse).current, 0);
}

#[test]
fn boot_milestones_keep_the_first_time() {
    let mut state = PerformanceState::new();
    assert_eq!(state.boot_milestone(BootMilestone::BspReady), None);
    state.mark_boot(BootMilestone::BspReady, 0);
    assert_eq!(state.boot_milestone(BootMilestone::BspReady), Some(1));
    state.mark_boot(BootMilestone::BspReady, 900);
    assert_eq!(state.boot_milestone(BootMilestone::BspReady), Some(1));
    state.mark_boot(BootMilestone::Idle, 777);
    assert_eq!(state.boot_milestone(BootMilestone::Idle), Some(777));
}

#[test]
fn frame_allocations_and_failures() {
    let mut state = PerformanceState::new();
    state.record_frame_allocation(3, 1, AllocationSubsystem::PageFault);
    state.record_frame_allocation(2, 1, AllocationSubsystem::PageFault);
    assert_eq!(state.counter(CounterMetric::FrameAllocations), 5);
    assert_eq!(state.gauge_snapshot(GaugeMetric::FramesInUse).current, 5);
    assert_eq!(state.frame_allocated_pages_by_cpu[1], 5);
    assert_eq!(state.frame_allocated_pages_by_subsystem[4], 5);
    state.record_frame_failure(FrameAllocationFailure::Exhausted);
    assert_eq!(state.frame_failures, vec![0, 1, 0, 0]);
}

fn empty_histogram() -> mnu::metrics::HistogramSnapshot {
    mnu::metrics::HistogramSnapshot { buckets: [0; 65], count: 0, sum: 0, max: 0 }
}

#[test]
fn snapshot_publishes_counters_and_derived_values() {
    let mut state = PerformanceState::new();
    state.initialize_clock(identification());
    state.increment(CounterMetric::FrameAllocations, 5);
    state.gauge_add(GaugeMetric::FramesInUse, 30);
    state.gauge_add(GaugeMetric::FramesQuarantined, 12);
    state.gauge_subtract(GaugeMetric::FramesInUse, 10);
    state.record_frame_request(true);
    state.record_vfs_read(100, 60);
    state.record_frame_allocator_lock_wait(10, 14);
    state.record_timer_queue_check(TimerQueueKind::Sleep, 100, 108, true, 3);
    state.record_timer_queue_check(TimerQueueKind::Sleep, 100, 90, false, 0);
    state.mark_boot(BootMilestone::MnuEntry, 77);
    let mut latencies = vec![empty_histogram(); 18];
    latencies[1].count = 1;
    latencies[1].sum = 5;
    latencies[1].max = 5;
    latencies[1].buckets[3] = 1;
    let fragmentation = FrameFragmentationSnapshot { bump_free_pages: 1, recycled_pages: 2, largest_contiguous_pages: 3 };
    let s = state.snapshot(&latencies, 40, fragmentation, 8192, 4096);
    assert_eq!(s.version, PERFORMANCE_SNAPSHOT_VERSION);
    assert_eq!(s.size, PERFORMANCE_SNAPSHOT_SIZE);
    // instrumented | invariant TSC | RDTSCP | weak
    assert_eq!(s.flags, 0b1111);
    assert_eq!(s.clock_source, 2);
    assert_eq!(s.tsc_frequency_khz, 2_112_000);
    assert_eq!(s.usable_frames, 40);
    // 40 - (20 in use + 12 quarantined)
    assert_eq!(s.free_frames, 8);
    assert_eq!(s.gauges[GaugeMetric::FramesInUse as usize].current, 20);
    assert_eq!(s.gauges[GaugeMetric::FramesInUse as usize].peak, 30);
    assert_eq!(s.counters[CounterMetric::FrameAllocations as usize], 5);
    assert_eq!(s.frame_allocator.requests, 1);
    assert_eq!(s.frame_allocator.contiguous_requests, 1);
    assert_eq!(s.vfs_activity.read_requested_bytes, 100);
    assert_eq!(s.vfs_activity.read_transferred_bytes, 60);
    assert_eq!(s.frame_allocator_lock_wait.count, 1);
    assert_eq!(s.frame_allocator_lock_wait.sum_cycles, 4);
    assert_eq!(s.timer_activity.sleep_queue.housekeeping.count, 2);
    assert_eq!(s.timer_activity.sleep_queue.housekeeping.sum_cycles, 8);
    assert_eq!(s.timer_activity.sleep_queue.full_scans, 1);
    assert_eq!(s.timer_activity.sleep_queue.skipped_checks, 1);
    assert_eq!(s.timer_activity.sleep_queue.wakeups, 3);
    assert_eq!(s.timer_activity.futex_timeout_queue.housekeeping.count, 0);
    assert_eq!(s.latencies[0].count, 0);
    assert_eq!(s.latencies[0].p50_cycles, 0);
    assert_eq!(s.latencies[1].count, 1);
    assert_eq!(s.latencies[1].p99_cycles, 7);
    assert_eq!(s.boot_timestamps[BootMilestone::MnuEntry as usize], 77);
    assert_eq!(s.kernel_stack_high_water_bytes, 8192);
    assert_eq!(s.heap_committed_bytes, 4096);
    assert_eq!(s.heap_capacity_bytes, 32 * 1024 * 1024);
    assert_eq!(s.frame_fragmentation, fragmentation);
}

#[test]
fn snapshot_of_fresh_state_is_weak_and_instrumented_only() {
    let state = PerformanceState::new();
    let latencies = vec![empty_histogram(); 18];
    let s = state.snapshot(&latencies, 0, Default::default(), 0, 0);
    assert_eq!(s.flags, 0b1001);
    assert_eq!(s.clock_source, 0);
    assert_eq!(s.free_frames, 0);
}
