use mnu::abi::boot::{BootInfo, SmpHandoff};
use mnu::abi::performance::{FrameActivitySnapshot, KernelPerformanceSnapshot};
use mnu::metrics::{AtomicGauge, AtomicHistogram};
use mnu::virtio::feature::FeatureSet;

#[test]
fn default_metrics_are_empty() {
    let gauge = AtomicGauge::default().snapshot();
    assert_eq!((gauge.current, gauge.peak), (0, 0));
    let histogram = AtomicHistogram::default().snapshot();
    assert_eq!((histogram.count, histogram.sum, histogram.max), (0, 0, 0));
}

#[test]
fn default_snapshots_are_zero() {
    let activity = FrameActivitySnapshot::default();
    assert!(activity.allocated_pages_by_cpu.iter().all(|v| *v == 0));
    let snapshot = KernelPerformanceSnapshot::default();
    assert_eq!(snapshot.version, 0);
    assert_eq!(snapshot.size, 0);
    assert!(snapshot.counters.iter().all(|v| *v == 0));
    assert_eq!(snapshot.frame_activity, activity);
    assert_eq!(snapshot.vfs_activity.path_clone_bytes, 0);
}

#[test]
fn default_boot_records() {
    let info = BootInfo::default();
    assert!(info.validate().is_ok());
    assert_eq!(info.cpu_total, 1);
    assert_eq!(SmpHandoff::default(), SmpHandoff::new());
}

#[test]
fn feature_sets_from_bits() {
    let features = FeatureSet::from(0b1010);
    assert_eq!(features.bits(), 0b1010);
    assert_eq!(features, FeatureSet::new(0b1010));
}
