use mnu::metrics::{AtomicGauge, AtomicHistogram, GaugeSnapshot};

#[test]
fn records_zero_and_power_of_two_boundaries() {
    let mut histogram = AtomicHistogram::new();
    for value in [0, 1, 2, 3, 4, u64::MAX] {
        histogram.record(value);
    }
    let snapshot = histogram.snapshot();
    assert_eq!(snapshot.buckets[0], 1);
    assert_eq!(snapshot.buckets[1], 1);
    assert_eq!(snapshot.buckets[2], 2);
    assert_eq!(snapshot.buckets[3], 1);
    assert_eq!(snapshot.buckets[64], 1);
    assert_eq!(snapshot.count, 6);
    assert_eq!(snapshot.max, u64::MAX);
}

#[test]
fn reports_bounded_percentiles() {
    let mut histogram = AtomicHistogram::new();
    for value in 1..=100 {
        histogram.record(value);
    }
    let snapshot = histogram.snapshot();
    assert_eq!(snapshot.percentile(50, 100), Some(63));
    assert_eq!(snapshot.percentile(95, 100), Some(127));
    assert_eq!(snapshot.percentile(99, 100), Some(127));
    assert_eq!(snapshot.mean(), Some(50));
}

#[test]
fn rejects_empty_and_invalid_percentiles() {
    let snapshot = AtomicHistogram::new().snapshot();
    assert_eq!(snapshot.percentile(50, 100), None);
    assert_eq!(snapshot.percentile(1, 0), None);
    assert_eq!(snapshot.percentile(101, 100), None);
    assert_eq!(snapshot.mean(), None);
}

#[test]
fn gauge_tracks_current_and_peak_values() {
    let mut gauge = AtomicGauge::new();
    gauge.add(40);
    gauge.add(2);
    gauge.subtract(10);
    gauge.add(5);
    assert_eq!(gauge.snapshot(), GaugeSnapshot { current: 37, peak: 42 });
}

#[test]
fn gauge_does_not_underflow() {
    let mut gauge = AtomicGauge::new();
    gauge.add(4);
    gauge.subtract(10);
    assert_eq!(gauge.snapshot().current, 0);
    assert_eq!(gauge.snapshot().peak, 4);
}

#[test]
fn gauge_and_histogram_saturate() {
    let mut gauge = AtomicGauge::new();
    gauge.add(u64::MAX);
    gauge.add(1);
    assert_eq!(gauge.snapshot(), GaugeSnapshot { current: u64::MAX, peak: u64::MAX });
    let mut histogram = AtomicHistogram::new();
    histogram.record(u64::MAX);
    histogram.record(u64::MAX);
    let snapshot = histogram.snapshot();
    assert_eq!(snapshot.sum, u64::MAX);
    assert_eq!(snapshot.percentile(1, 1), Some(u64::MAX));
    assert_eq!(snapshot.percentile(0, 1), Some(u64::MAX));
}
