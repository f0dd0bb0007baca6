use mnu::time::{unix_seconds, days_in_month, leap_year, Error, UtcDateTime};

#[test]
fn converts_valid_utc_to_unix_seconds() {
    assert_eq!(
        unix_seconds(UtcDateTime { year: 2024, month: 2, day: 29, hour: 12, minute: 34, second: 56 }),
        Ok(1_709_210_096)
    );
}

#[test]
fn rejects_invalid_dates_and_years() {
    assert_eq!(
        unix_seconds(UtcDateTime { year: 2019, month: 1, day: 1, hour: 0, minute: 0, second: 0 }),
        Err(Error::InvalidYear)
    );
    assert_eq!(
        unix_seconds(UtcDateTime { year: 2023, month: 2, day: 29, hour: 0, minute: 0, second: 0 }),
        Err(Error::InvalidDate)
    );
    assert_eq!(
        unix_seconds(UtcDateTime { year: 2024, month: 13, day: 1, hour: 0, minute: 0, second: 0 }),
        Err(Error::InvalidDate)
    );
}

#[test]
fn utc_epoch_progress_is_separate_from_monotonic_elapsed_time() {
    let base = unix_seconds(UtcDateTime { year: 2025, month: 1, day: 1, hour: 0, minute: 0, second: 0 });
    assert_eq!(base, Ok(1_735_689_600));
    let monotonic_elapsed_seconds = 5u64;
    assert_eq!(base.map(|seconds| seconds + monotonic_elapsed_seconds), Ok(1_735_689_605));
    assert_ne!(monotonic_elapsed_seconds, 1_735_689_605);
}

#[test]
fn leap_years_follow_the_gregorian_rule() {
    assert!(leap_year(2024));
    assert!(!leap_year(2023));
    assert!(!leap_year(2100));
    assert!(leap_year(2000));
    assert_eq!(days_in_month(2024, 2), Some(29));
    assert_eq!(days_in_month(2023, 2), Some(28));
    assert_eq!(days_in_month(2023, 4), Some(30));
    assert_eq!(days_in_month(2023, 0), None);
}

#[test]
fn rejects_out_of_range_clock_fields() {
    assert_eq!(
        unix_seconds(UtcDateTime { year: 2024, month: 1, day: 1, hour: 24, minute: 0, second: 0 }),
        Err(Error::InvalidDate)
    );
    assert_eq!(
        unix_seconds(UtcDateTime { year: 2100, month: 1, day: 1, hour: 0, minute: 0, second: 0 }),
        Err(Error::InvalidYear)
    );
    assert_eq!(
        unix_seconds(UtcDateTime { year: 2099, month: 12, day: 31, hour: 23, minute: 59, second: 59 }),
        Ok(4_102_444_799)
    );
}
