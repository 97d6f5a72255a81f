use ids::clock::{nanos_since, stamp_at, timestamp_from_nanos, LAST_SHORT_STAMP};
use std::time::Instant;

fn short() -> regex::Regex {
    regex::Regex::new(r"^[0-9]{4}-[0-9]{2}-[0-9]{2} [0-9]{2}:[0-9]{2}:[0-9]{2}$").unwrap()
}

fn tail() -> regex::Regex {
    regex::Regex::new(r"^.{4,}-[0-9]{2}-[0-9]{2} [0-9]{2}:[0-9]{2}:[0-9]{2}$").unwrap()
}

#[test]
fn timestamps_from_nanoseconds() {
    assert_eq!(timestamp_from_nanos(0), 0);
    assert_eq!(timestamp_from_nanos(5), 5);
    assert_eq!(timestamp_from_nanos(60_000_000_000), 60_000_000_000);
    assert_eq!(timestamp_from_nanos(i128::MAX as u128), i128::MAX);
    assert_eq!(timestamp_from_nanos(i128::MAX as u128 + 1), i128::MAX);
    assert_eq!(timestamp_from_nanos(u128::MAX), i128::MAX);
}

#[test]
fn monotonic_clock_counts_from_its_start() {
    let start = Instant::now();
    let a = nanos_since(&start);
    let b = nanos_since(&start);
    assert!(0 <= a && a <= b);
    assert!(b < 20_000_000_000);
    let later = Instant::now();
    // A start that lies after the reading gives no negative time.
    assert!(nanos_since(&later) >= 0);
}

#[test]
fn stamps_of_the_four_digit_years() {
    for secs in [0u64, 1, 59, 86_399, 86_400, 951_782_400, 1_709_296_245, LAST_SHORT_STAMP] {
        for nanos in [0u32, 1, 999_999_999] {
            let stamp = stamp_at(secs, nanos).unwrap();
            assert_eq!(stamp.len(), 19);
            assert!(short().is_match(&stamp), "stamp was {:?}", stamp);
        }
    }
    let first = stamp_at(0, 0).unwrap();
    assert!(first.starts_with("1970-01-01") || first.starts_with("1969-12-31"));
    let last = stamp_at(LAST_SHORT_STAMP, 0).unwrap();
    assert!(last.starts_with("9999-12-3"));
}

#[test]
fn stamps_beyond_the_four_digit_years() {
    // The first second of the year 10000, and the last second of chrono's calendar.
    for secs in [253_402_300_800u64, 8_210_266_876_799] {
        let stamp = stamp_at(secs, 0).unwrap();
        assert!(stamp.len() >= 19);
        assert!(tail().is_match(&stamp), "stamp was {:?}", stamp);
    }
    // A leap second is written as second 60.
    let leap = stamp_at(59, 1_500_000_000).unwrap();
    assert!(tail().is_match(&leap), "stamp was {:?}", leap);
    assert!(leap.ends_with(":60"));
}

#[test]
fn moments_without_stamp() {
    assert_eq!(stamp_at(u64::MAX, 0), None);
    assert_eq!(stamp_at(i64::MAX as u64 + 1, 0), None);
    assert_eq!(stamp_at(i64::MAX as u64, 0), None);
    assert_eq!(stamp_at(0, 2_000_000_000), None);
    assert_eq!(stamp_at(0, 1_000_000_000), None);
}
