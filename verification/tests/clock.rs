use std::time::{SystemTime, UNIX_EPOCH};

use orbidata::clock::{add_seconds, is_before, nanos_between, utc_now, whole_minutes_between, whole_seconds_between, Timestamp};

fn at(secs: i64, nanos: u32) -> Timestamp {
    Timestamp { secs, nanos }
}

#[test]
fn clock_reads_current_time() {
    let before = SystemTime::now().duration_since(UNIX_EPOCH).unwrap().as_secs() as i64;
    let now = utc_now().expect("clock after the Unix epoch");
    let after = SystemTime::now().duration_since(UNIX_EPOCH).unwrap().as_secs() as i64;
    assert!(before <= now.secs && now.secs <= after);
    assert!(now.nanos < 1_000_000_000);
}

#[test]
fn spans_in_nanoseconds() {
    assert_eq!(nanos_between(at(10, 5), at(9, 999_999_999)), 6);
    assert_eq!(nanos_between(at(9, 0), at(10, 0)), -1_000_000_000);
}

#[test]
fn whole_seconds_round_toward_zero() {
    assert_eq!(whole_seconds_between(at(61, 500), at(1, 0)), 60);
    assert_eq!(whole_seconds_between(at(60, 999_999_999), at(1, 0)), 59);
    assert_eq!(whole_seconds_between(at(1, 0), at(2, 500_000_000)), -1);
    assert_eq!(whole_seconds_between(at(1, 0), at(1, 500_000_000)), 0);
}

#[test]
fn whole_minutes_round_toward_zero() {
    assert_eq!(whole_minutes_between(at(5_400, 0), at(0, 0)), 90);
    assert_eq!(whole_minutes_between(at(5_399, 999_999_999), at(0, 0)), 89);
    assert_eq!(whole_minutes_between(at(0, 0), at(119, 0)), -1);
    assert_eq!(whole_minutes_between(at(0, 0), at(59, 0)), 0);
}

#[test]
fn ordering_and_offsets() {
    assert!(is_before(at(1, 999_999_999), at(2, 0)));
    assert!(!is_before(at(2, 0), at(2, 0)));
    assert!(!is_before(at(3, 0), at(2, 999_999_999)));
    assert_eq!(add_seconds(at(100, 7), 60), at(160, 7));
}
