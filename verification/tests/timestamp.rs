use chrono::{DateTime, TimeDelta, Timelike, Utc};
use transaction_pipeline::timestamp::{Timestamp, FIRST_SECOND, LAST_SECOND};

fn at(secs: i64, nanos: u32) -> Timestamp {
    Timestamp::new(secs, nanos).unwrap()
}

#[test]
fn the_calendar_has_the_bounds_of_chrono() {
    assert_eq!(FIRST_SECOND, DateTime::<Utc>::MIN_UTC.timestamp());
    assert_eq!(LAST_SECOND, DateTime::<Utc>::MAX_UTC.timestamp());
    assert!(Timestamp::new(FIRST_SECOND, 0).is_some());
    assert!(Timestamp::new(FIRST_SECOND - 1, 0).is_none());
    assert!(Timestamp::new(LAST_SECOND, 999_999_999).is_some());
    assert!(Timestamp::new(LAST_SECOND + 1, 0).is_none());
    assert!(Timestamp::new(i64::MAX, 0).is_none());
    assert!(Timestamp::new(i64::MIN, 0).is_none());
}

#[test]
fn leap_seconds_end_a_minute() {
    assert!(Timestamp::new(59, 1_000_000_000).is_some());
    assert!(Timestamp::new(-1, 1_999_999_999).is_some());
    assert!(Timestamp::new(58, 1_000_000_000).is_none());
    assert!(Timestamp::new(59, 2_000_000_000).is_none());
}

#[test]
fn a_timestamp_is_its_two_numbers() {
    let t = at(-7, 12);
    assert_eq!((t.secs(), t.nanos()), (-7, 12));
    assert_eq!(t, at(-7, 12));
    assert_ne!(t, at(-7, 13));
}

#[test]
fn the_clock_is_that_of_chrono() {
    let before = Utc::now().timestamp();
    let now = Timestamp::now();
    let after = Utc::now().timestamp();
    assert!(before <= now.secs() && now.secs() <= after);
    assert!(now.nanos() < 1_000_000_000);
}

#[test]
fn seconds_are_subtracted() {
    assert_eq!(at(100, 5).minus_seconds(60), Some(at(40, 5)));
    assert_eq!(at(100, 5).minus_seconds(-60), Some(at(160, 5)));
    assert_eq!(at(30, 5).minus_seconds(60), Some(at(-30, 5)));
    assert_eq!(at(30, 5).minus_seconds(0), Some(at(30, 5)));
}

#[test]
fn subtraction_steps_out_of_a_leap_second() {
    let leap = at(59, 1_300_000_000);
    assert_eq!(leap.minus_seconds(0), Some(leap));
    assert_eq!(leap.minus_seconds(1), Some(at(59, 300_000_000)));
    assert_eq!(leap.minus_seconds(60), Some(at(0, 300_000_000)));
    assert_eq!(leap.minus_seconds(-1), Some(at(60, 300_000_000)));
}

#[test]
fn subtraction_ends_with_the_calendar() {
    assert_eq!(at(FIRST_SECOND + 60, 7).minus_seconds(60), Some(at(FIRST_SECOND, 7)));
    assert_eq!(at(FIRST_SECOND + 60, 7).minus_seconds(61), None);
    assert_eq!(at(LAST_SECOND, 7).minus_seconds(-1), None);
    assert_eq!(at(LAST_SECOND, 1_000_000_007).minus_seconds(1), Some(at(LAST_SECOND, 7)));
    assert_eq!(at(LAST_SECOND, 0).minus_seconds(LAST_SECOND - FIRST_SECOND), Some(at(FIRST_SECOND, 0)));
    assert_eq!(at(0, 0).minus_seconds(i64::MAX), None);
    assert_eq!(at(0, 0).minus_seconds(i64::MIN), None);
}

#[test]
fn subtraction_is_that_of_chrono() {
    for secs in [-86_401, -60, -1, 0, 59, 119, 86_399, 1_700_000_039] {
        for nanos in [0, 1, 999_999_999, 1_000_000_000, 1_999_999_999] {
            if let Some(t) = Timestamp::new(secs, nanos) {
                for n in [-86_400, -61, -1, 0, 1, 59, 60, 61, 86_400] {
                    let d = DateTime::<Utc>::from_timestamp(secs, nanos).unwrap() - TimeDelta::seconds(n);
                    let e = t.minus_seconds(n).unwrap();
                    assert_eq!((e.secs(), e.nanos()), (d.timestamp(), d.timestamp_subsec_nanos()));
                }
            }
        }
    }
}

#[test]
fn the_order_is_that_of_chrono() {
    let all = [(-1, 1_500_000_000), (-1, 5), (0, 0), (0, 1), (59, 999_999_999), (59, 1_000_000_000), (60, 0)];
    for a in all {
        for b in all {
            let da = DateTime::<Utc>::from_timestamp(a.0, a.1).unwrap();
            let db = DateTime::<Utc>::from_timestamp(b.0, b.1).unwrap();
            assert_eq!(at(a.0, a.1).before(&at(b.0, b.1)), da < db);
        }
    }
}

#[test]
fn hours_of_the_day() {
    assert_eq!(at(0, 0).hour(), 0);
    assert_eq!(at(3_599, 999_999_999).hour(), 0);
    assert_eq!(at(3_600, 0).hour(), 1);
    assert_eq!(at(86_399, 1_999_999_999).hour(), 23);
    assert_eq!(at(-1, 0).hour(), 23);
    assert_eq!(at(-86_400, 0).hour(), 0);
    assert_eq!(
        at(1_700_000_000, 0).hour(),
        DateTime::<Utc>::from_timestamp(1_700_000_000, 0).unwrap().hour(),
    );
}

#[test]
fn the_calendar_is_that_of_chrono() {
    for base in [FIRST_SECOND, -120, 0, 1_700_000_000, LAST_SECOND - 60] {
        for secs in base - 1..base + 62 {
            for nanos in [0, 999_999_999, 1_000_000_000, 1_999_999_999, 2_000_000_000, u32::MAX] {
                assert_eq!(
                    Timestamp::new(secs, nanos).is_some(),
                    DateTime::<Utc>::from_timestamp(secs, nanos).is_some(),
                );
            }
        }
    }
}
