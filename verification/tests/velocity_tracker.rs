use transaction_pipeline::timestamp::{Timestamp, FIRST_SECOND, LAST_SECOND};
use transaction_pipeline::velocity_tracker::VelocityTracker;

fn at(secs: i64, nanos: u32) -> Timestamp {
    Timestamp::new(secs, nanos).unwrap()
}

#[test]
fn flags_when_over_threshold_within_window() {
    let mut tracker = VelocityTracker::new();
    let now = Timestamp::now();

    // threshold = 3, so the 4th transaction within 60s should flag.
    assert!(!tracker.record_and_check("acct-1", now, 60, 3));
    assert!(!tracker.record_and_check("acct-1", now, 60, 3));
    assert!(!tracker.record_and_check("acct-1", now, 60, 3));
    assert!(tracker.record_and_check("acct-1", now, 60, 3));
}

#[test]
fn does_not_flag_once_old_transactions_expire_out_of_window() {
    let mut tracker = VelocityTracker::new();
    let t0 = Timestamp::now();

    tracker.record_and_check("acct-2", t0, 60, 2);
    tracker.record_and_check("acct-2", t0, 60, 2);

    // 61 seconds later the earlier ones have left the 60s window.
    let t1 = Timestamp::new(t0.secs() + 61, t0.nanos()).unwrap();
    assert!(!tracker.record_and_check("acct-2", t1, 60, 2));
}

#[test]
fn tracks_accounts_independently() {
    let mut tracker = VelocityTracker::new();
    let now = Timestamp::now();

    tracker.record_and_check("acct-a", now, 60, 1);
    // acct-b's first transaction should not be affected by acct-a's history.
    assert!(!tracker.record_and_check("acct-b", now, 60, 1));
}

#[test]
fn the_window_includes_its_start() {
    let mut tracker = VelocityTracker::new();
    assert!(!tracker.record_and_check("a", at(1_000, 500), 60, 1));
    assert!(tracker.record_and_check("a", at(1_060, 500), 60, 1));

    let mut tracker = VelocityTracker::new();
    assert!(!tracker.record_and_check("a", at(1_000, 499), 60, 1));
    assert!(!tracker.record_and_check("a", at(1_060, 500), 60, 1));
}

#[test]
fn the_newest_transaction_counts() {
    let mut tracker = VelocityTracker::new();
    assert!(tracker.record_and_check("a", at(1_000, 0), 0, 0));
    assert!(tracker.record_and_check("a", at(1_000, 0), 60, 0));
}

#[test]
fn a_window_in_the_future_keeps_nothing() {
    let mut tracker = VelocityTracker::new();
    assert!(!tracker.record_and_check("a", at(1_000, 0), -1, 0));
    assert!(!tracker.record_and_check("a", at(1_001, 0), -1, 0));
}

#[test]
fn interleaved_accounts_keep_their_own_windows() {
    let mut tracker = VelocityTracker::new();
    for i in 0..3 {
        assert!(!tracker.record_and_check("a", at(1_000 + i, 0), 60, 3));
        assert!(!tracker.record_and_check("b", at(1_000 + 30 * i, 0), 60, 3));
    }
    assert!(tracker.record_and_check("a", at(1_003, 0), 60, 3));
    // The window of b now starts at 1090 - 60 and has lost the first one.
    assert!(!tracker.record_and_check("b", at(1_090, 0), 60, 3));
    assert!(tracker.record_and_check("b", at(1_090, 0), 60, 3));
}

#[test]
fn a_late_arrival_leaves_the_window_like_any_other() {
    let mut tracker = VelocityTracker::new();
    assert!(!tracker.record_and_check("a", at(100, 0), 60, 2));
    assert!(!tracker.record_and_check("a", at(50, 0), 60, 2));
    // The window starts at 90: it holds 100 and 150, and not 50.
    assert!(!tracker.record_and_check("a", at(150, 0), 60, 2));
    assert!(tracker.record_and_check("a", at(150, 0), 60, 2));

    let mut tracker = VelocityTracker::new();
    assert!(!tracker.record_and_check("a", at(200, 0), 60, 2));
    assert!(!tracker.record_and_check("a", at(100, 0), 60, 2));
    assert!(!tracker.record_and_check("a", at(250, 0), 60, 2));
}

#[test]
fn a_late_arrival_does_not_count_newer_transactions() {
    let mut tracker = VelocityTracker::new();
    assert!(!tracker.record_and_check("a", at(1_000, 0), 60, 1));
    assert!(!tracker.record_and_check("a", at(100, 0), 60, 1));
    assert!(tracker.record_and_check("a", at(100, 0), 60, 1));
    // The newer one was kept for its own window.
    assert!(tracker.record_and_check("a", at(1_001, 0), 60, 1));
}

#[test]
fn a_leap_second_moves_the_window_ahead() {
    let mut tracker = VelocityTracker::new();
    assert!(!tracker.record_and_check("a", at(60, 400_000_000), 60, 2));
    // The leap second after 119, half gone: the window starts at 60.5.
    assert!(!tracker.record_and_check("a", at(119, 1_500_000_000), 60, 2));
    // The window starts at 60.0 now, but 60.4 is gone.
    assert!(!tracker.record_and_check("a", at(120, 0), 60, 2));
    assert!(tracker.record_and_check("a", at(120, 0), 60, 2));
}

#[test]
fn the_window_may_start_before_the_calendar() {
    let mut tracker = VelocityTracker::new();
    assert!(!tracker.record_and_check("a", at(FIRST_SECOND, 0), 60, 2));
    assert!(!tracker.record_and_check("a", at(FIRST_SECOND + 59, 0), 60, 2));
    assert!(tracker.record_and_check("a", at(FIRST_SECOND + 60, 0), 60, 2));
    assert!(!tracker.record_and_check("a", at(FIRST_SECOND + 61, 0), 60, 3));
    assert!(tracker.record_and_check("a", at(FIRST_SECOND + 61, 0), i64::MAX, 3));
}

#[test]
fn the_window_may_start_after_the_calendar() {
    let mut tracker = VelocityTracker::new();
    assert!(!tracker.record_and_check("a", at(LAST_SECOND, 0), -1, 0));
    assert!(!tracker.record_and_check("a", at(0, 0), i64::MIN, 0));
}

#[test]
fn histories_of_many_accounts() {
    let mut tracker = VelocityTracker::new();
    for round in 0..4 {
        for account in 0..100 {
            let name = format!("acct-{account}");
            let flagged = tracker.record_and_check(&name, at(5_000 + round, 0), 60, 3);
            assert_eq!(flagged, round == 3);
        }
    }
}
