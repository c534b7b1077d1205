use transaction_pipeline::amount::{Amount, LARGE_AMOUNT_THRESHOLD};
use transaction_pipeline::counters::Counter;
use transaction_pipeline::processor::{flagged_record, receive, screen, Intake, Screened, Verdict};
use transaction_pipeline::rules::evaluate_rules;
use transaction_pipeline::timestamp::{Timestamp, FIRST_SECOND};
use transaction_pipeline::transaction::Transaction;
use transaction_pipeline::velocity_tracker::VelocityTracker;

fn amount(value: f64) -> Amount {
    Amount { bits: value.to_bits(), text: value.to_string() }
}

fn transaction(account: &str, value: f64, secs: i64) -> Transaction {
    Transaction::identified(
        0xa1a2_a3a4_b1b2_c1c2_d1d2_d3d4_d5d6_d7d8,
        account.to_string(),
        amount(value),
        "USD".to_string(),
        "shop".to_string(),
        Timestamp::new(secs, 0).unwrap(),
    )
}

const NOON: i64 = 12 * 3_600;

#[test]
fn amounts_compare_as_numbers() {
    let threshold = LARGE_AMOUNT_THRESHOLD as f64;
    let values = [
        0.0,
        -0.0,
        1.0,
        f64::MIN_POSITIVE,
        5e-324,
        9_999.99,
        threshold,
        f64::from_bits(threshold.to_bits() + 1),
        f64::from_bits(threshold.to_bits() - 1),
        10_000.01,
        1e300,
        f64::MAX,
        f64::INFINITY,
        f64::NEG_INFINITY,
        f64::NAN,
        -f64::NAN,
        -20_000.0,
    ];
    for value in values {
        assert_eq!(amount(value).is_large(), value > threshold);
    }
    assert!(!amount(10_000.0).is_large());
    assert!(amount(10_000.000000000002).is_large());
}

#[test]
fn a_quiet_transaction_gives_no_reason() {
    assert!(evaluate_rules(&transaction("a", 10_000.0, NOON)).is_empty());
    assert!(evaluate_rules(&transaction("a", f64::NAN, NOON)).is_empty());
}

#[test]
fn a_large_amount_is_named_with_the_threshold() {
    assert_eq!(
        evaluate_rules(&transaction("a", 15_000.5, NOON)),
        vec!["amount 15000.5 exceeds threshold 10000".to_string()],
    );
    let value: f64 = 12_345.0;
    let threshold: f64 = 10_000.0;
    assert_eq!(
        evaluate_rules(&transaction("a", value, NOON)),
        vec![format!("amount {} exceeds threshold {}", value, threshold)],
    );
}

#[test]
fn the_small_hours_are_unusual() {
    for hour in 0..24i64 {
        for secs in [hour * 3_600, hour * 3_600 + 3_599, hour * 3_600 - 86_400] {
            let reasons = evaluate_rules(&transaction("a", 1.0, secs));
            if hour == 1 || hour == 2 || hour == 3 {
                let reason = format!("transaction occurred at unusual hour ({hour}:00 UTC)");
                assert_eq!(reasons, vec![reason]);
            } else {
                assert!(reasons.is_empty());
            }
        }
    }
}

#[test]
fn reasons_come_in_the_order_of_the_rules() {
    let mut tracker = VelocityTracker::new();
    for _ in 0..5 {
        screen(&mut tracker, transaction("a", 1.0, 2 * 3_600));
    }
    let screened = screen(&mut tracker, transaction("a", 20_000.0, 2 * 3_600));
    assert_eq!(
        screened.reasons,
        vec![
            "amount 20000 exceeds threshold 10000".to_string(),
            "transaction occurred at unusual hour (2:00 UTC)".to_string(),
            "velocity: >5 transactions in 60s".to_string(),
        ],
    );
}

#[test]
fn the_sixth_transaction_in_a_minute_is_too_fast() {
    let mut tracker = VelocityTracker::new();
    for i in 0..5 {
        let screened = screen(&mut tracker, transaction("a", 1.0, NOON + 10 * i));
        assert!(!screened.is_flagged());
    }
    assert!(screen(&mut tracker, transaction("a", 1.0, NOON + 50)).is_flagged());
    assert!(!screen(&mut tracker, transaction("b", 1.0, NOON + 50)).is_flagged());
    // At 61 seconds the first one has left, the second to sixth remain.
    assert!(screen(&mut tracker, transaction("a", 1.0, NOON + 61)).is_flagged());
    assert!(!screen(&mut tracker, transaction("a", 1.0, NOON + 110)).is_flagged());
}

#[test]
fn an_undecodable_message_is_discarded() {
    let mut tracker = VelocityTracker::new();
    assert!(matches!(receive(&mut tracker, None), Intake::Discard));
}

#[test]
fn a_clean_transaction_is_stored_and_no_more() {
    let mut tracker = VelocityTracker::new();
    match receive(&mut tracker, Some(transaction("acct", 42.5, NOON))) {
        Intake::Store { screened, row } => {
            assert_eq!(row.id, 0xa1a2_a3a4_b1b2_c1c2_d1d2_d3d4_d5d6_d7d8);
            assert_eq!(row.account_id, "acct");
            assert_eq!(row.amount.bits, 42.5f64.to_bits());
            assert_eq!(row.amount.text, "42.5");
            assert_eq!(row.currency, "USD");
            assert_eq!(row.merchant, "shop");
            assert_eq!(row.timestamp, Timestamp::new(NOON, 0).unwrap());
            assert!(row.flagged_reasons.is_empty());
            assert!(row.flagged_at.is_none());
            let verdict = screened.settle();
            assert_eq!(verdict.counter(), Counter::ProcessedClean);
            assert!(matches!(verdict, Verdict::Clean));
        }
        Intake::Discard => unreachable!(),
    }
}

#[test]
fn a_suspicious_transaction_is_stored_and_published() {
    let mut tracker = VelocityTracker::new();
    let start = Timestamp::now();
    match receive(&mut tracker, Some(transaction("acct", 10_001.0, NOON))) {
        Intake::Store { screened, row } => {
            let reasons = vec!["amount 10001 exceeds threshold 10000".to_string()];
            assert_eq!(row.flagged_reasons, reasons);
            assert!(!row.flagged_at.unwrap().before(&start));
            let verdict = screened.settle();
            assert_eq!(verdict.counter(), Counter::ProcessedFlagged);
            match verdict {
                Verdict::Flagged(flagged) => {
                    assert_eq!(flagged.reasons, reasons);
                    assert_eq!(flagged.transaction.merchant, "shop");
                    assert!(!flagged.flagged_at.before(&start));
                    let record = flagged_record(&flagged, Some("{}".to_string())).unwrap();
                    assert_eq!(record.topic, "transactions.flagged");
                    assert_eq!(record.key, "acct");
                    assert_eq!(record.payload, "{}");
                    assert!(flagged_record(&flagged, None).is_none());
                }
                Verdict::Clean => unreachable!(),
            }
        }
        Intake::Discard => unreachable!(),
    }
}

#[test]
fn rows_and_verdicts_bear_the_given_instant() {
    let now = Timestamp::new(1_700_000_000, 7).unwrap();
    let clean = Screened { transaction: transaction("a", 1.0, NOON), reasons: vec![] };
    assert!(clean.row_at(now).flagged_at.is_none());
    assert!(matches!(clean.settle_at(now), Verdict::Clean));
    let flagged =
        Screened { transaction: transaction("a", 1.0, NOON), reasons: vec!["why".to_string()] };
    let row = flagged.row_at(now);
    assert_eq!(row.flagged_at, Some(now));
    assert_eq!(row.flagged_reasons, vec!["why".to_string()]);
    match flagged.settle_at(now) {
        Verdict::Flagged(f) => {
            assert_eq!(f.flagged_at, now);
            let copy = f.clone();
            assert_eq!(copy.reasons, vec!["why".to_string()]);
            assert_eq!(copy.transaction.currency, "USD");
        }
        Verdict::Clean => unreachable!(),
    }
}

#[test]
fn a_transaction_in_the_first_minute_of_the_calendar_is_screened_and_stored() {
    let mut tracker = VelocityTracker::new();
    for i in 0..7 {
        let early = transaction("a", 20_000.0, FIRST_SECOND + i);
        match receive(&mut tracker, Some(early)) {
            Intake::Store { screened, row } => {
                assert_eq!(row.timestamp.secs(), FIRST_SECOND + i);
                assert_eq!(row.flagged_reasons[0], "amount 20000 exceeds threshold 10000");
                let fast = screened.reasons.contains(&"velocity: >5 transactions in 60s".to_string());
                assert_eq!(fast, i >= 5);
            }
            Intake::Discard => unreachable!(),
        }
    }
}

#[test]
fn one_id_traces_a_transaction() {
    let mut tracker = VelocityTracker::new();
    let t = transaction("acct", 20_000.0, NOON);
    let id = t.id;
    match receive(&mut tracker, Some(t)) {
        Intake::Store { screened, row } => {
            assert_eq!(row.id, id);
            match screened.settle() {
                Verdict::Flagged(flagged) => assert_eq!(flagged.transaction.id, id),
                Verdict::Clean => unreachable!(),
            }
        }
        Intake::Discard => unreachable!(),
    }
}

#[test]
fn every_decoded_message_is_counted_as_flagged_or_clean() {
    let mut tracker = VelocityTracker::new();
    let messages = vec![
        Some(transaction("a", 1.0, NOON)),
        None,
        Some(transaction("b", 20_000.0, NOON)),
        Some(transaction("c", 1.0, FIRST_SECOND)),
        Some(transaction("c", 1.0, 3_600)),
        Some(transaction("d", 1.0, NOON)),
        Some(transaction("e", 1.0, NOON)),
    ];
    let mut counts = [0, 0];
    for message in messages {
        if let Intake::Store { screened, .. } = receive(&mut tracker, message) {
            match screened.settle().counter() {
                Counter::ProcessedFlagged => counts[0] += 1,
                Counter::ProcessedClean => counts[1] += 1,
                _ => unreachable!(),
            }
        }
    }
    assert_eq!(counts, [2, 4]);
}
