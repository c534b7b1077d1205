use transaction_pipeline::amount::Amount;
use transaction_pipeline::counters::Counter;
use transaction_pipeline::ingestion::{raw_record, refuse_body, respond, CreateTransactionRequest};
use transaction_pipeline::timestamp::Timestamp;
use transaction_pipeline::transaction::Transaction;

fn request() -> CreateTransactionRequest {
    let value: f64 = 99.5;
    CreateTransactionRequest {
        account_id: "acct-9".to_string(),
        amount: Amount { bits: value.to_bits(), text: value.to_string() },
        currency: "EUR".to_string(),
        merchant: "cafe".to_string(),
    }
}

#[test]
fn a_request_becomes_a_transaction_of_now() {
    let start = Timestamp::now();
    let (t, _) = request().accept();
    assert_eq!(t.account_id, "acct-9");
    assert_eq!(t.amount.bits, 99.5f64.to_bits());
    assert_eq!(t.currency, "EUR");
    assert_eq!(t.merchant, "cafe");
    assert!(!t.timestamp.before(&start));
    assert!(!Timestamp::now().before(&t.timestamp));
}

#[test]
fn identifiers_are_random_uuids() {
    let a = request().accept().0.id;
    let b = request().accept().0.id;
    assert_ne!(a, b);
    for id in [a, b] {
        let id = uuid::Uuid::from_u128(id);
        assert_eq!(id.get_version_num(), 4);
        assert_eq!(id.get_variant(), uuid::Variant::RFC4122);
    }
}

#[test]
fn a_new_transaction_keeps_what_it_is_given() {
    let r = request();
    let t = Transaction::new(r.account_id, r.amount, r.currency, r.merchant);
    assert_eq!(t.account_id, "acct-9");
    assert_eq!(t.amount.text, "99.5");
    assert_eq!(t.clone().id, t.id);
}

#[test]
fn an_encoded_transaction_is_published_under_its_account() {
    let (t, _) = request().accept();
    let record = raw_record(&t, Ok("{\"a\":1}".to_string())).unwrap();
    assert_eq!(record.topic, "transactions.raw");
    assert_eq!(record.key, "acct-9");
    assert_eq!(record.payload, "{\"a\":1}");
}

#[test]
fn a_transaction_that_cannot_be_encoded_is_rejected() {
    let (t, _) = request().accept();
    let rejection = raw_record(&t, Err("no such luck".to_string())).unwrap_err();
    assert_eq!(rejection.status, 500);
    assert_eq!(rejection.message, "no such luck");
}

#[test]
fn a_published_transaction_is_echoed() {
    let (t, _) = request().accept();
    let id = t.id;
    let (answer, counter) = respond(t, Ok(()));
    assert_eq!(answer.unwrap().id, id);
    assert_eq!(counter, Counter::TransactionsPublished);
}

#[test]
fn a_refusal_of_the_broker_is_reported() {
    let (answer, counter) = respond(request().accept().0, Err("queue full".to_string()));
    let rejection = answer.unwrap_err();
    assert_eq!(rejection.status, 500);
    assert_eq!(rejection.message, "failed to publish to kafka: queue full");
    assert_eq!(counter, Counter::KafkaPublishErrors);
}

#[test]
fn counters_have_names_and_labels() {
    assert_eq!(Counter::HttpRequests.name(), "http_requests_total");
    assert_eq!(Counter::HttpRequests.label(), Some(("route", "transactions")));
    assert_eq!(Counter::KafkaPublishErrors.name(), "kafka_publish_errors_total");
    assert_eq!(Counter::KafkaPublishErrors.label(), None);
    assert_eq!(Counter::TransactionsPublished.name(), "transactions_published_total");
    assert_eq!(Counter::TransactionsPublished.label(), None);
    assert_eq!(Counter::ProcessedClean.name(), "transactions_processed_total");
    assert_eq!(Counter::ProcessedClean.label(), Some(("flagged", "false")));
    assert_eq!(Counter::ProcessedFlagged.name(), "transactions_processed_total");
    assert_eq!(Counter::ProcessedFlagged.label(), Some(("flagged", "true")));
}

#[test]
fn every_request_is_counted_and_ends_as_published_or_not() {
    let mut counts = [0, 0, 0];
    let mut answered = 0;
    for i in 0..5 {
        let (t, counter) = request().accept();
        assert_eq!(counter, Counter::HttpRequests);
        counts[0] += 1;
        assert!(raw_record(&t, Ok("{}".to_string())).is_ok());
        let sent = if i % 2 == 0 { Ok(()) } else { Err("down".to_string()) };
        let (answer, counter) = respond(t, sent);
        match counter {
            Counter::TransactionsPublished => counts[1] += 1,
            Counter::KafkaPublishErrors => counts[2] += 1,
            _ => unreachable!(),
        }
        if answer.is_ok() {
            answered += 1;
        }
    }
    assert_eq!(counts, [5, 3, 2]);
    assert_eq!(answered, 3);
}

#[test]
fn a_body_that_does_not_parse_is_a_bad_request() {
    let rejection = refuse_body("missing field `amount`".to_string());
    assert_eq!(rejection.status, 400);
    assert_eq!(rejection.message, "missing field `amount`");
}
