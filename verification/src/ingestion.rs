//! How a request from outside becomes a published transaction.
//!
//! The request becomes a transaction with [`CreateTransactionRequest::accept`],
//! which is encoded outside; [`raw_record`] makes a message of that, which is
//! published outside; [`respond`] makes the answer of that.
use vstd::prelude::*;

use crate::amount::{Amount, AmountView};
use crate::counters::{lemma_tally_push, tally, Counter};
use crate::filters::lemma_filter_keeps_all;
use crate::outbound::{raw_topic, OutgoingRecord, RecordView};
use crate::timestamp::Timestamp;
use crate::transaction::{is_drawn, is_random_uuid, Transaction, TransactionView};

verus! {

/// The status of an answer to a request that failed on the server's side.
pub const INTERNAL_SERVER_ERROR: u16 = 500;

/// The status of an answer to a request whose body could not be read.
pub const BAD_REQUEST: u16 = 400;

/// What a client sends: the fields of a transaction that are its to choose.
#[derive(Debug)]
pub struct CreateTransactionRequest {
    pub account_id: String,
    pub amount: Amount,
    pub currency: String,
    pub merchant: String,
}

/// A request as mathematics.
pub struct RequestView {
    pub account_id: Seq<char>,
    pub amount: AmountView,
    pub currency: Seq<char>,
    pub merchant: Seq<char>,
}

impl View for CreateTransactionRequest {
    type V = RequestView;

    open spec fn view(&self) -> RequestView {
        RequestView {
            account_id: self.account_id@,
            amount: self.amount@,
            currency: self.currency@,
            merchant: self.merchant@,
        }
    }
}

/// The answer to a request that failed.
#[derive(Debug)]
pub struct Rejection {
    pub status: u16,
    pub message: String,
}

/// An answer as mathematics.
pub struct RejectionView {
    pub status: u16,
    pub message: Seq<char>,
}

impl View for Rejection {
    type V = RejectionView;

    open spec fn view(&self) -> RejectionView {
        RejectionView { status: self.status, message: self.message@ }
    }
}

/// What the client is told when the broker refused.
pub open spec fn publish_error(error: Seq<char>) -> Seq<char> {
    "failed to publish to kafka: "@ + error
}

/// The counter that every request falls under.
pub open spec fn request_counter() -> Counter {
    Counter::HttpRequests
}

/// The counter that a request falls under once the broker answered.
pub open spec fn publish_counter(published: Result<(), Seq<char>>) -> Counter {
    match published {
        Ok(_) => Counter::TransactionsPublished,
        Err(_) => Counter::KafkaPublishErrors,
    }
}

/// The message that publishes an encoded transaction, or the answer when it
/// could not be encoded.
pub open spec fn message_for(t: TransactionView, encoded: Result<Seq<char>, Seq<char>>) -> Result<
    RecordView,
    RejectionView,
> {
    match encoded {
        Ok(payload) => Ok(RecordView { topic: raw_topic(), key: t.account_id, payload }),
        Err(error) => Err(RejectionView { status: INTERNAL_SERVER_ERROR, message: error }),
    }
}

/// The answer to a request once the broker answered.
pub open spec fn answer_to(t: TransactionView, published: Result<(), Seq<char>>) -> Result<
    TransactionView,
    RejectionView,
> {
    match published {
        Ok(_) => Ok(t),
        Err(error) => Err(
            RejectionView { status: INTERNAL_SERVER_ERROR, message: publish_error(error) },
        ),
    }
}

/// What a text, or the words of an error, say.
pub open spec fn said(result: Result<String, String>) -> Result<Seq<char>, Seq<char>> {
    match result {
        Ok(text) => Ok(text@),
        Err(error) => Err(error@),
    }
}

/// What the words of an error say.
pub open spec fn outcome(result: Result<(), String>) -> Result<(), Seq<char>> {
    match result {
        Ok(_) => Ok(()),
        Err(error) => Err(error@),
    }
}

impl CreateTransactionRequest {
    /// The transaction that is asked for, and the counter that the request
    /// falls under. The identifier and the instant are the server's.
    pub fn accept(self) -> (accepted: (Transaction, Counter))
        ensures
            accepted.0.account_id == self.account_id,
            accepted.0.amount == self.amount,
            accepted.0.currency == self.currency,
            accepted.0.merchant == self.merchant,
            is_drawn(accepted.0.id),
            call_ensures(Timestamp::now, (), accepted.0.timestamp),
            accepted.0.timestamp.is_clock_reading(),
            accepted.1 == Counter::HttpRequests,
            accepted.0@ == (TransactionView {
                id: accepted.0@.id,
                account_id: self@.account_id,
                amount: self@.amount,
                currency: self@.currency,
                merchant: self@.merchant,
                timestamp: accepted.0@.timestamp,
            }),
            is_random_uuid(accepted.0@.id),
            accepted.0@.timestamp.on_calendar(),
            0 <= accepted.0@.timestamp.secs,
            !accepted.0@.timestamp.is_leap(),
            accepted.1 == request_counter(),
    {
        let transaction = Transaction::new(
            self.account_id,
            self.amount,
            self.currency,
            self.merchant,
        );
        (transaction, Counter::HttpRequests)
    }
}

/// The answer to a request whose body does not parse, in the parser's words.
pub fn refuse_body(error: String) -> (rejection: Rejection)
    ensures
        rejection@ == (RejectionView { status: BAD_REQUEST, message: error@ }),
        rejection.status == 400,
        rejection.message == error,
{
    Rejection { status: BAD_REQUEST, message: error }
}

/// The message that publishes a new transaction, or the answer when it could
/// not be encoded, which is the encoder's own words. The key of the message is
/// the account, so that one account's transactions stay in order.
pub fn raw_record(transaction: &Transaction, encoded: Result<String, String>) -> (record: Result<
    OutgoingRecord,
    Rejection,
>)
    ensures
        match record {
            Ok(r) => message_for(transaction@, said(encoded)) == Ok::<RecordView, RejectionView>(
                r@,
            ),
            Err(r) => message_for(transaction@, said(encoded)) == Err::<RecordView, RejectionView>(
                r@,
            ),
        },
        match encoded {
            Ok(payload) => {
                &&& record matches Ok(r)
                &&& r.topic@ == "transactions.raw"@
                &&& r.key == transaction.account_id
                &&& r.payload == payload
            },
            Err(error) => {
                &&& record matches Err(r)
                &&& r.status == 500
                &&& r.message == error
            },
        },
{
    match encoded {
        Ok(payload) => Ok(
            OutgoingRecord {
                topic: "transactions.raw".to_owned(),
                key: transaction.account_id.clone(),
                payload,
            },
        ),
        Err(error) => Err(Rejection { status: INTERNAL_SERVER_ERROR, message: error }),
    }
}

/// The answer once publishing succeeded or failed, and the counter that it
/// falls under. A published transaction is echoed whole.
pub fn respond(transaction: Transaction, published: Result<(), String>) -> (answer: (
    Result<Transaction, Rejection>,
    Counter,
))
    ensures
        match answer.0 {
            Ok(echo) => answer_to(transaction@, outcome(published)) == Ok::<
                TransactionView,
                RejectionView,
            >(echo@),
            Err(r) => answer_to(transaction@, outcome(published)) == Err::<
                TransactionView,
                RejectionView,
            >(r@),
        },
        answer.1 == publish_counter(outcome(published)),
        match published {
            Ok(_) => {
                &&& answer.0 matches Ok(echo)
                &&& echo == transaction
                &&& answer.1 == Counter::TransactionsPublished
            },
            Err(error) => {
                &&& answer.0 matches Err(r)
                &&& r.status == 500
                &&& r.message@ == "failed to publish to kafka: "@ + error@
                &&& answer.1 == Counter::KafkaPublishErrors
            },
        },
{
    match published {
        Ok(_) => (Ok(transaction), Counter::TransactionsPublished),
        Err(error) => {
            let mut message = "failed to publish to kafka: ".to_owned();
            message.append(error.as_str());
            (Err(Rejection { status: INTERNAL_SERVER_ERROR, message }), Counter::KafkaPublishErrors)
        },
    }
}

/// One request from beginning to end: its transaction, what encoding gave, and
/// what the broker answered, which matters only where there was a message.
pub struct Exchange {
    pub transaction: TransactionView,
    pub encoded: Result<Seq<char>, Seq<char>>,
    pub published: Result<(), Seq<char>>,
}

impl Exchange {
    /// What the client is answered.
    pub open spec fn answer(self) -> Result<TransactionView, RejectionView> {
        match message_for(self.transaction, self.encoded) {
            Ok(_) => answer_to(self.transaction, self.published),
            Err(rejection) => Err(rejection),
        }
    }
}

/// The increments made in a run of requests.
pub open spec fn increments(exchanges: Seq<Exchange>) -> Seq<Counter>
    decreases exchanges.len(),
{
    if exchanges.len() == 0 {
        Seq::empty()
    } else {
        let asked = increments(exchanges.drop_last()).push(request_counter());
        match message_for(exchanges.last().transaction, exchanges.last().encoded) {
            Ok(_) => asked.push(publish_counter(exchanges.last().published)),
            Err(_) => asked,
        }
    }
}

/// The counters of ingestion tell the truth: over any run of requests, every
/// request is counted, the published ones are those answered with their
/// transaction, and the published ones and the publish errors together are
/// those that could be encoded.
pub proof fn law_ingestion_counters(exchanges: Seq<Exchange>)
    ensures
        tally(increments(exchanges), Counter::HttpRequests) == exchanges.len(),
        tally(increments(exchanges), Counter::TransactionsPublished) == exchanges.filter(
            |e: Exchange| e.answer() is Ok,
        ).len(),
        tally(increments(exchanges), Counter::TransactionsPublished) + tally(
            increments(exchanges),
            Counter::KafkaPublishErrors,
        ) == exchanges.filter(|e: Exchange| e.encoded is Ok).len(),
    decreases exchanges.len(),
{
    let answered = |e: Exchange| e.answer() is Ok;
    let encoded = |e: Exchange| e.encoded is Ok;
    if exchanges.len() == 0 {
        exchanges.lemma_filter_len(answered);
        exchanges.lemma_filter_len(encoded);
    } else {
        let rest = exchanges.drop_last();
        let last = exchanges.last();
        let before = increments(rest);
        let asked = before.push(request_counter());
        law_ingestion_counters(rest);
        assert(exchanges =~= rest.push(last));
        rest.lemma_filter_push(last, answered);
        rest.lemma_filter_push(last, encoded);
        lemma_tally_push(before, request_counter(), Counter::HttpRequests);
        lemma_tally_push(before, request_counter(), Counter::TransactionsPublished);
        lemma_tally_push(before, request_counter(), Counter::KafkaPublishErrors);
        let next = publish_counter(last.published);
        lemma_tally_push(asked, next, Counter::HttpRequests);
        lemma_tally_push(asked, next, Counter::TransactionsPublished);
        lemma_tally_push(asked, next, Counter::KafkaPublishErrors);
    }
}

/// Where every transaction could be encoded, every request ends as published
/// or as a publish error.
pub proof fn law_every_encoded_request_ends(exchanges: Seq<Exchange>)
    requires
        forall|i: int| 0 <= i < exchanges.len() ==> (#[trigger] exchanges[i]).encoded is Ok,
    ensures
        tally(increments(exchanges), Counter::HttpRequests) == exchanges.len(),
        tally(increments(exchanges), Counter::TransactionsPublished) + tally(
            increments(exchanges),
            Counter::KafkaPublishErrors,
        ) == exchanges.len(),
{
    law_ingestion_counters(exchanges);
    lemma_filter_keeps_all(exchanges, |e: Exchange| e.encoded is Ok);
}

/// What goes on the topic of new transactions, and what the client is told, in
/// so many words: an encoded transaction goes out under its account, one that
/// could not be encoded is answered with the encoder's words, and one that the
/// broker refused with the broker's.
pub proof fn law_messages_and_answers(
    t: TransactionView,
    encoded: Result<Seq<char>, Seq<char>>,
    published: Result<(), Seq<char>>,
)
    ensures
        match encoded {
            Ok(text) => {
                &&& message_for(t, encoded) matches Ok(r)
                &&& r.topic == "transactions.raw"@
                &&& r.key == t.account_id
                &&& r.payload == text
            },
            Err(error) => {
                &&& message_for(t, encoded) matches Err(r)
                &&& r.status == 500
                &&& r.message == error
            },
        },
        match published {
            Ok(_) => answer_to(t, published) == Ok::<TransactionView, RejectionView>(t)
                && publish_counter(published) == Counter::TransactionsPublished,
            Err(error) => {
                &&& answer_to(t, published) matches Err(r)
                &&& r.status == 500
                &&& r.message == "failed to publish to kafka: "@ + error
                &&& publish_counter(published) == Counter::KafkaPublishErrors
            },
        },
        request_counter() == Counter::HttpRequests,
{
}

/// Requests, rejections and messages mean the fields that they hold.
pub proof fn law_requests_are_their_fields(
    request: CreateTransactionRequest,
    rejection: Rejection,
    record: OutgoingRecord,
)
    ensures
        request@.account_id == request.account_id@,
        request@.amount == request.amount@,
        request@.currency == request.currency@,
        request@.merchant == request.merchant@,
        rejection@.status == rejection.status,
        rejection@.message == rejection.message@,
        record@.topic == record.topic@,
        record@.key == record.key@,
        record@.payload == record.payload@,
{
}

/// A transaction that is accepted is of the moment when it is accepted,
/// whatever the client sent, and bears what the client sent.
pub proof fn law_accepted_transactions_are_of_now(
    request: CreateTransactionRequest,
    accepted: (Transaction, Counter),
)
    requires
        call_ensures(CreateTransactionRequest::accept, (request,), accepted),
    ensures
        call_ensures(Timestamp::now, (), accepted.0.timestamp),
        is_drawn(accepted.0.id),
        accepted.0.account_id == request.account_id,
        accepted.0.amount == request.amount,
        accepted.0.currency == request.currency,
        accepted.0.merchant == request.merchant,
        accepted.1 == Counter::HttpRequests,
{
}

} // verus!
