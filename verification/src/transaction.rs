//! Transactions, and transactions that were found suspicious.
use vstd::prelude::*;

use crate::amount::{Amount, AmountView};
use crate::timestamp::{Moment, Timestamp};

verus! {

/// Whether a 128-bit identifier is laid out as a random UUID: version 4, in
/// the variant of RFC 9562.
pub open spec fn is_random_uuid(id: u128) -> bool {
    &&& (id / 0x1000_0000_0000_0000_0000) % 16 == 4
    &&& (id / 0x4000_0000_0000_0000) % 4 == 2
}

/// Draws an identifier through `uuid::Uuid::new_v4`, which fixes the version
/// and variant bits and leaves the rest to chance.
#[verifier::external_body]
fn draw_uuid() -> (id: u128)
    ensures
        is_random_uuid(id),
{
    uuid::Uuid::new_v4().as_u128()
}

/// Whether an identifier is one that the generator handed out.
pub closed spec fn is_drawn(id: u128) -> bool {
    call_ensures(draw_uuid, (), id)
}

/// An identifier was drawn when a draw of the generator gave it.
proof fn law_drawn_is_drawn_by_the_generator(id: u128)
    ensures
        is_drawn(id) <==> call_ensures(draw_uuid, (), id),
{
}

/// What a sequence of strings says.
pub open spec fn texts(strings: Seq<String>) -> Seq<Seq<char>> {
    Seq::new(strings.len(), |i: int| strings[i]@)
}

/// Copies a list of strings.
pub(crate) fn copy_texts(strings: &Vec<String>) -> (copy: Vec<String>)
    ensures
        copy@ == strings@,
        texts(copy@) == texts(strings@),
{
    let mut copy: Vec<String> = Vec::new();
    let mut i: usize = 0;
    while i < strings.len()
        invariant
            i <= strings@.len(),
            copy@.len() == i,
            forall|j: int| 0 <= j < i ==> (#[trigger] copy@[j]) == strings@[j],
        decreases strings@.len() - i,
    {
        copy.push(strings[i].clone());
        i = i + 1;
    }
    assert(copy@ =~= strings@);
    copy
}

/// One transaction.
#[derive(Debug)]
pub struct Transaction {
    /// The UUID that names this transaction at every stage of the pipeline,
    /// drawn by the server.
    pub id: u128,
    /// The account it belongs to.
    pub account_id: String,
    pub amount: Amount,
    /// The currency, such as `USD`.
    pub currency: String,
    /// The other party.
    pub merchant: String,
    /// When it happened.
    pub timestamp: Timestamp,
}

/// A transaction as mathematics.
pub struct TransactionView {
    pub id: u128,
    pub account_id: Seq<char>,
    pub amount: AmountView,
    pub currency: Seq<char>,
    pub merchant: Seq<char>,
    pub timestamp: Moment,
}

impl View for Transaction {
    type V = TransactionView;

    open spec fn view(&self) -> TransactionView {
        TransactionView {
            id: self.id,
            account_id: self.account_id@,
            amount: self.amount@,
            currency: self.currency@,
            merchant: self.merchant@,
            timestamp: self.timestamp@,
        }
    }
}

impl Transaction {
    /// A transaction that happens now, under an identifier of its own. The
    /// caller has a say in neither.
    pub fn new(account_id: String, amount: Amount, currency: String, merchant: String) -> (
    transaction: Transaction)
        ensures
            transaction.account_id == account_id,
            transaction.amount == amount,
            transaction.currency == currency,
            transaction.merchant == merchant,
            transaction@ == (TransactionView {
                id: transaction@.id,
                account_id: account_id@,
                amount: amount@,
                currency: currency@,
                merchant: merchant@,
                timestamp: transaction@.timestamp,
            }),
            is_drawn(transaction.id),
            call_ensures(Timestamp::now, (), transaction.timestamp),
            transaction.timestamp.is_clock_reading(),
            is_random_uuid(transaction@.id),
            transaction@.timestamp.on_calendar(),
            0 <= transaction@.timestamp.secs,
            !transaction@.timestamp.is_leap(),
    {
        let id: u128 = draw_uuid();
        let timestamp = Timestamp::now();
        Transaction::identified(id, account_id, amount, currency, merchant, timestamp)
    }

    /// A transaction with a given identifier and instant.
    pub fn identified(
        id: u128,
        account_id: String,
        amount: Amount,
        currency: String,
        merchant: String,
        timestamp: Timestamp,
    ) -> (transaction: Transaction)
        ensures
            transaction == (Transaction { id, account_id, amount, currency, merchant, timestamp }),
            transaction@ == (TransactionView {
                id,
                account_id: account_id@,
                amount: amount@,
                currency: currency@,
                merchant: merchant@,
                timestamp: timestamp@,
            }),
    {
        Transaction { id, account_id, amount, currency, merchant, timestamp }
    }
}

impl Clone for Transaction {
    fn clone(&self) -> (copy: Transaction)
        ensures
            copy == *self,
            copy@ == self@,
    {
        Transaction {
            id: self.id,
            account_id: self.account_id.clone(),
            amount: self.amount.clone(),
            currency: self.currency.clone(),
            merchant: self.merchant.clone(),
            timestamp: self.timestamp,
        }
    }
}

/// A suspicious transaction, whole, with every reason it was flagged for.
#[derive(Debug)]
pub struct FlaggedTransaction {
    pub transaction: Transaction,
    /// The reasons, for people to read. One transaction may trip several
    /// rules.
    pub reasons: Vec<String>,
    /// When it was flagged, which is some time after it happened.
    pub flagged_at: Timestamp,
}

/// A flagged transaction as mathematics.
pub struct FlaggedView {
    pub transaction: TransactionView,
    pub reasons: Seq<Seq<char>>,
    pub flagged_at: Moment,
}

impl View for FlaggedTransaction {
    type V = FlaggedView;

    open spec fn view(&self) -> FlaggedView {
        FlaggedView {
            transaction: self.transaction@,
            reasons: texts(self.reasons@),
            flagged_at: self.flagged_at@,
        }
    }
}

impl Clone for FlaggedTransaction {
    fn clone(&self) -> (copy: FlaggedTransaction)
        ensures
            copy.transaction == self.transaction,
            copy.reasons@ == self.reasons@,
            copy.flagged_at == self.flagged_at,
            copy@ == self@,
    {
        FlaggedTransaction {
            transaction: self.transaction.clone(),
            reasons: copy_texts(&self.reasons),
            flagged_at: self.flagged_at,
        }
    }
}

/// A list of strings says what its strings say, one for one.
pub proof fn law_texts_are_the_strings(strings: Seq<String>)
    ensures
        texts(strings).len() == strings.len(),
        forall|i: int| 0 <= i < strings.len() ==> #[trigger] texts(strings)[i] == strings[i]@,
{
}

/// A transaction means the fields that it holds.
pub proof fn law_transactions_are_their_fields(t: Transaction)
    ensures
        t@.id == t.id,
        t@.account_id == t.account_id@,
        t@.amount.bits == t.amount.bits,
        t@.amount.text == t.amount.text@,
        t@.currency == t.currency@,
        t@.merchant == t.merchant@,
        t@.timestamp == t.timestamp@,
{
}

/// A flagged transaction means the fields that it holds.
pub proof fn law_flagged_are_their_fields(f: FlaggedTransaction)
    ensures
        f@.transaction == f.transaction@,
        f@.reasons.len() == f.reasons@.len(),
        forall|i: int| 0 <= i < f.reasons@.len() ==> #[trigger] f@.reasons[i] == f.reasons@[i]@,
        f@.flagged_at == f.flagged_at@,
{
}

/// A new transaction is of the moment when it is made, whatever the client
/// sent: its instant is what the clock showed, its identifier is a draw, and
/// the client's fields are kept.
pub proof fn law_new_transactions_are_of_now(
    account_id: String,
    amount: Amount,
    currency: String,
    merchant: String,
    made: Transaction,
)
    requires
        call_ensures(Transaction::new, (account_id, amount, currency, merchant), made),
    ensures
        call_ensures(Timestamp::now, (), made.timestamp),
        made.timestamp.is_clock_reading(),
        is_drawn(made.id),
        made.account_id == account_id,
        made.amount == amount,
        made.currency == currency,
        made.merchant == merchant,
{
}

} // verus!
