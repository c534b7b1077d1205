//! What becomes of one message taken off the topic of new transactions.
//!
//! The message is decoded, screened, stored, and, when suspicious, published
//! again. Decoding, storing, encoding and publishing are done outside; the
//! functions here decide what is to be done next:
//!
//! 1. [`receive`] takes what decoding gave, and asks for a row to be stored;
//! 2. [`Screened::settle`] follows, whether or not the row could be stored,
//!    and asks for a suspicious transaction to be encoded;
//! 3. [`flagged_record`] takes what encoding gave, and asks for it to be
//!    published.
use vstd::prelude::*;

use crate::amount::{Amount, AmountView};
use crate::counters::{lemma_tally_push, tally, Counter};
use crate::filters::lemma_filter_agrees;
use crate::ingestion::{answer_to, RejectionView};
use crate::outbound::{flagged_topic, OutgoingRecord, RecordView};
use crate::rules::{at_unusual_hour, evaluate_rules, has_large_amount, rule_reasons};
use crate::timestamp::{Moment, Timestamp};
use crate::transaction::{
    copy_texts, texts, FlaggedTransaction, FlaggedView, Transaction, TransactionView,
};
use crate::velocity_laws::{
    instants_of, law_record_in_nanoseconds, law_velocity_rule, none_returns, replay_all, Entry,
};
use crate::velocity_tracker::{in_window, record_in, up_to, VelocityTracker};

verus! {

/// The length of the trailing window of the velocity rule, in seconds.
pub const VELOCITY_WINDOW_SECS: i64 = 60;

/// The number of transactions in the window that is still unsuspicious.
pub const VELOCITY_THRESHOLD: usize = 5;

/// The reason given for too many transactions at once.
pub open spec fn velocity_reason() -> Seq<char> {
    "velocity: >5 transactions in 60s"@
}

/// The histories once a transaction is recorded.
pub open spec fn histories_after(
    histories: Map<Seq<char>, Seq<Moment>>,
    t: TransactionView,
) -> Map<Seq<char>, Seq<Moment>> {
    record_in(histories, t.account_id, t.timestamp, VELOCITY_WINDOW_SECS as int)
}

/// With this transaction, its account has too many in the window.
pub open spec fn too_fast(histories: Map<Seq<char>, Seq<Moment>>, t: TransactionView) -> bool {
    up_to(histories_after(histories, t)[t.account_id], t.timestamp).len() > VELOCITY_THRESHOLD
}

/// All reasons for flagging a transaction.
pub open spec fn reasons_for(
    histories: Map<Seq<char>, Seq<Moment>>,
    t: TransactionView,
) -> Seq<Seq<char>> {
    if too_fast(histories, t) {
        rule_reasons(t).push(velocity_reason())
    } else {
        rule_reasons(t)
    }
}

/// A row of the table of transactions, which has suspicious and clean ones
/// alike.
#[derive(Debug)]
pub struct TransactionRow {
    pub id: u128,
    pub account_id: String,
    pub amount: Amount,
    pub currency: String,
    pub merchant: String,
    pub timestamp: Timestamp,
    /// Empty for a clean transaction.
    pub flagged_reasons: Vec<String>,
    /// Absent for a clean transaction.
    pub flagged_at: Option<Timestamp>,
}

/// A row as mathematics.
pub struct RowView {
    pub id: u128,
    pub account_id: Seq<char>,
    pub amount: AmountView,
    pub currency: Seq<char>,
    pub merchant: Seq<char>,
    pub timestamp: Moment,
    pub flagged_reasons: Seq<Seq<char>>,
    pub flagged_at: Option<Moment>,
}

impl View for TransactionRow {
    type V = RowView;

    open spec fn view(&self) -> RowView {
        RowView {
            id: self.id,
            account_id: self.account_id@,
            amount: self.amount@,
            currency: self.currency@,
            merchant: self.merchant@,
            timestamp: self.timestamp@,
            flagged_reasons: texts(self.flagged_reasons@),
            flagged_at: match self.flagged_at {
                Some(at) => Some(at@),
                None => None,
            },
        }
    }
}

/// A transaction and what screening found against it.
#[derive(Debug)]
pub struct Screened {
    pub transaction: Transaction,
    pub reasons: Vec<String>,
}

/// A screened transaction as mathematics.
pub struct ScreenedView {
    pub transaction: TransactionView,
    pub reasons: Seq<Seq<char>>,
}

impl View for Screened {
    type V = ScreenedView;

    open spec fn view(&self) -> ScreenedView {
        ScreenedView { transaction: self.transaction@, reasons: texts(self.reasons@) }
    }
}

impl ScreenedView {
    /// Whether any rule matched.
    pub open spec fn is_flagged(self) -> bool {
        self.reasons.len() > 0
    }

    /// The row of this transaction, flagged at the given instant if at all.
    pub open spec fn row_with(self, flagged_at: Option<Moment>) -> RowView {
        RowView {
            id: self.transaction.id,
            account_id: self.transaction.account_id,
            amount: self.transaction.amount,
            currency: self.transaction.currency,
            merchant: self.transaction.merchant,
            timestamp: self.transaction.timestamp,
            flagged_reasons: self.reasons,
            flagged_at,
        }
    }

    /// The row of this transaction when the clock shows `now`.
    pub open spec fn row_at(self, now: Moment) -> RowView {
        self.row_with(
            if self.is_flagged() {
                Some(now)
            } else {
                None
            },
        )
    }

    /// What is published of this transaction when the clock shows `now`.
    pub open spec fn verdict_at(self, now: Moment) -> Option<FlaggedView> {
        if self.is_flagged() {
            Some(
                FlaggedView {
                    transaction: self.transaction,
                    reasons: self.reasons,
                    flagged_at: now,
                },
            )
        } else {
            None
        }
    }
}

/// What screening makes of a transaction.
pub open spec fn screened_as(
    histories: Map<Seq<char>, Seq<Moment>>,
    t: TransactionView,
) -> ScreenedView {
    ScreenedView { transaction: t, reasons: reasons_for(histories, t) }
}

/// What is to be done with a screened transaction after its row.
#[derive(Debug)]
pub enum Verdict {
    /// Nothing more.
    Clean,
    /// To be encoded and published.
    Flagged(FlaggedTransaction),
}

impl View for Verdict {
    type V = Option<FlaggedView>;

    open spec fn view(&self) -> Option<FlaggedView> {
        match self {
            Verdict::Clean => None,
            Verdict::Flagged(flagged) => Some(flagged@),
        }
    }
}

/// The counter that a transaction falls under, by what is published of it.
pub open spec fn verdict_counter(verdict: Option<FlaggedView>) -> Counter {
    if verdict is Some {
        Counter::ProcessedFlagged
    } else {
        Counter::ProcessedClean
    }
}

impl Verdict {
    /// The counter that the transaction falls under.
    pub fn counter(&self) -> (counter: Counter)
        ensures
            counter == verdict_counter(self@),
            match self {
                Verdict::Clean => counter == Counter::ProcessedClean,
                Verdict::Flagged(_) => counter == Counter::ProcessedFlagged,
            },
    {
        match self {
            Verdict::Clean => Counter::ProcessedClean,
            Verdict::Flagged(_) => Counter::ProcessedFlagged,
        }
    }
}

/// Screens a transaction: runs the stateless rules, and records it with the
/// velocity tracker.
pub fn screen(tracker: &mut VelocityTracker, transaction: Transaction) -> (screened: Screened)
    requires
        old(tracker).wf(),
    ensures
        final(tracker).wf(),
        final(tracker)@ == histories_after(old(tracker)@, transaction@),
        screened@ == screened_as(old(tracker)@, transaction@),
        screened.transaction == transaction,
{
    let mut reasons = evaluate_rules(&transaction);
    let ghost found = reasons@;
    if tracker.record_and_check(
        transaction.account_id.as_str(),
        transaction.timestamp,
        VELOCITY_WINDOW_SECS,
        VELOCITY_THRESHOLD,
    ) {
        reasons.push("velocity: >5 transactions in 60s".to_owned());
        assert(texts(reasons@) =~= texts(found).push(velocity_reason()));
    }
    Screened { transaction, reasons }
}

impl Screened {
    /// Whether any rule matched.
    pub fn is_flagged(&self) -> (flagged: bool)
        ensures
            flagged == self@.is_flagged(),
            flagged == (self.reasons@.len() > 0),
    {
        self.reasons.len() > 0
    }

    /// The row of this transaction, with a given instant of flagging.
    fn row_with(&self, flagged_at: Option<Timestamp>) -> (row: TransactionRow)
        ensures
            row.id == self.transaction.id,
            row.account_id == self.transaction.account_id,
            row.amount == self.transaction.amount,
            row.currency == self.transaction.currency,
            row.merchant == self.transaction.merchant,
            row.timestamp == self.transaction.timestamp,
            row.flagged_reasons@ == self.reasons@,
            row.flagged_at == flagged_at,
            row@ == self@.row_with(
                match flagged_at {
                    Some(at) => Some(at@),
                    None => None,
                },
            ),
    {
        TransactionRow {
            id: self.transaction.id,
            account_id: self.transaction.account_id.clone(),
            amount: self.transaction.amount.clone(),
            currency: self.transaction.currency.clone(),
            merchant: self.transaction.merchant.clone(),
            timestamp: self.transaction.timestamp,
            flagged_reasons: copy_texts(&self.reasons),
            flagged_at,
        }
    }

    /// The row of this transaction when the clock shows `now`.
    pub fn row_at(&self, now: Timestamp) -> (row: TransactionRow)
        ensures
            row.id == self.transaction.id,
            row.account_id == self.transaction.account_id,
            row.amount == self.transaction.amount,
            row.currency == self.transaction.currency,
            row.merchant == self.transaction.merchant,
            row.timestamp == self.transaction.timestamp,
            row.flagged_reasons@ == self.reasons@,
            row.flagged_at == (if self.reasons@.len() > 0 {
                Some(now)
            } else {
                None
            }),
            row@ == self@.row_at(now@),
    {
        if self.is_flagged() {
            self.row_with(Some(now))
        } else {
            self.row_with(None)
        }
    }

    /// The row of this transaction. The clock is read for a suspicious one.
    pub fn row(&self) -> (row: TransactionRow)
        ensures
            row.id == self.transaction.id,
            row.account_id == self.transaction.account_id,
            row.amount == self.transaction.amount,
            row.currency == self.transaction.currency,
            row.merchant == self.transaction.merchant,
            row.timestamp == self.transaction.timestamp,
            row.flagged_reasons@ == self.reasons@,
            row.flagged_at is Some <==> self.reasons@.len() > 0,
            row.flagged_at matches Some(at) ==> call_ensures(Timestamp::now, (), at),
            row@ == self@.row_with(row@.flagged_at),
            row@.flagged_at is Some <==> self@.is_flagged(),
            row@.flagged_at matches Some(at) ==> at.on_calendar() && 0 <= at.secs
                && !at.is_leap(),
    {
        if self.is_flagged() {
            self.row_at(Timestamp::now())
        } else {
            self.row_with(None)
        }
    }

    /// What is to be done after the row, when the clock shows `now`.
    pub fn settle_at(self, now: Timestamp) -> (verdict: Verdict)
        ensures
            verdict@ == self@.verdict_at(now@),
            self.reasons@.len() > 0 <==> verdict is Flagged,
            verdict matches Verdict::Flagged(f) ==> f.transaction == self.transaction && f.reasons
                == self.reasons && f.flagged_at == now,
    {
        if self.is_flagged() {
            Verdict::Flagged(
                FlaggedTransaction {
                    transaction: self.transaction,
                    reasons: self.reasons,
                    flagged_at: now,
                },
            )
        } else {
            Verdict::Clean
        }
    }

    /// What is to be done after the row, whatever became of it. The clock is
    /// read for a suspicious transaction.
    pub fn settle(self) -> (verdict: Verdict)
        ensures
            self.reasons@.len() > 0 <==> verdict is Flagged,
            verdict matches Verdict::Flagged(f) ==> f.transaction == self.transaction && f.reasons
                == self.reasons && call_ensures(Timestamp::now, (), f.flagged_at),
            verdict@ is Some <==> self@.is_flagged(),
            verdict@ matches Some(flagged) ==> {
                &&& verdict@ == self@.verdict_at(flagged.flagged_at)
                &&& flagged.flagged_at.on_calendar()
                &&& 0 <= flagged.flagged_at.secs
                &&& !flagged.flagged_at.is_leap()
            },
    {
        if self.is_flagged() {
            self.settle_at(Timestamp::now())
        } else {
            Verdict::Clean
        }
    }
}

/// What is to be done with a message.
#[derive(Debug)]
pub enum Intake {
    /// Nothing: it holds no transaction.
    Discard,
    /// The row is to be stored, then the transaction settled.
    Store {
        screened: Screened,
        row: TransactionRow,
    },
}

/// Decides what is to be done with a message that decoding made a transaction
/// of, or nothing. No message fails here: one without a transaction leaves no
/// trace, and every transaction is stored, suspicious or not.
pub fn receive(tracker: &mut VelocityTracker, decoded: Option<Transaction>) -> (intake: Intake)
    requires
        old(tracker).wf(),
    ensures
        final(tracker).wf(),
        match decoded {
            None => intake is Discard && final(tracker)@ == old(tracker)@,
            Some(t) => {
                &&& final(tracker)@ == histories_after(old(tracker)@, t@)
                &&& intake matches Intake::Store { screened, row }
                &&& screened@ == screened_as(old(tracker)@, t@)
                &&& screened.transaction == t
                &&& row.id == t.id
                &&& row.account_id == t.account_id
                &&& row.amount == t.amount
                &&& row.currency == t.currency
                &&& row.merchant == t.merchant
                &&& row.timestamp == t.timestamp
                &&& row.flagged_reasons@ == screened.reasons@
                &&& row.flagged_at is Some <==> screened.reasons@.len() > 0
                &&& row.flagged_at matches Some(at) ==> call_ensures(Timestamp::now, (), at)
                &&& row@ == screened@.row_with(row@.flagged_at)
                &&& row@.flagged_at is Some <==> screened@.is_flagged()
                &&& row@.flagged_at matches Some(at) ==> at.on_calendar() && 0 <= at.secs
                    && !at.is_leap()
            },
        },
{
    match decoded {
        None => Intake::Discard,
        Some(transaction) => {
            let screened = screen(tracker, transaction);
            let row = screened.row();
            Intake::Store { screened, row }
        },
    }
}

/// The message that publishes a flagged transaction, where it could be
/// encoded. Its key is the account, so that one account's suspicious
/// transactions stay in order.
pub fn flagged_record(flagged: &FlaggedTransaction, encoded: Option<String>) -> (record: Option<
    OutgoingRecord,
>)
    ensures
        match encoded {
            Some(payload) => record matches Some(r) && r@ == (RecordView {
                topic: flagged_topic(),
                key: flagged@.transaction.account_id,
                payload: payload@,
            }) && r.topic@ == "transactions.flagged"@ && r.key == flagged.transaction.account_id
                && r.payload == payload,
            None => record is None,
        },
{
    match encoded {
        Some(payload) => Some(
            OutgoingRecord {
                topic: "transactions.flagged".to_owned(),
                key: flagged.transaction.account_id.clone(),
                payload,
            },
        ),
        None => None,
    }
}

/// A transaction is flagged exactly when its amount is large, its hour is
/// unusual or its account is too fast.
pub proof fn law_what_flags(histories: Map<Seq<char>, Seq<Moment>>, t: TransactionView)
    ensures
        reasons_for(histories, t).len() > 0 <==> has_large_amount(t) || at_unusual_hour(t)
            || too_fast(histories, t),
{
}

/// An account is too fast exactly when, with this transaction, it has made
/// more than the allowed number within the window. This holds whenever none of
/// the account's transactions returns to the window, however they are
/// interleaved with those of other accounts.
pub proof fn law_too_fast(earlier: Seq<Entry>, t: TransactionView)
    requires
        ({
            let now = Entry { account: t.account_id, at: t.timestamp };
            let own = instants_of(earlier.push(now), t.account_id);
            none_returns(own, VELOCITY_WINDOW_SECS as int)
        }),
    ensures
        ({
            let now = Entry { account: t.account_id, at: t.timestamp };
            let own = instants_of(earlier.push(now), t.account_id);
            too_fast(replay_all(earlier, VELOCITY_WINDOW_SECS as int), t) <==> own.filter(
                |m: Moment| in_window(m, t.timestamp, VELOCITY_WINDOW_SECS as int),
            ).len() > VELOCITY_THRESHOLD
        }),
{
    let now = Entry { account: t.account_id, at: t.timestamp };
    let entries = earlier.push(now);
    assert(entries.drop_last() =~= earlier);
    assert(entries.last() == now);
    law_velocity_rule(entries, VELOCITY_WINDOW_SECS as int);
}

/// The stored row and what is published agree: a transaction is published
/// exactly when its row bears an instant of flagging, with the reasons of the
/// row and the transaction whole.
pub proof fn law_row_and_verdict_agree(screened: ScreenedView, stored: Moment, settled: Moment)
    ensures
        screened.row_at(stored).flagged_at is Some <==> screened.verdict_at(settled) is Some,
        screened.row_at(stored).flagged_at is Some <==> screened.row_at(
            stored,
        ).flagged_reasons.len() > 0,
        screened.verdict_at(settled) matches Some(flagged) ==> flagged.reasons
            == screened.row_at(stored).flagged_reasons && flagged.transaction
            == screened.transaction,
{
}

/// One identifier traces a transaction: the client is answered with it, the
/// row bears it, and so does what is published of a suspicious one, with all
/// the other fields as they were.
pub proof fn law_one_id_traces_a_transaction(
    t: TransactionView,
    histories: Map<Seq<char>, Seq<Moment>>,
    stored: Moment,
    settled: Moment,
)
    ensures
        answer_to(t, Ok(())) == Ok::<TransactionView, RejectionView>(t),
        ({
            let row = screened_as(histories, t).row_at(stored);
            &&& row.id == t.id
            &&& row.account_id == t.account_id
            &&& row.amount == t.amount
            &&& row.currency == t.currency
            &&& row.merchant == t.merchant
            &&& row.timestamp == t.timestamp
        }),
        screened_as(histories, t).verdict_at(settled) matches Some(flagged)
            ==> flagged.transaction == t && flagged.transaction.id == t.id,
{
}

/// The histories after a run of messages.
pub open spec fn histories_after_all(messages: Seq<Option<TransactionView>>) -> Map<
    Seq<char>,
    Seq<Moment>,
>
    decreases messages.len(),
{
    if messages.len() == 0 {
        Map::empty()
    } else {
        let before = histories_after_all(messages.drop_last());
        match messages.last() {
            Some(t) => histories_after(before, t),
            None => before,
        }
    }
}

/// The transactions screened in a run of messages.
pub open spec fn all_screened(messages: Seq<Option<TransactionView>>) -> Seq<ScreenedView>
    decreases messages.len(),
{
    if messages.len() == 0 {
        Seq::empty()
    } else {
        let before = all_screened(messages.drop_last());
        match messages.last() {
            Some(t) => before.push(
                screened_as(histories_after_all(messages.drop_last()), t),
            ),
            None => before,
        }
    }
}

/// The increments made for screened transactions, when the clock shows
/// `clock[i]` as the `i`th is settled.
pub open spec fn increments(screened: Seq<ScreenedView>, clock: Seq<Moment>) -> Seq<Counter> {
    Seq::new(screened.len(), |i: int| verdict_counter(screened[i].verdict_at(clock[i])))
}

proof fn lemma_increments_tell_flagged(screened: Seq<ScreenedView>, clock: Seq<Moment>)
    ensures
        tally(increments(screened, clock), Counter::ProcessedFlagged) == screened.filter(
            |s: ScreenedView| s.is_flagged(),
        ).len(),
        tally(increments(screened, clock), Counter::ProcessedClean) == screened.len()
            - screened.filter(|s: ScreenedView| s.is_flagged()).len(),
    decreases screened.len(),
{
    let flagged = |s: ScreenedView| s.is_flagged();
    if screened.len() == 0 {
        screened.lemma_filter_len(flagged);
    } else {
        let rest = screened.drop_last();
        let last = screened.last();
        let next = verdict_counter(last.verdict_at(clock[rest.len() as int]));
        lemma_increments_tell_flagged(rest, clock);
        assert(screened =~= rest.push(last));
        rest.lemma_filter_push(last, flagged);
        assert(increments(screened, clock) =~= increments(rest, clock).push(next));
        lemma_tally_push(increments(rest, clock), next, Counter::ProcessedFlagged);
        lemma_tally_push(increments(rest, clock), next, Counter::ProcessedClean);
    }
}

/// The counters of the processor tell the truth: over any run of messages,
/// whatever became of rows and publications and whatever the clock showed, the
/// one for flagged transactions counts those screened with a reason, the one
/// for clean transactions the others, and the two together every message that
/// could be decoded.
pub proof fn law_processed_counters(messages: Seq<Option<TransactionView>>, clock: Seq<Moment>)
    ensures
        tally(increments(all_screened(messages), clock), Counter::ProcessedFlagged)
            == all_screened(messages).filter(|s: ScreenedView| s.is_flagged()).len(),
        tally(increments(all_screened(messages), clock), Counter::ProcessedClean)
            == all_screened(messages).len() - all_screened(messages).filter(
            |s: ScreenedView| s.is_flagged(),
        ).len(),
        all_screened(messages).len() == messages.filter(
            |m: Option<TransactionView>| m is Some,
        ).len(),
{
    lemma_increments_tell_flagged(all_screened(messages), clock);
    lemma_all_screened_len(messages);
}

proof fn lemma_all_screened_len(messages: Seq<Option<TransactionView>>)
    ensures
        all_screened(messages).len() == messages.filter(
            |m: Option<TransactionView>| m is Some,
        ).len(),
    decreases messages.len(),
{
    let decoded = |m: Option<TransactionView>| m is Some;
    if messages.len() == 0 {
        messages.lemma_filter_len(decoded);
    } else {
        let rest = messages.drop_last();
        lemma_all_screened_len(rest);
        assert(messages =~= rest.push(messages.last()));
        rest.lemma_filter_push(messages.last(), decoded);
    }
}

/// Every reason is stored and published: the row and the published transaction
/// bear all reasons that screening found, in their order, and a transaction is
/// published, and its row bears the instant, exactly when there is a reason.
pub proof fn law_every_reason_is_stored_and_published(
    screened: ScreenedView,
    stored: Moment,
    settled: Moment,
)
    ensures
        screened.row_at(stored).flagged_reasons == screened.reasons,
        screened.row_at(stored).flagged_at == (if screened.reasons.len() > 0 {
            Some(stored)
        } else {
            None
        }),
        screened.verdict_at(settled) is Some <==> screened.reasons.len() > 0,
        screened.verdict_at(settled) matches Some(f) ==> f.reasons == screened.reasons
            && f.transaction == screened.transaction && f.flagged_at == settled,
{
}

/// The reasons for a transaction, away from leap seconds, by what its account
/// did: those of the stateless rules, and then that of the velocity where,
/// with this one, more than five of the account's transactions are at most
/// sixty seconds older and not newer.
pub proof fn law_reasons_in_nanoseconds(
    histories: Map<Seq<char>, Seq<Moment>>,
    t: TransactionView,
)
    requires
        0 <= t.timestamp.nanos < 1_000_000_000,
        histories.contains_key(t.account_id) ==> forall|i: int|
            0 <= i < histories[t.account_id].len() ==> 0 <= (
            #[trigger] histories[t.account_id][i]).nanos < 1_000_000_000,
    ensures
        ({
            let now = t.timestamp.secs * 1_000_000_000 + t.timestamp.nanos;
            let made = if histories.contains_key(t.account_id) {
                histories[t.account_id].push(t.timestamp)
            } else {
                seq![t.timestamp]
            };
            let recent = made.filter(
                |m: Moment| now - 60_000_000_000 <= m.secs * 1_000_000_000 + m.nanos <= now,
            );
            reasons_for(histories, t) == rule_reasons(t) + (if recent.len() > 5 {
                seq!["velocity: >5 transactions in 60s"@]
            } else {
                Seq::empty()
            })
        }),
{
    let now = t.timestamp.secs * 1_000_000_000 + t.timestamp.nanos;
    let history = if histories.contains_key(t.account_id) {
        histories[t.account_id]
    } else {
        Seq::empty()
    };
    law_record_in_nanoseconds(history, t.timestamp, 60);
    assert(seq![t.timestamp] =~= Seq::empty().push(t.timestamp));
    lemma_filter_agrees(
        history.push(t.timestamp),
        |m: Moment|
            t.timestamp.secs * 1_000_000_000 + t.timestamp.nanos - 60 * 1_000_000_000 <= m.secs
                * 1_000_000_000 + m.nanos <= t.timestamp.secs * 1_000_000_000 + t.timestamp.nanos,
        |m: Moment| now - 60_000_000_000 <= m.secs * 1_000_000_000 + m.nanos <= now,
    );
    assert(reasons_for(histories, t) =~= rule_reasons(t) + (if too_fast(histories, t) {
        seq!["velocity: >5 transactions in 60s"@]
    } else {
        Seq::empty()
    }));
}

/// At any instant, in a leap second or not, screening gives the reasons of the
/// stateless rules first and at most that of the velocity after them, and
/// leaves the account with a window of sixty seconds.
pub proof fn law_screening_adds_the_velocity(
    histories: Map<Seq<char>, Seq<Moment>>,
    t: TransactionView,
)
    ensures
        ({
            let after = record_in(histories, t.account_id, t.timestamp, 60);
            let screened = screened_as(histories, t);
            &&& screened.transaction == t
            &&& screened.reasons == rule_reasons(t) + (if up_to(
                after[t.account_id],
                t.timestamp,
            ).len() > 5 {
                seq!["velocity: >5 transactions in 60s"@]
            } else {
                Seq::empty()
            })
            &&& histories_after(histories, t) == after
        }),
{
    assert(screened_as(histories, t).reasons =~= rule_reasons(t) + (if too_fast(histories, t) {
        seq!["velocity: >5 transactions in 60s"@]
    } else {
        Seq::empty()
    }));
}

/// Rows, screened transactions and verdicts mean the fields that they hold.
pub proof fn law_rows_are_their_fields(row: TransactionRow, screened: Screened, verdict: Verdict)
    ensures
        row@.id == row.id,
        row@.account_id == row.account_id@,
        row@.amount == row.amount@,
        row@.currency == row.currency@,
        row@.merchant == row.merchant@,
        row@.timestamp == row.timestamp@,
        row@.flagged_reasons == texts(row.flagged_reasons@),
        row@.flagged_at is Some <==> row.flagged_at is Some,
        row.flagged_at matches Some(at) ==> row@.flagged_at == Some(at@),
        screened@.transaction == screened.transaction@,
        screened@.reasons == texts(screened.reasons@),
        screened@.is_flagged() <==> screened.reasons@.len() > 0,
        verdict is Clean ==> verdict@ is None,
        verdict matches Verdict::Flagged(f) ==> verdict@ == Some(f@),
{
}

/// The counter of a transaction is that of flagged ones exactly when it is
/// published.
pub proof fn law_counter_follows_publication(verdict: Option<FlaggedView>)
    ensures
        verdict is Some ==> verdict_counter(verdict) == Counter::ProcessedFlagged,
        verdict is None ==> verdict_counter(verdict) == Counter::ProcessedClean,
{
}

/// What a call gives of a suspicious transaction to publish bears all that
/// was found, and the row of another call bears the same.
pub proof fn law_row_and_publication_of_calls(
    screened: Screened,
    row: TransactionRow,
    verdict: Verdict,
)
    requires
        call_ensures(Screened::row, (&screened,), row),
        call_ensures(Screened::settle, (screened,), verdict),
    ensures
        row.flagged_reasons@ == screened.reasons@,
        verdict is Flagged <==> screened.reasons@.len() > 0,
        row.flagged_at is Some <==> verdict is Flagged,
        verdict matches Verdict::Flagged(f) ==> f.reasons@ == screened.reasons@ && f.transaction
            == screened.transaction && f.transaction.id == row.id,
{
}

} // verus!
