//! A stateful rule: an account is suspicious when it has made more than a
//! given number of transactions within a given number of seconds.
//!
//! The tracker remembers, for every account it has seen, the instants of its
//! recent transactions, in the order of arrival. With each new transaction,
//! the instants that have left the trailing window are dropped from the
//! account's queue, a late arrival among them. What is newer than a late
//! arrival stays in the queue and does not count for it. An account once seen
//! is never forgotten, though its queue may become short.
use std::collections::VecDeque;
use vstd::hash_map::StringHashMap;
use vstd::prelude::*;

use crate::timestamp::{Moment, Timestamp};

verus! {

/// Whether `m` lies before the window of `window` seconds that trails `now`.
pub open spec fn is_expired(m: Moment, now: Moment, window: int) -> bool {
    m.before(now.less_seconds(window))
}

/// Whether `m` lies in the window of `window` seconds that trails `now`, both
/// ends included.
pub open spec fn in_window(m: Moment, now: Moment, window: int) -> bool {
    !is_expired(m, now, window) && !now.before(m)
}

/// The history of one account after a transaction at `at`: what has not
/// expired, in the order of arrival.
pub open spec fn record(history: Seq<Moment>, at: Moment, window: int) -> Seq<Moment> {
    history.push(at).filter(|m: Moment| !is_expired(m, at, window))
}

/// The part of a history that is not after `at`. It is what counts for a
/// transaction that arrives late.
pub open spec fn up_to(history: Seq<Moment>, at: Moment) -> Seq<Moment> {
    history.filter(|m: Moment| !at.before(m))
}

/// The history of an account, empty for one that was never seen.
pub open spec fn history_of(
    histories: Map<Seq<char>, Seq<Moment>>,
    account: Seq<char>,
) -> Seq<Moment> {
    if histories.contains_key(account) {
        histories[account]
    } else {
        Seq::empty()
    }
}

/// All histories after a transaction of `account` at `at`.
pub open spec fn record_in(
    histories: Map<Seq<char>, Seq<Moment>>,
    account: Seq<char>,
    at: Moment,
    window: int,
) -> Map<Seq<char>, Seq<Moment>> {
    histories.insert(account, record(history_of(histories, account), at, window))
}

/// The instants that a sequence of timestamps stands for.
pub open spec fn moments(timestamps: Seq<Timestamp>) -> Seq<Moment> {
    Seq::new(timestamps.len(), |i: int| timestamps[i]@)
}

/// Drops the timestamps of `queue` that have expired, wherever they stand, and
/// keeps the others in their order.
fn drop_expired(queue: &mut VecDeque<Timestamp>, now: &Timestamp, window_secs: i64)
    ensures
        moments(final(queue)@) == moments(old(queue)@).filter(
            |m: Moment| !is_expired(m, now@, window_secs as int),
        ),
{
    let ghost all = moments(queue@);
    let ghost live = |m: Moment| !is_expired(m, now@, window_secs as int);
    let start = now.minus_seconds(window_secs);
    let total: usize = queue.len();
    let mut seen: usize = 0;
    proof {
        reveal(Seq::filter);
        assert(moments(queue@) =~= all.skip(0) + all.take(0).filter(live));
    }
    // Each timestamp is taken off the front once, and goes to the back if it
    // stays.
    while seen < total
        invariant
            seen <= total,
            total == all.len(),
            live == (|m: Moment| !is_expired(m, now@, window_secs as int)),
            match start {
                Some(s) => s@ == now@.less_seconds(window_secs as int),
                None => !now@.less_seconds(window_secs as int).on_calendar(),
            },
            moments(queue@) == all.skip(seen as int) + all.take(seen as int).filter(live),
        decreases total - seen,
    {
        let ghost held = queue@;
        let ghost kept = all.take(seen as int).filter(live);
        proof {
            assert(moments(held)[0] == all[seen as int]);
            assert(all.take(seen + 1) =~= all.take(seen as int).push(all[seen as int]));
            all.take(seen as int).lemma_filter_push(all[seen as int], live);
        }
        if let Some(oldest) = queue.pop_front() {
            assert(oldest@ == all[seen as int]);
            assert(moments(queue@) =~= moments(held).drop_first());
            assert(moments(queue@) =~= all.skip(seen + 1) + kept);
            if !oldest.before_step(now, window_secs, &start) {
                let ghost rest = queue@;
                queue.push_back(oldest);
                assert(moments(queue@) =~= moments(rest).push(oldest@));
                assert(moments(queue@) =~= all.skip(seen + 1) + kept.push(oldest@));
            }
        }
        seen = seen + 1;
    }
    assert(all.take(total as int) =~= all);
    assert(moments(queue@) =~= all.filter(live));
}

/// How many timestamps of `queue` are not after `at`.
fn count_up_to(queue: &VecDeque<Timestamp>, at: &Timestamp) -> (count: usize)
    ensures
        count == up_to(moments(queue@), at@).len(),
{
    let ghost all = moments(queue@);
    let ghost early = |m: Moment| !at@.before(m);
    let mut count: usize = 0;
    let mut i: usize = 0;
    proof {
        all.take(0).lemma_filter_len(early);
    }
    while i < queue.len()
        invariant
            i <= queue@.len(),
            all == moments(queue@),
            early == (|m: Moment| !at@.before(m)),
            count == all.take(i as int).filter(early).len(),
            count <= i,
        decreases queue@.len() - i,
    {
        proof {
            assert(all.take(i + 1) =~= all.take(i as int).push(all[i as int]));
            all.take(i as int).lemma_filter_push(all[i as int], early);
        }
        if !at.before(&queue[i]) {
            count = count + 1;
        }
        i = i + 1;
    }
    assert(all.take(i as int) =~= all);
    count
}

/// Recent transaction instants of every account.
///
/// Each account owns one queue; `slots` says which.
pub struct VelocityTracker {
    slots: StringHashMap<usize>,
    queues: Vec<VecDeque<Timestamp>>,
}

impl View for VelocityTracker {
    type V = Map<Seq<char>, Seq<Moment>>;

    closed spec fn view(&self) -> Map<Seq<char>, Seq<Moment>> {
        Map::new(
            |account: Seq<char>| self.slots@.contains_key(account),
            |account: Seq<char>| moments(self.queues@[self.slots@[account] as int]@),
        )
    }
}

impl VelocityTracker {
    /// Every account has a queue, and no two accounts share one.
    pub closed spec fn wf(&self) -> bool {
        &&& forall|a: Seq<char>| #[trigger]
            self.slots@.contains_key(a) ==> self.slots@[a] < self.queues@.len()
        &&& forall|a: Seq<char>, b: Seq<char>|
            #![trigger self.slots@[a], self.slots@[b]]
            self.slots@.contains_key(a) && self.slots@.contains_key(b) && self.slots@[a]
                == self.slots@[b] ==> a == b
    }

    /// A tracker that has seen no account.
    pub fn new() -> (tracker: VelocityTracker)
        ensures
            tracker.wf(),
            tracker@ == Map::<Seq<char>, Seq<Moment>>::empty(),
    {
        let tracker = VelocityTracker { slots: StringHashMap::new(), queues: Vec::new() };
        assert(tracker@ =~= Map::<Seq<char>, Seq<Moment>>::empty());
        tracker
    }

    /// The queue of an account, which is new and empty for an account that
    /// was not seen before.
    fn slot_of(&mut self, account_id: &str) -> (slot: usize)
        requires
            old(self).wf(),
        ensures
            final(self).wf(),
            final(self)@ == old(self)@.insert(account_id@, history_of(old(self)@, account_id@)),
            final(self).slots@.contains_key(account_id@),
            final(self).slots@[account_id@] == slot,
    {
        let ghost before = *self;
        let found: Option<&usize> = self.slots.get(account_id);
        if let Some(slot) = found {
            let slot: usize = *slot;
            assert(self@ =~= before@.insert(account_id@, history_of(before@, account_id@)));
            slot
        } else {
            let slot: usize = self.queues.len();
            self.queues.push(VecDeque::new());
            self.slots.insert(account_id.to_owned(), slot);
            assert(moments(self.queues@[slot as int]@) =~= Seq::<Moment>::empty());
            assert(self@ =~= before@.insert(account_id@, history_of(before@, account_id@)));
            slot
        }
    }

    /// Records a transaction of `account_id` at `timestamp`, then tells
    /// whether the account has more than `threshold` transactions in the
    /// window of `window_secs` seconds that trails it, the new one included.
    pub fn record_and_check(
        &mut self,
        account_id: &str,
        timestamp: Timestamp,
        window_secs: i64,
        threshold: usize,
    ) -> (flagged: bool)
        requires
            old(self).wf(),
        ensures
            final(self).wf(),
            final(self)@ == record_in(
                old(self)@,
                account_id@,
                timestamp@,
                window_secs as int,
            ),
            flagged == (up_to(final(self)@[account_id@], timestamp@).len() > threshold),
    {
        let ghost before = self@;
        let slot: usize = self.slot_of(account_id);
        let ghost opened = *self;

        let queue = &mut self.queues[slot];
        queue.push_back(timestamp);
        proof {
            assert(moments(queue@) =~= moments(opened.queues@[slot as int]@).push(timestamp@));
        }
        drop_expired(queue, &timestamp, window_secs);
        let count: usize = count_up_to(queue, &timestamp);

        proof {
            let after = record_in(before, account_id@, timestamp@, window_secs as int);
            assert(opened@[account_id@] == history_of(before, account_id@));
            assert forall|a: Seq<char>| #[trigger] self@.contains_key(a) implies self@[a]
                == after[a] by {
                if a != account_id@ {
                    assert(self.slots@[a] != self.slots@[account_id@]);
                    assert(opened@[a] == before[a]);
                }
            }
            assert(self@.dom() =~= opened@.dom());
            assert(self@ =~= after);
        }
        count > threshold
    }
}

} // verus!
