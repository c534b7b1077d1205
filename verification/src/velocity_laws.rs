//! What holds of the velocity rule over whole runs of transactions.
use vstd::prelude::*;

use crate::filters::{lemma_filter_agrees, lemma_filter_keeps_all, lemma_filter_twice};
use crate::timestamp::Moment;
use crate::velocity_tracker::{history_of, in_window, is_expired, record, record_in, up_to};

verus! {

/// One transaction as the tracker sees it.
pub struct Entry {
    pub account: Seq<char>,
    pub at: Moment,
}

/// No instant is earlier than one that stands before it.
pub open spec fn in_order(at: Seq<Moment>) -> bool {
    forall|i: int, j: int| 0 <= i <= j < at.len() ==> !(#[trigger] at[j]).before(#[trigger] at[i])
}

/// No instant lies in the last window that had expired at some instant since
/// it was recorded. It could only do so where the start of the window moves
/// back: after a late arrival, or at a leap second.
pub open spec fn none_returns(at: Seq<Moment>, window: int) -> bool {
    forall|i: int, j: int|
        0 <= i <= j < at.len() && is_expired(#[trigger] at[i], #[trigger] at[j], window)
            ==> !in_window(at[i], at.last(), window)
}

/// The history of an account after transactions at the given instants.
pub open spec fn replay(at: Seq<Moment>, window: int) -> Seq<Moment>
    decreases at.len(),
{
    if at.len() == 0 {
        Seq::empty()
    } else {
        record(replay(at.drop_last(), window), at.last(), window)
    }
}

/// All histories after the given transactions.
pub open spec fn replay_all(entries: Seq<Entry>, window: int) -> Map<Seq<char>, Seq<Moment>>
    decreases entries.len(),
{
    if entries.len() == 0 {
        Map::empty()
    } else {
        record_in(
            replay_all(entries.drop_last(), window),
            entries.last().account,
            entries.last().at,
            window,
        )
    }
}

/// The instants of one account's transactions.
pub open spec fn instants_of(entries: Seq<Entry>, account: Seq<char>) -> Seq<Moment> {
    entries.filter(|e: Entry| e.account == account).map_values(|e: Entry| e.at)
}

/// Whether `m` has expired at none of the instants.
pub open spec fn outlives(m: Moment, at: Seq<Moment>, window: int) -> bool {
    forall|j: int| 0 <= j < at.len() ==> !is_expired(m, #[trigger] at[j], window)
}

/// Recording drops what has expired and nothing else, in whatever order it
/// arrived.
pub proof fn law_only_expired_are_dropped(history: Seq<Moment>, at: Moment, window: int, m: Moment)
    ensures
        record(history, at, window).contains(m) <==> history.push(at).contains(m) && !is_expired(
            m,
            at,
            window,
        ),
        record(history, at, window).len() <= history.len() + 1,
{
    let all = history.push(at);
    let live = |x: Moment| !is_expired(x, at, window);
    all.lemma_filter_len(live);
    if record(history, at, window).contains(m) {
        all.lemma_filter_contains_rev(live, m);
        let i = choose|i: int| 0 <= i < all.filter(live).len() && all.filter(live)[i] == m;
        all.lemma_filter_pred(live, i);
    }
    if all.contains(m) && !is_expired(m, at, window) {
        let i = choose|i: int| 0 <= i < all.len() && all[i] == m;
        assert(live(all[i]));
        all.lemma_filter_contains(live, i);
    }
}

/// The transaction being recorded counts towards its own window: it is the
/// last entry of what counts whenever the window does not lie in the future.
pub proof fn law_newest_transaction_counts(history: Seq<Moment>, at: Moment, window: int)
    requires
        window >= 0,
    ensures
        record(history, at, window).len() >= 1,
        record(history, at, window).last() == at,
        up_to(record(history, at, window), at).len() >= 1,
        up_to(record(history, at, window), at).last() == at,
{
    let live = |m: Moment| !is_expired(m, at, window);
    let early = |m: Moment| !at.before(m);
    history.lemma_filter_push(at, live);
    history.filter(live).lemma_filter_push(at, early);
}

/// Whatever has not expired since its arrival is still in the history: stated
/// of any selection `q` of such instants.
proof fn lemma_replay_keeps(at: Seq<Moment>, window: int, q: spec_fn(Moment) -> bool)
    requires
        forall|i: int, j: int|
            0 <= i <= j < at.len() && is_expired(#[trigger] at[i], #[trigger] at[j], window)
                ==> !q(at[i]),
    ensures
        replay(at, window).filter(q) == at.filter(q),
    decreases at.len(),
{
    if at.len() == 0 {
        assert(replay(at, window) =~= at);
    } else {
        let rest = at.drop_last();
        let last = at.last();
        let live = |m: Moment| !is_expired(m, last, window);
        let both = |m: Moment| live(m) && q(m);
        assert forall|i: int, j: int|
            0 <= i <= j < rest.len() && is_expired(#[trigger] rest[i], #[trigger] rest[j], window)
            implies !q(rest[i]) by {
            assert(is_expired(at[i], at[j], window));
        }
        lemma_replay_keeps(rest, window, q);

        let history = replay(rest, window);
        lemma_filter_twice(history.push(last), live, q);
        assert forall|i: int| 0 <= i < history.push(last).len() implies both(
            #[trigger] history.push(last)[i],
        ) == q(history.push(last)[i]) by {
            let m = history.push(last)[i];
            if i < history.len() {
                let k = lemma_replayed(rest, window, i);
                assert(at[k] == m);
                assert(at[at.len() - 1] == last);
            } else {
                assert(at[at.len() - 1] == m);
            }
        }
        lemma_filter_agrees(history.push(last), both, q);
        history.lemma_filter_push(last, q);
        rest.lemma_filter_push(last, q);
        assert(at =~= rest.push(last));
    }
}

/// Each entry of a history was recorded, and has not expired since.
proof fn lemma_replayed(at: Seq<Moment>, window: int, i: int) -> (k: int)
    requires
        0 <= i < replay(at, window).len(),
    ensures
        0 <= k < at.len(),
        at[k] == replay(at, window)[i],
        forall|j: int| k <= j < at.len() ==> !is_expired(at[k], #[trigger] at[j], window),
    decreases at.len(),
{
    let rest = at.drop_last();
    let last = at.last();
    let history = replay(rest, window).push(last);
    let live = |m: Moment| !is_expired(m, last, window);
    let m = replay(at, window)[i];
    history.lemma_filter_pred(live, i);
    assert(history.filter(live).contains(m));
    history.lemma_filter_contains_rev(live, m);
    let h = choose|h: int| 0 <= h < history.len() && history[h] == m;
    if h < replay(rest, window).len() {
        let k = lemma_replayed(rest, window, h);
        assert forall|j: int| k <= j < at.len() implies !is_expired(
            at[k],
            #[trigger] at[j],
            window,
        ) by {
            if j < rest.len() {
                assert(!is_expired(rest[k], rest[j], window));
            }
        }
        k
    } else {
        at.len() - 1
    }
}

/// When an account's transactions arrive in order, its history holds those
/// that have never expired, leap seconds or not.
pub proof fn law_history_is_what_never_expired(at: Seq<Moment>, window: int)
    requires
        in_order(at),
    ensures
        replay(at, window) == at.filter(|m: Moment| outlives(m, at, window)),
{
    let kept = |m: Moment| outlives(m, at, window);
    lemma_replay_keeps(at, window, kept);
    let history = replay(at, window);
    assert forall|i: int| 0 <= i < history.len() implies kept(#[trigger] history[i]) by {
        let k = lemma_replayed(at, window, i);
        assert(!is_expired(at[k], at[k], window));
        assert forall|j: int| 0 <= j < at.len() implies !is_expired(
            history[i],
            #[trigger] at[j],
            window,
        ) by {
            if j < k {
                assert(!at[k].before(at[j]));
            }
        }
    }
    lemma_filter_keeps_all(history, kept);
}

/// The velocity rule: when none of an account's transactions returns to the
/// window, what counts of its history is exactly those of its transactions
/// that lie in the window trailing the last one. The rule therefore fires when
/// more than `threshold` of them do.
pub proof fn law_what_counts_is_the_trailing_window(at: Seq<Moment>, window: int)
    requires
        at.len() > 0,
        none_returns(at, window),
    ensures
        up_to(replay(at, window), at.last()) == at.filter(
            |m: Moment| in_window(m, at.last(), window),
        ),
{
    let last = at.last();
    let within = |m: Moment| in_window(m, last, window);
    let early = |m: Moment| !last.before(m);
    lemma_replay_keeps(at, window, within);
    let history = replay(at, window);
    assert forall|i: int| 0 <= i < history.len() implies within(#[trigger] history[i]) == early(
        history[i],
    ) by {
        let k = lemma_replayed(at, window, i);
        assert(!is_expired(at[k], at[at.len() - 1], window));
    }
    lemma_filter_agrees(history, within, early);
}

/// When instants arrive in order and none is in a leap second, the start of
/// the window moves with its end, so that what has expired never returns.
pub proof fn law_none_returns_in_order(at: Seq<Moment>, window: int)
    requires
        in_order(at),
        forall|i: int| 0 <= i < at.len() ==> !(#[trigger] at[i]).is_leap(),
    ensures
        none_returns(at, window),
{
    assert forall|i: int, j: int|
        0 <= i <= j < at.len() && is_expired(#[trigger] at[i], #[trigger] at[j], window)
        implies !in_window(at[i], at.last(), window) by {
        assert(!at[at.len() - 1].before(at[j]));
    }
}

/// A transaction of one account leaves the history of every other account as
/// it was, and no account is ever forgotten.
pub proof fn law_other_accounts_are_untouched(
    histories: Map<Seq<char>, Seq<Moment>>,
    account: Seq<char>,
    other: Seq<char>,
    at: Moment,
    window: int,
)
    requires
        other != account,
    ensures
        history_of(record_in(histories, account, at, window), other) == history_of(
            histories,
            other,
        ),
        record_in(histories, account, at, window).dom() == histories.dom().insert(account),
{
    assert(record_in(histories, account, at, window).dom() =~= histories.dom().insert(account));
}

/// Accounts are tracked independently: however the transactions of several
/// accounts are interleaved, the history of each is what its own transactions
/// alone would have left.
pub proof fn law_accounts_are_independent(entries: Seq<Entry>, account: Seq<char>, window: int)
    ensures
        history_of(replay_all(entries, window), account) == replay(
            instants_of(entries, account),
            window,
        ),
    decreases entries.len(),
{
    broadcast use Seq::lemma_filter_push;

    let own = |e: Entry| e.account == account;
    let time = |e: Entry| e.at;
    if entries.len() == 0 {
        reveal(Seq::filter);
        assert(entries.filter(own).map_values(time) =~= Seq::<Moment>::empty());
    } else {
        let rest = entries.drop_last();
        let last = entries.last();
        law_accounts_are_independent(rest, account, window);
        assert(entries =~= rest.push(last));
        if last.account == account {
            let before = instants_of(rest, account);
            let after = instants_of(entries, account);
            assert(after =~= before.push(last.at));
            assert(after.drop_last() =~= before);
        }
    }
}

/// The velocity rule for any interleaving of accounts: when no transaction of
/// the last one's account returns to the window, what counts of its history is
/// its own transactions in the window that trails the last one, and no others.
pub proof fn law_velocity_rule(entries: Seq<Entry>, window: int)
    requires
        entries.len() > 0,
        none_returns(instants_of(entries, entries.last().account), window),
    ensures
        up_to(
            replay_all(entries, window)[entries.last().account],
            entries.last().at,
        ) == instants_of(entries, entries.last().account).filter(|m: Moment| in_window(m, entries.last().at, window)),
{
    broadcast use Seq::lemma_filter_push;

    let account = entries.last().account;
    let at = instants_of(entries, account);
    law_accounts_are_independent(entries, account, window);
    assert(entries =~= entries.drop_last().push(entries.last()));
    assert(at =~= instants_of(entries.drop_last(), account).push(entries.last().at));
    law_what_counts_is_the_trailing_window(at, window);
}

/// An account is known exactly when one of its transactions was recorded.
pub proof fn law_known_accounts(entries: Seq<Entry>, account: Seq<char>, window: int)
    ensures
        replay_all(entries, window).contains_key(account) <==> exists|i: int|
            0 <= i < entries.len() && (#[trigger] entries[i]).account == account,
    decreases entries.len(),
{
    if entries.len() > 0 {
        let rest = entries.drop_last();
        law_known_accounts(rest, account, window);
        if exists|i: int| 0 <= i < entries.len() && (#[trigger] entries[i]).account == account {
            let i = choose|i: int| 0 <= i < entries.len() && (#[trigger] entries[i]).account
                == account;
            if i < rest.len() {
                assert(rest[i].account == account);
            }
        }
        if exists|i: int| 0 <= i < rest.len() && (#[trigger] rest[i]).account == account {
            let i = choose|i: int| 0 <= i < rest.len() && (#[trigger] rest[i]).account == account;
            assert(entries[i].account == account);
        }
        if entries.last().account == account {
            assert(entries[entries.len() - 1].account == account);
        }
    }
}

/// Away from leap seconds, the window is one of nanoseconds: an instant lies in
/// it when it is at most `window` seconds older than `now`, and not newer.
pub proof fn law_window_in_nanoseconds(m: Moment, now: Moment, window: int)
    requires
        0 <= m.nanos < 1_000_000_000,
        0 <= now.nanos < 1_000_000_000,
    ensures
        is_expired(m, now, window) <==> m.secs * 1_000_000_000 + m.nanos < now.secs * 1_000_000_000
            + now.nanos - window * 1_000_000_000,
        in_window(m, now, window) <==> now.secs * 1_000_000_000 + now.nanos - window
            * 1_000_000_000 <= m.secs * 1_000_000_000 + m.nanos <= now.secs * 1_000_000_000
            + now.nanos,
{
}

/// With leap seconds too: the window ends with `now`, and starts where as many
/// seconds less lead, out of a leap second by a step of its own.
pub proof fn law_window_with_leap_seconds(m: Moment, now: Moment, window: int)
    requires
        0 <= m.nanos < 2_000_000_000,
        0 <= now.nanos < 2_000_000_000,
    ensures
        ({
            let leap = now.nanos >= 1_000_000_000 && window != 0;
            let secs = now.secs - window + (if leap && window > 0 {
                1int
            } else {
                0
            });
            let nanos = now.nanos - (if leap {
                1_000_000_000int
            } else {
                0
            });
            &&& is_expired(m, now, window) <==> m.secs < secs || (m.secs == secs && m.nanos < nanos)
            &&& in_window(m, now, window) <==> !is_expired(m, now, window) && (m.secs < now.secs || (
            m.secs == now.secs && m.nanos <= now.nanos))
        }),
{
}

/// What a transaction leaves in its account's history, and what of it counts,
/// in nanoseconds: nothing is dropped but what is more than `window` seconds
/// older, everything else stays in the order of arrival, and of that counts
/// what is not newer.
pub proof fn law_record_in_nanoseconds(history: Seq<Moment>, at: Moment, window: int)
    requires
        0 <= at.nanos < 1_000_000_000,
        forall|i: int| 0 <= i < history.len() ==> 0 <= (#[trigger] history[i]).nanos < 1_000_000_000,
    ensures
        record(history, at, window) == history.push(at).filter(
            |m: Moment|
                m.secs * 1_000_000_000 + m.nanos >= at.secs * 1_000_000_000 + at.nanos - window
                    * 1_000_000_000,
        ),
        up_to(record(history, at, window), at) == history.push(at).filter(
            |m: Moment|
                at.secs * 1_000_000_000 + at.nanos - window * 1_000_000_000 <= m.secs * 1_000_000_000
                    + m.nanos <= at.secs * 1_000_000_000 + at.nanos,
        ),
{
    let all = history.push(at);
    let live = |m: Moment| !is_expired(m, at, window);
    let early = |m: Moment| !at.before(m);
    let both = |m: Moment| live(m) && early(m);
    let live_ns = |m: Moment|
        m.secs * 1_000_000_000 + m.nanos >= at.secs * 1_000_000_000 + at.nanos - window
            * 1_000_000_000;
    let within_ns = |m: Moment|
        at.secs * 1_000_000_000 + at.nanos - window * 1_000_000_000 <= m.secs * 1_000_000_000
            + m.nanos <= at.secs * 1_000_000_000 + at.nanos;
    assert forall|i: int| 0 <= i < all.len() implies live(#[trigger] all[i]) == live_ns(all[i])
        && both(all[i]) == within_ns(all[i]) by {
        if i < history.len() {
            assert(all[i] == history[i]);
        }
        law_window_in_nanoseconds(all[i], at, window);
    }
    lemma_filter_agrees(all, live, live_ns);
    lemma_filter_twice(all, live, early);
    lemma_filter_agrees(all, both, within_ns);
}

/// The same with leap seconds: what stays and what counts, by the seconds and
/// the nanoseconds of the window's two ends.
pub proof fn law_record_with_leap_seconds(history: Seq<Moment>, at: Moment, window: int)
    requires
        0 <= at.nanos < 2_000_000_000,
        forall|i: int| 0 <= i < history.len() ==> 0 <= (#[trigger] history[i]).nanos < 2_000_000_000,
    ensures
        ({
            let leap = at.nanos >= 1_000_000_000 && window != 0;
            let secs = at.secs - window + (if leap && window > 0 {
                1int
            } else {
                0
            });
            let nanos = at.nanos - (if leap {
                1_000_000_000int
            } else {
                0
            });
            let live = |m: Moment| m.secs > secs || (m.secs == secs && m.nanos >= nanos);
            let early = |m: Moment| m.secs < at.secs || (m.secs == at.secs && m.nanos <= at.nanos);
            &&& record(history, at, window) == history.push(at).filter(live)
            &&& up_to(record(history, at, window), at) == history.push(at).filter(live).filter(
                early,
            )
        }),
{
    let leap = at.nanos >= 1_000_000_000 && window != 0;
    let secs = at.secs - window + (if leap && window > 0 {
        1int
    } else {
        0
    });
    let nanos = at.nanos - (if leap {
        1_000_000_000int
    } else {
        0
    });
    let live = |m: Moment| m.secs > secs || (m.secs == secs && m.nanos >= nanos);
    let early = |m: Moment| m.secs < at.secs || (m.secs == at.secs && m.nanos <= at.nanos);
    let all = history.push(at);
    assert forall|i: int| 0 <= i < all.len() implies !is_expired(#[trigger] all[i], at, window)
        == live(all[i]) by {
        if i < history.len() {
            assert(all[i] == history[i]);
        }
        law_window_with_leap_seconds(all[i], at, window);
    }
    lemma_filter_agrees(all, |m: Moment| !is_expired(m, at, window), live);
    lemma_filter_agrees(all.filter(live), |m: Moment| !at.before(m), early);
}

/// The velocity rule in nanoseconds: of an account whose transactions arrive
/// in order, away from leap seconds, those count that are at most `window`
/// seconds older than the last one, all of them and no others.
pub proof fn law_velocity_rule_in_nanoseconds(at: Seq<Moment>, window: int)
    requires
        at.len() > 0,
        forall|i: int| 0 <= i < at.len() ==> 0 <= (#[trigger] at[i]).nanos < 1_000_000_000,
        forall|i: int, j: int|
            0 <= i <= j < at.len() ==> (#[trigger] at[i]).secs * 1_000_000_000 + at[i].nanos <= (
            #[trigger] at[j]).secs * 1_000_000_000 + at[j].nanos,
    ensures
        up_to(replay(at, window), at.last()) == at.filter(
            |m: Moment|
                at.last().secs * 1_000_000_000 + at.last().nanos - window * 1_000_000_000 <= m.secs
                    * 1_000_000_000 + m.nanos,
        ),
{
    let last = at.last();
    let within = |m: Moment| in_window(m, last, window);
    let within_ns = |m: Moment|
        at.last().secs * 1_000_000_000 + at.last().nanos - window * 1_000_000_000 <= m.secs
            * 1_000_000_000 + m.nanos;
    law_none_returns_in_order(at, window);
    law_what_counts_is_the_trailing_window(at, window);
    assert forall|i: int| 0 <= i < at.len() implies within(#[trigger] at[i]) == within_ns(
        at[i],
    ) by {
        law_window_in_nanoseconds(at[i], at[at.len() - 1], window);
        assert(at[i].secs * 1_000_000_000 + at[i].nanos <= at[at.len() - 1].secs * 1_000_000_000
            + at[at.len() - 1].nanos);
    }
    lemma_filter_agrees(at, within, within_ns);
}

/// Only the account of a transaction changes, and only by that transaction:
/// stated of the entries of the map.
pub proof fn law_one_entry_changes(
    histories: Map<Seq<char>, Seq<Moment>>,
    account: Seq<char>,
    at: Moment,
    window: int,
)
    ensures
        ({
            let after = record_in(histories, account, at, window);
            &&& after.contains_key(account)
            &&& histories.contains_key(account) ==> after[account] == record(
                histories[account],
                at,
                window,
            )
            &&& !histories.contains_key(account) ==> after[account] == record(
                Seq::empty(),
                at,
                window,
            )
            &&& forall|other: Seq<char>|
                other != account ==> #[trigger] after.contains_key(other) == histories.contains_key(
                    other,
                )
            &&& forall|other: Seq<char>|
                other != account && histories.contains_key(other) ==> #[trigger] after[other]
                    == histories[other]
        }),
{
}

/// Instants moved by whole seconds.
pub open spec fn moved(at: Seq<Moment>, secs: int) -> Seq<Moment> {
    Seq::new(at.len(), |i: int| Moment { secs: at[i].secs + secs, nanos: at[i].nanos })
}

proof fn lemma_moved_filter(
    at: Seq<Moment>,
    secs: int,
    p: spec_fn(Moment) -> bool,
    q: spec_fn(Moment) -> bool,
)
    requires
        forall|m: Moment| #[trigger]
            p(m) == q(Moment { secs: m.secs + secs, nanos: m.nanos }),
    ensures
        moved(at, secs).filter(q) == moved(at.filter(p), secs),
    decreases at.len(),
{
    reveal(Seq::filter);
    if at.len() == 0 {
        assert(moved(at, secs).filter(q) =~= moved(at.filter(p), secs));
    } else {
        let rest = at.drop_last();
        lemma_moved_filter(rest, secs, p, q);
        assert(moved(at, secs).drop_last() =~= moved(rest, secs));
        assert(p(at.last()) == q(moved(at, secs).last()));
        assert(moved(at, secs).filter(q) =~= moved(at.filter(p), secs));
    }
}

/// Only differences of time matter: where all instants of an account are moved
/// by the same number of seconds, its history is moved with them, and as many
/// transactions count.
pub proof fn law_only_differences_of_time_matter(at: Seq<Moment>, window: int, secs: int)
    ensures
        replay(moved(at, secs), window) == moved(replay(at, window), secs),
        at.len() > 0 ==> up_to(replay(moved(at, secs), window), moved(at, secs).last()).len()
            == up_to(replay(at, window), at.last()).len(),
    decreases at.len(),
{
    if at.len() == 0 {
        assert(replay(moved(at, secs), window) =~= moved(replay(at, window), secs));
    } else {
        let rest = at.drop_last();
        let last = at.last();
        let later = Moment { secs: last.secs + secs, nanos: last.nanos };
        law_only_differences_of_time_matter(rest, window, secs);
        assert(moved(at, secs).drop_last() =~= moved(rest, secs));
        assert(moved(at, secs).last() == later);

        let history = replay(rest, window).push(last);
        assert(moved(history, secs) =~= moved(replay(rest, window), secs).push(later));
        lemma_moved_filter(
            history,
            secs,
            |m: Moment| !is_expired(m, last, window),
            |m: Moment| !is_expired(m, later, window),
        );
        lemma_moved_filter(
            replay(at, window),
            secs,
            |m: Moment| !last.before(m),
            |m: Moment| !later.before(m),
        );
    }
}

} // verus!
