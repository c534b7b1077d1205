//! Instants in UTC, to the nanosecond, on the calendar of the `chrono` crate.
//!
//! A [`Timestamp`] is the pair of numbers that `chrono::DateTime<Utc>` is
//! made of and read back into: whole seconds since the start of 1970, and
//! nanoseconds within the second. A leap second is written as the second
//! before it with a nanosecond part of one billion or more.
use vstd::prelude::*;

verus! {

/// The first second of the calendar, the start of the year -262143.
pub const FIRST_SECOND: i64 = -8_334_601_228_800;

/// The last second of the calendar, the end of the year 262142.
pub const LAST_SECOND: i64 = 8_210_266_876_799;

/// An instant as mathematics: seconds since the epoch and nanoseconds within
/// the second.
pub struct Moment {
    pub secs: int,
    pub nanos: int,
}

impl Moment {
    /// The pairs of numbers that stand for an instant of the calendar.
    pub open spec fn on_calendar(self) -> bool {
        &&& FIRST_SECOND <= self.secs <= LAST_SECOND
        &&& 0 <= self.nanos < 2_000_000_000
        &&& self.is_leap() ==> self.secs % 60 == 59
    }

    /// Whether this instant lies within a leap second.
    pub open spec fn is_leap(self) -> bool {
        self.nanos >= 1_000_000_000
    }

    /// Strictly earlier on the time line.
    pub open spec fn before(self, other: Moment) -> bool {
        self.secs < other.secs || (self.secs == other.secs && self.nanos < other.nanos)
    }

    /// The instant `n` seconds earlier, or `-n` seconds later for a negative
    /// `n`. A leap second counts as one second of its own only for the step
    /// out of it; no other leap second is assumed on the way.
    pub open spec fn less_seconds(self, n: int) -> Moment {
        if !self.is_leap() || n == 0 {
            Moment { secs: self.secs - n, nanos: self.nanos }
        } else if n > 0 {
            Moment { secs: self.secs + 1 - n, nanos: self.nanos - 1_000_000_000 }
        } else {
            Moment { secs: self.secs - n, nanos: self.nanos - 1_000_000_000 }
        }
    }

    /// The hour of the day in UTC.
    pub open spec fn hour(self) -> int {
        (self.secs % 86_400) / 3_600
    }
}

/// Reads the system clock through `chrono::Utc::now`, which never reports an
/// instant before the epoch nor one within a leap second. Which instant it
/// is, is left open.
#[verifier::external_body]
fn read_clock() -> (now: (i64, u32))
    ensures
        0 <= now.0 <= LAST_SECOND,
        now.1 < 1_000_000_000,
{
    let now = chrono::Utc::now();
    (now.timestamp(), now.timestamp_subsec_nanos())
}

/// Subtracts whole seconds through `DateTime::checked_sub_signed`, the
/// function behind `chrono`'s `-` operator. It follows
/// [`Moment::less_seconds`], and gives nothing where that leaves the calendar.
#[verifier::external_body]
fn subtract_seconds(secs: i64, nanos: u32, n: i64) -> (earlier: Option<(i64, u32)>)
    requires
        (Moment { secs: secs as int, nanos: nanos as int }).on_calendar(),
    ensures
        ({
            let m = (Moment { secs: secs as int, nanos: nanos as int }).less_seconds(n as int);
            match earlier {
                Some(e) => m.on_calendar() && m.secs == e.0 && m.nanos == e.1,
                None => !m.on_calendar(),
            }
        }),
{
    let at = chrono::DateTime::<chrono::Utc>::from_timestamp(secs, nanos)?;
    let span = chrono::TimeDelta::try_seconds(n)?;
    let earlier = at.checked_sub_signed(span)?;
    Some((earlier.timestamp(), earlier.timestamp_subsec_nanos()))
}

/// The hour of the day through `chrono::Timelike::hour`, from 0 to 23.
#[verifier::external_body]
fn hour_of_day(secs: i64, nanos: u32) -> (hour: u32)
    requires
        (Moment { secs: secs as int, nanos: nanos as int }).on_calendar(),
    ensures
        hour == (Moment { secs: secs as int, nanos: nanos as int }).hour(),
{
    let at = chrono::DateTime::<chrono::Utc>::from_timestamp(secs, nanos).unwrap();
    chrono::Timelike::hour(&at)
}

/// An instant of the calendar.
#[derive(Clone, Copy, Debug, PartialEq, Eq, Structural)]
pub struct Timestamp {
    secs: i64,
    nanos: u32,
}

impl View for Timestamp {
    type V = Moment;

    closed spec fn view(&self) -> Moment {
        Moment { secs: self.secs as int, nanos: self.nanos as int }
    }
}

impl Timestamp {
    #[verifier::type_invariant]
    spec fn inv(self) -> bool {
        self@.on_calendar()
    }

    /// Whether this instant is one that the system clock showed when it was
    /// read.
    pub closed spec fn is_clock_reading(self) -> bool {
        call_ensures(read_clock, (), (self.secs, self.nanos))
    }

    /// The instant with the given seconds since the epoch and nanoseconds
    /// within the second, where the calendar has it.
    pub fn new(secs: i64, nanos: u32) -> (timestamp: Option<Timestamp>)
        ensures
            ({
                let m = Moment { secs: secs as int, nanos: nanos as int };
                match timestamp {
                    Some(t) => m.on_calendar() && t@ == m,
                    None => !m.on_calendar(),
                }
            }),
    {
        if secs < FIRST_SECOND || LAST_SECOND < secs || nanos >= 2_000_000_000 {
            return None;
        }
        // The calendar starts with a minute.
        if nanos >= 1_000_000_000 && (secs - FIRST_SECOND) % 60 != 59 {
            return None;
        }
        Some(Timestamp { secs, nanos })
    }

    /// The instant that the system clock shows.
    pub fn now() -> (now: Timestamp)
        ensures
            now.is_clock_reading(),
            now@.on_calendar(),
            0 <= now@.secs,
            !now@.is_leap(),
    {
        let (secs, nanos) = read_clock();
        Timestamp { secs, nanos }
    }

    /// Whole seconds since the epoch.
    pub fn secs(&self) -> (secs: i64)
        ensures
            secs == self@.secs,
            self@.on_calendar(),
    {
        proof {
            use_type_invariant(self);
        }
        self.secs
    }

    /// Nanoseconds within the second.
    pub fn nanos(&self) -> (nanos: u32)
        ensures
            nanos == self@.nanos,
            self@.on_calendar(),
    {
        proof {
            use_type_invariant(self);
        }
        self.nanos
    }

    /// Whether this instant is strictly earlier than the other one.
    pub fn before(&self, other: &Timestamp) -> (earlier: bool)
        ensures
            earlier == self@.before(other@),
    {
        self.secs < other.secs || (self.secs == other.secs && self.nanos < other.nanos)
    }

    /// The instant `n` seconds earlier, where the calendar has it.
    pub fn minus_seconds(&self, n: i64) -> (earlier: Option<Timestamp>)
        ensures
            match earlier {
                Some(e) => self@.less_seconds(n as int).on_calendar() && e@ == self@.less_seconds(
                    n as int,
                ),
                None => !self@.less_seconds(n as int).on_calendar(),
            },
    {
        proof {
            use_type_invariant(self);
        }
        match subtract_seconds(self.secs, self.nanos, n) {
            Some((secs, nanos)) => Some(Timestamp { secs, nanos }),
            None => None,
        }
    }

    /// Whether this instant is strictly earlier than the one `n` seconds
    /// before `now`, also where the calendar does not have that one. `start`
    /// is what [`Timestamp::minus_seconds`] gives for it.
    pub(crate) fn before_step(
        &self,
        now: &Timestamp,
        n: i64,
        start: &Option<Timestamp>,
    ) -> (earlier: bool)
        requires
            match start {
                Some(s) => s@ == now@.less_seconds(n as int),
                None => !now@.less_seconds(n as int).on_calendar(),
            },
        ensures
            earlier == self@.before(now@.less_seconds(n as int)),
    {
        match start {
            Some(start) => self.before(start),
            None => {
                proof {
                    use_type_invariant(self);
                    use_type_invariant(now);
                    law_steps_leave_only_at_the_ends(now@, n as int);
                }
                // Off the calendar, that instant is before all of it or after
                // all of it.
                n < 0
            },
        }
    }

    /// The hour of the day in UTC, from 0 to 23.
    pub fn hour(&self) -> (hour: u32)
        ensures
            hour == self@.hour(),
            hour < 24,
    {
        proof {
            use_type_invariant(self);
        }
        hour_of_day(self.secs, self.nanos)
    }
}

/// From an instant of the calendar, a step of whole seconds leaves the
/// calendar exactly when it passes the first or the last second.
pub proof fn law_steps_leave_only_at_the_ends(m: Moment, n: int)
    requires
        m.on_calendar(),
    ensures
        m.less_seconds(n).on_calendar() <==> FIRST_SECOND <= m.less_seconds(n).secs <= LAST_SECOND,
{
}

/// A clock reading is what a reading of the clock gave, and a timestamp means
/// the two numbers that it holds.
proof fn law_timestamps_are_their_numbers(t: Timestamp)
    ensures
        t.is_clock_reading() <==> call_ensures(read_clock, (), (t.secs, t.nanos)),
        t@.secs == t.secs,
        t@.nanos == t.nanos,
{
}

/// The calendar runs from -262143-01-01 to 262142-12-31, and has leap seconds
/// at the end of a minute only.
pub proof fn law_calendar(m: Moment)
    ensures
        m.on_calendar() <==> {
            &&& -8_334_601_228_800 <= m.secs <= 8_210_266_876_799
            &&& 0 <= m.nanos < 2_000_000_000
            &&& m.nanos >= 1_000_000_000 ==> m.secs % 60 == 59
        },
{
}

/// One instant is before another when fewer nanoseconds have passed. A leap
/// second comes after the second that it is written with and before the next.
pub proof fn law_order_in_nanoseconds(m: Moment, other: Moment)
    requires
        0 <= m.nanos < 2_000_000_000,
        0 <= other.nanos < 2_000_000_000,
    ensures
        m.before(other) <==> m.secs * 2_000_000_000 + m.nanos < other.secs * 2_000_000_000
            + other.nanos,
        m.nanos < 1_000_000_000 && other.nanos < 1_000_000_000 ==> (m.before(other) <==> m.secs
            * 1_000_000_000 + m.nanos < other.secs * 1_000_000_000 + other.nanos),
{
}

/// Away from leap seconds, `n` seconds are `n` times a billion nanoseconds. A
/// leap second is left by a step of its own.
pub proof fn law_steps_in_nanoseconds(m: Moment, n: int)
    ensures
        m.nanos < 1_000_000_000 || n == 0 ==> m.less_seconds(n).secs == m.secs - n && m.less_seconds(
            n,
        ).nanos == m.nanos,
        m.nanos >= 1_000_000_000 && n != 0 ==> m.less_seconds(n).secs * 1_000_000_000
            + m.less_seconds(n).nanos == m.secs * 1_000_000_000 + m.nanos - n * 1_000_000_000 - (
        if n > 0 {
            0
        } else {
            1_000_000_000int
        }) && m.less_seconds(n).nanos == m.nanos - 1_000_000_000,
{
}

/// The hour is the number of whole hours since the day began, and the day has
/// 86400 seconds.
pub proof fn law_hour_in_seconds(m: Moment)
    ensures
        0 <= m.hour() < 24,
        3_600 * m.hour() <= m.secs % 86_400 < 3_600 * (m.hour() + 1),
{
}

} // verus!
