//! Dates and times of day as plain numbers, the calls into chrono that format,
//! parse and shift them, and the clock that says when the next word is due.

use crate::text::digit_char;
use chrono::Timelike;
use vstd::prelude::*;

verus! {

/// Seconds from 1970-01-01 00:00:00 to the earliest date-time chrono holds,
/// January 1st of 262144 BCE at midnight.
pub const MIN_SECS: i64 = -8334601228800;

/// Seconds from 1970-01-01 00:00:00 to the last whole second chrono holds,
/// December 31st of 262142 CE at 23:59:59.
pub const MAX_SECS: i64 = 8210266876799;

/// A calendar date and time of day, without time zone: the seconds since
/// 1970-01-01 00:00:00 (leap seconds not counted) and the nanoseconds past that second.
/// A leap second is held as the second before it, with 1_000_000_000 nanoseconds or more.
#[derive(Debug, Clone, Copy, PartialEq, Eq, Structural)]
pub struct DateTime {
    pub secs: i64,
    pub nanos: u32,
}

/// A time of day in whole seconds.
#[derive(Debug, Clone, Copy, PartialEq, Eq, Structural)]
pub struct TimeOfDay {
    pub hour: u32,
    pub minute: u32,
    pub second: u32,
}

impl DateTime {
    /// The values that chrono can hold: inside its calendar, and a leap second
    /// only where a minute ends.
    pub open spec fn wf(self) -> bool {
        &&& MIN_SECS <= self.secs <= MAX_SECS
        &&& self.nanos < 2_000_000_000
        &&& (self.nanos >= 1_000_000_000 ==> self.secs % 60 == 59)
    }

    /// Strictly earlier in time.
    pub open spec fn is_before(self, other: DateTime) -> bool {
        self.secs < other.secs || (self.secs == other.secs && self.nanos < other.nanos)
    }

    /// The date-time a whole number of seconds later. A leap second that is left
    /// behind counts as the second before it, as chrono does.
    pub open spec fn plus_seconds(self, seconds: int) -> DateTime {
        if seconds == 0 {
            self
        } else {
            DateTime {
                secs: (self.secs + seconds) as i64,
                nanos: if self.nanos >= 1_000_000_000 {
                    (self.nanos - 1_000_000_000) as u32
                } else {
                    self.nanos
                },
            }
        }
    }
}

impl TimeOfDay {
    /// A time that a clock shows: hours, minutes and seconds in range.
    pub open spec fn wf(self) -> bool {
        self.hour < 24 && self.minute < 60 && self.second < 60
    }

    /// The length of the day up to this time, in seconds.
    pub open spec fn total_seconds(self) -> int {
        self.hour * 3600 + self.minute * 60 + self.second
    }
}

/// A number below one hundred in two digits, with a leading zero below ten.
pub open spec fn two_digits(n: int) -> Seq<char> {
    seq![digit_char(n / 10), digit_char(n % 10)]
}

/// The `HH:MM:SS` text of a time of day.
pub open spec fn time_of_day_text(t: TimeOfDay) -> Seq<char> {
    two_digits(t.hour as int) + seq![':'] + two_digits(t.minute as int) + seq![':'] + two_digits(
        t.second as int,
    )
}

/// The format in which date-times are stored: year, month and day, then hours,
/// minutes and seconds.
pub const STORED_DATETIME_FORMAT: &'static str = "%Y-%m-%d %H:%M:%S";

/// The text of the stored format.
pub open spec fn stored_format() -> Seq<char> {
    "%Y-%m-%d %H:%M:%S"@
}

/// What chrono writes for a date-time in a format.
pub uninterp spec fn datetime_text(secs: i64, nanos: u32, fmt: Seq<char>) -> Seq<char>;

/// What chrono reads from a text in a format, if it reads one.
pub uninterp spec fn parsed_datetime(text: Seq<char>, fmt: Seq<char>) -> Option<DateTime>;

/// The hours, minutes and whole seconds that chrono's `NaiveTime::from_str` reads
/// from a text as a time of day, if it reads one.
pub uninterp spec fn parsed_time_of_day(text: Seq<char>) -> Option<TimeOfDay>;

/// Shifting by `a` and then by `b` seconds is shifting by `a + b`.
pub proof fn lemma_plus_seconds_adds(t: DateTime, a: int, b: int)
    requires
        0 <= a,
        0 <= b,
        t.nanos < 2_000_000_000,
        t.secs + a + b <= i64::MAX,
    ensures
        t.plus_seconds(a).plus_seconds(b) == t.plus_seconds(a + b),
{
    if a > 0 && b > 0 {
        assert(t.plus_seconds(a).nanos < 1_000_000_000);
    }
}

/// chrono's `NaiveDateTime + TimeDelta` for a whole, non-negative number of seconds.
/// Claimed: the seconds are added and a leap second that is left behind counts as
/// the second before it (chrono's `NaiveTime::overflowing_add_signed`); `requires`
/// leaves out the results past chrono's last date, where the addition panics.
#[verifier::external_body]
fn add_whole_seconds(t: DateTime, seconds: i64) -> (r: DateTime)
    requires
        t.wf(),
        0 <= seconds,
        t.secs + seconds <= MAX_SECS,
    ensures
        r == t.plus_seconds(seconds as int),
{
    let start = chrono::DateTime::from_timestamp(t.secs, t.nanos).unwrap().naive_utc();
    let end = (start + chrono::TimeDelta::seconds(seconds)).and_utc();
    DateTime { secs: end.timestamp(), nanos: end.timestamp_subsec_nanos() }
}

/// chrono's `NaiveDateTime::format`, for the stored format (`requires` keeps out
/// other formats, some of which make `to_string` panic). Claimed: the text is
/// `datetime_text` of the date-time and the format; what that text is, is left to chrono.
#[verifier::external_body]
pub(crate) fn format_datetime(t: DateTime, fmt: &str) -> (r: String)
    requires
        t.wf(),
        fmt@ == stored_format(),
    ensures
        r@ == datetime_text(t.secs, t.nanos, fmt@),
{
    let naive = chrono::DateTime::from_timestamp(t.secs, t.nanos).unwrap().naive_utc();
    naive.format(fmt).to_string()
}

/// chrono's `NaiveDateTime::parse_from_str`, for the stored format. Claimed: the
/// result is `parsed_datetime` of the text and the format, and any date-time it
/// reads is one that chrono can hold.
#[verifier::external_body]
pub(crate) fn parse_datetime(text: &str, fmt: &str) -> (r: Option<DateTime>)
    requires
        fmt@ == stored_format(),
    ensures
        r == parsed_datetime(text@, fmt@),
        r matches Some(t) ==> t.wf(),
{
    chrono::NaiveDateTime::parse_from_str(text, fmt).ok().map(
        |n| DateTime { secs: n.and_utc().timestamp(), nanos: n.and_utc().timestamp_subsec_nanos() },
    )
}

/// chrono's `NaiveTime::from_str` (`%H:%M:%S%.f`), read through `hour`, `minute`
/// and `second`. Claimed: the result is `parsed_time_of_day` of the text, and its
/// parts are in the ranges that chrono's documentation gives for them.
#[verifier::external_body]
pub(crate) fn parse_time_of_day(text: &str) -> (r: Option<TimeOfDay>)
    ensures
        r == parsed_time_of_day(text@),
        r matches Some(t) ==> t.wf(),
{
    text.parse::<chrono::NaiveTime>().ok().map(
        |t| TimeOfDay { hour: t.hour(), minute: t.minute(), second: t.second() },
    )
}

/// chrono's `NaiveTime::from_hms_opt` and its `Display`. Claimed: a time with whole
/// seconds is written as two-digit hours, minutes and seconds, separated by colons.
#[verifier::external_body]
pub(crate) fn format_time_of_day(t: TimeOfDay) -> (r: String)
    requires
        t.wf(),
    ensures
        r@ == time_of_day_text(t),
{
    chrono::NaiveTime::from_hms_opt(t.hour, t.minute, t.second).unwrap().to_string()
}

/// std's `SystemTime`, carried through opaque.
#[verifier::external_type_specification]
#[verifier::external_body]
pub struct ExSystemTime(std::time::SystemTime);

/// std's `SystemTime::now`. Not claimed: which time it is, which depends on when it
/// is called.
#[verifier::external_body]
fn system_time_now() -> (r: std::time::SystemTime) {
    std::time::SystemTime::now()
}

/// std's `SystemTime::duration_since(UNIX_EPOCH)`, read as whole seconds and the
/// nanoseconds past them. Claimed: fewer than 1_000_000_000 nanoseconds
/// (`Duration::subsec_nanos`); `None` (the error) comes where the time is before 1970.
#[verifier::external_body]
fn since_epoch(t: &std::time::SystemTime) -> (r: Option<(u64, u32)>)
    ensures
        r matches Some((secs, nanos)) ==> nanos < 1_000_000_000,
{
    t.duration_since(std::time::UNIX_EPOCH).ok().map(|d| (d.as_secs(), d.subsec_nanos()))
}

/// chrono's `DateTime::<Utc>::from_timestamp`, then `with_timezone` to chrono-tz's
/// `Europe/Kiev` and `naive_utc`. Claimed: a date-time that chrono can hold comes back
/// as it is (a time zone changes the local view, not the UTC instant), and any
/// other gives `None`.
#[verifier::external_body]
fn utc_at_timestamp(secs: i64, nanos: u32) -> (r: Option<DateTime>)
    ensures
        r == (if (DateTime { secs, nanos }).wf() {
            Some(DateTime { secs, nanos })
        } else {
            None
        }),
{
    chrono::DateTime::from_timestamp(secs, nanos).map(|d| {
        let utc = d.with_timezone(&chrono_tz::Europe::Kiev).naive_utc().and_utc();
        DateTime { secs: utc.timestamp(), nanos: utc.timestamp_subsec_nanos() }
    })
}

/// Knows when the next word is due.
#[derive(Debug, Clone, Copy)]
pub struct Clock {
    pub prev_time: DateTime,
    pub next_time: DateTime,
}

impl Clock {
    /// The clock after a check at `now`: if the next update is before `now`, it is
    /// due and `now` becomes the time of the last check that fired.
    pub open spec fn checked_at(self, now: DateTime) -> (Clock, bool) {
        if self.next_time.is_before(now) {
            (Clock { prev_time: now, next_time: self.next_time }, true)
        } else {
            (self, false)
        }
    }

    /// The clock with its next update moved to `next_time`.
    pub open spec fn with_next_update(self, next_time: DateTime) -> Clock {
        Clock { prev_time: self.prev_time, next_time }
    }

    /// The date-time of a reading of the system clock as seconds and nanoseconds
    /// since 1970 (taken as UTC by chrono, seen in the `Europe/Kiev` time zone and taken
    /// back as UTC): `None` where there is no reading or it lies past chrono's calendar.
    pub fn datetime_from_reading(reading: Option<(u64, u32)>) -> (r: Option<DateTime>)
        ensures
            r == match reading {
                Some((s, n)) => if s <= MAX_SECS && n < 1_000_000_000 {
                    Some(DateTime { secs: s as i64, nanos: n })
                } else {
                    None
                },
                None => None,
            },
    {
        match reading {
            Some((secs, nanos)) => {
                if secs <= MAX_SECS as u64 && nanos < 1_000_000_000 {
                    utc_at_timestamp(secs as i64, nanos)
                } else {
                    None
                }
            },
            None => None,
        }
    }

    /// The current date-time (see `datetime_from_reading`); `None` where the system
    /// time reads before 1970 or past chrono's calendar. Which date-time it is depends
    /// on when it is called.
    pub fn get_current_datetime() -> (r: Option<DateTime>)
        ensures
            r matches Some(t) ==> t.wf() && t.secs >= 0 && t.nanos < 1_000_000_000,
    {
        let now = system_time_now();
        Self::datetime_from_reading(since_epoch(&now))
    }

    /// A clock whose last check and next update are both `now`.
    pub fn new_at(now: DateTime) -> (c: Clock)
        ensures
            c == (Clock { prev_time: now, next_time: now }),
    {
        Clock { prev_time: now, next_time: now }
    }

    /// A clock whose last check and next update are both the current time;
    /// `None` where the current time cannot be read (see `get_current_datetime`).
    pub fn new() -> (c: Option<Clock>)
        ensures
            c matches Some(c) ==> c.prev_time == c.next_time && c.prev_time.wf()
                && c.prev_time.secs >= 0 && c.prev_time.nanos < 1_000_000_000 && call_ensures(
                Clock::get_current_datetime,
                (),
                Some(c.prev_time),
            ),
            c is None ==> call_ensures(Clock::get_current_datetime, (), None),
    {
        match Self::get_current_datetime() {
            Some(now) => Some(Self::new_at(now)),
            None => None,
        }
    }

    /// Checks at `now` whether the next update is due; if it is, remembers `now`.
    pub fn check_clock_at(&mut self, now: DateTime) -> (due: bool)
        ensures
            (*final(self), due) == old(self).checked_at(now),
    {
        if self.next_time.secs < now.secs || (self.next_time.secs == now.secs
            && self.next_time.nanos < now.nanos) {
            self.prev_time = now;
            true
        } else {
            false
        }
    }

    /// Checks at the current time whether the next update is due; `None`, with the
    /// clock unchanged, where the current time cannot be read.
    pub fn check_clock(&mut self) -> (due: Option<bool>)
        ensures
            due is None ==> *final(self) == *old(self) && call_ensures(
                Clock::get_current_datetime,
                (),
                None,
            ),
            due matches Some(due) ==> exists|now: DateTime|
                now.wf() && now.secs >= 0 && now.nanos < 1_000_000_000 && call_ensures(
                    Clock::get_current_datetime,
                    (),
                    Some(now),
                ) && (*final(self), due) == old(self).checked_at(now),
    {
        match Self::get_current_datetime() {
            Some(now) => Some(self.check_clock_at(now)),
            None => None,
        }
    }

    /// Moves the next update to `next_time`.
    pub fn set_next_update(&mut self, next_time: DateTime)
        ensures
            *final(self) == old(self).with_next_update(next_time),
    {
        self.next_time = next_time;
    }

    /// The date-time an interval after `time`, added as hours, then minutes, then seconds.
    pub fn add_interval_time_to_time(time: DateTime, interval_time: TimeOfDay) -> (r: DateTime)
        requires
            time.wf(),
            interval_time.wf(),
            time.secs + interval_time.total_seconds() <= MAX_SECS,
        ensures
            r == time.plus_seconds(interval_time.total_seconds()),
            r.wf(),
    {
        let hours: i64 = interval_time.hour as i64 * 3600;
        let minutes: i64 = interval_time.minute as i64 * 60;
        let seconds: i64 = interval_time.second as i64;
        let t1 = add_whole_seconds(time, hours);
        let t2 = add_whole_seconds(t1, minutes);
        let t3 = add_whole_seconds(t2, seconds);
        proof {
            lemma_plus_seconds_adds(time, hours as int, minutes as int);
            lemma_plus_seconds_adds(time, hours + minutes, seconds as int);
        }
        t3
    }
}

/// A check that fires does not move the next update: the word stays due at every
/// later check until the next update is moved.
pub proof fn lemma_due_stays_due(c: Clock, now: DateTime, later: DateTime)
    requires
        c.checked_at(now).1,
        !later.is_before(now),
    ensures
        c.checked_at(now).0.checked_at(later).1,
        c.checked_at(now).0.next_time == c.next_time,
{
}

/// A check fires exactly when the next update is strictly before the time of the
/// check; then the time of the check becomes the last check and the next update
/// stays, and otherwise the clock is left as it is.
pub proof fn lemma_check_fires_after_next_update(c: Clock, now: DateTime)
    ensures
        c.checked_at(now).1 <==> (c.next_time.secs < now.secs || (c.next_time.secs == now.secs
            && c.next_time.nanos < now.nanos)),
        c.checked_at(now).1 ==> c.checked_at(now).0 == (Clock {
            prev_time: now,
            next_time: c.next_time,
        }),
        !c.checked_at(now).1 ==> c.checked_at(now).0 == c,
{
}

/// The clock after checks at each of the times in turn.
pub open spec fn checked_at_all(c: Clock, nows: Seq<DateTime>) -> Clock
    decreases nows.len(),
{
    if nows.len() == 0 {
        c
    } else {
        checked_at_all(c, nows.drop_last()).checked_at(nows.last()).0
    }
}

/// Checks never move the next update.
pub proof fn lemma_checks_keep_next_update(c: Clock, nows: Seq<DateTime>)
    ensures
        checked_at_all(c, nows).next_time == c.next_time,
    decreases nows.len(),
{
    if nows.len() > 0 {
        lemma_checks_keep_next_update(c, nows.drop_last());
    }
}

/// A time before the first of a run of times that never go back is before every one of them.
proof fn lemma_before_all_later(t: DateTime, nows: Seq<DateTime>, k: int)
    requires
        0 <= k < nows.len(),
        t.is_before(nows[0]),
        forall|i: int| 0 <= i < nows.len() - 1 ==> !(#[trigger] nows[i + 1]).is_before(nows[i]),
    ensures
        t.is_before(nows[k]),
    decreases k,
{
    if k > 0 {
        lemma_before_all_later(t, nows, k - 1);
        assert(!nows[(k - 1) + 1].is_before(nows[k - 1]));
    }
}

/// Once the next update is moved to `t`, every check at a run of times that starts
/// after `t` and never goes back fires, and the next update stays `t` throughout.
pub proof fn lemma_checks_keep_firing(c: Clock, t: DateTime, nows: Seq<DateTime>)
    requires
        nows.len() > 0,
        t.is_before(nows[0]),
        forall|i: int| 0 <= i < nows.len() - 1 ==> !(#[trigger] nows[i + 1]).is_before(nows[i]),
    ensures
        forall|k: int|
            0 <= k < nows.len() ==> (#[trigger] checked_at_all(
                c.with_next_update(t),
                nows.take(k),
            )).checked_at(nows[k]).1,
        forall|k: int|
            0 <= k <= nows.len() ==> (#[trigger] checked_at_all(
                c.with_next_update(t),
                nows.take(k),
            )).next_time == t,
{
    let moved = c.with_next_update(t);
    assert forall|k: int| 0 <= k < nows.len() implies (#[trigger] checked_at_all(
        moved,
        nows.take(k),
    )).checked_at(nows[k]).1 by {
        lemma_checks_keep_next_update(moved, nows.take(k));
        lemma_before_all_later(t, nows, k);
    }
    assert forall|k: int| 0 <= k <= nows.len() implies (#[trigger] checked_at_all(
        moved,
        nows.take(k),
    )).next_time == t by {
        lemma_checks_keep_next_update(moved, nows.take(k));
    }
}

/// Adding an interval moves a date-time forward by exactly the interval's seconds,
/// less than a day (a leap second that is left counts as the second before it, and
/// its fraction is kept); the empty interval leaves it as it is. The order of two
/// date-times is kept, except for a date-time and a leap second later in the same
/// second, whose fractions can come out the other way round.
pub proof fn lemma_interval_shift(t1: DateTime, t2: DateTime, i: TimeOfDay)
    requires
        i.wf(),
        t1.wf(),
        t2.wf(),
        t1.secs + i.total_seconds() <= MAX_SECS,
        t2.secs + i.total_seconds() <= MAX_SECS,
    ensures
        0 <= i.total_seconds() < 86400,
        i.total_seconds() == 0 ==> t1.plus_seconds(i.total_seconds()) == t1,
        i.total_seconds() > 0 ==> t1.plus_seconds(i.total_seconds()).secs == t1.secs
            + i.total_seconds() && t1.plus_seconds(i.total_seconds()).nanos == t1.nanos
            % 1_000_000_000 && t1.plus_seconds(i.total_seconds()) != t1,
        !t2.is_before(t1) && !(t1.secs == t2.secs && t1.nanos < 1_000_000_000 && t2.nanos
            >= 1_000_000_000) ==> !t2.plus_seconds(i.total_seconds()).is_before(
            t1.plus_seconds(i.total_seconds()),
        ),
        i.total_seconds() > 0 && t1.secs == t2.secs && t1.nanos % 1_000_000_000 > t2.nanos
            % 1_000_000_000 && t1.nanos < 1_000_000_000 && t2.nanos >= 1_000_000_000
            ==> t2.plus_seconds(i.total_seconds()).is_before(t1.plus_seconds(i.total_seconds())),
{
}

/// After the next update is moved to `t`, a check at `now` fires exactly when `t`
/// is before `now`.
pub proof fn lemma_check_after_move(c: Clock, t: DateTime, now: DateTime)
    ensures
        c.with_next_update(t).checked_at(now).1 == t.is_before(now),
{
}

} // verus!
