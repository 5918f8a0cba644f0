//! Calendar time as the scheduler sees it: a local date and time of day, and
//! the instant it stands for in the machine's time zone.

use crate::text::decimal;
use chrono::{Datelike, TimeZone, Timelike};
use vstd::prelude::*;

verus! {
/// The format in which the library writes and reads times.
pub open spec fn stamp_format() -> Seq<char> {
    "%Y-%m-%d %H:%M:%S"@
}

/// A date and a time of day, with no time zone. `nanos` is the fraction of
/// the second; from 1,000,000,000 on it stands for a leap second.
#[derive(Clone, Copy, Debug, PartialEq, Eq, Structural)]
pub struct WallClock {
    pub year: i32,
    pub month: u32,
    pub day: u32,
    pub hour: u32,
    pub minute: u32,
    pub second: u32,
    pub nanos: u32,
}

/// An instant, with the date and time that the machine's time zone shows for
/// it. `timestamp` counts the seconds since 1970-01-01 00:00:00 UTC;
/// `weekday` counts the days since Sunday.
#[derive(Clone, Copy, Debug, PartialEq, Eq, Structural)]
pub struct Moment {
    pub timestamp: i64,
    pub local: WallClock,
    pub weekday: u32,
}

impl Moment {
    /// This instant is earlier than `other`.
    pub open spec fn is_before(self, other: Moment) -> bool {
        self.timestamp < other.timestamp || (self.timestamp == other.timestamp
            && self.local.nanos < other.local.nanos)
    }

    /// Both instants fall in the same minute of the same local day.
    pub open spec fn same_minute(self, other: Moment) -> bool {
        &&& self.local.year == other.local.year
        &&& self.local.month == other.local.month
        &&& self.local.day == other.local.day
        &&& self.local.hour == other.local.hour
        &&& self.local.minute == other.local.minute
    }

    /// Whether this instant is earlier than `other`.
    pub fn before(&self, other: &Moment) -> (r: bool)
        ensures
            r == self.is_before(*other),
    {
        self.timestamp < other.timestamp || (self.timestamp == other.timestamp
            && self.local.nanos < other.local.nanos)
    }

    /// Whether both instants fall in the same minute of the same local day.
    pub fn in_same_minute(&self, other: &Moment) -> (r: bool)
        ensures
            r == self.same_minute(*other),
    {
        self.local.year == other.local.year && self.local.month == other.local.month
            && self.local.day == other.local.day && self.local.hour == other.local.hour
            && self.local.minute == other.local.minute
    }
}

/// What a text holds when read by a format of `strftime` kind: the date and
/// time, where the text is one.
pub uninterp spec fn naive_parse(text: Seq<char>, format: Seq<char>) -> Option<WallClock>;

/// The seconds of 2^31 days. The time library counts the days of an instant
/// in 32 bits, so no instant that it holds lies so far from 1970.
pub const CLOCK_LIMIT: i64 = 185_542_587_187_200;

/// Whether the machine's clock can show `timestamp` as the present: the
/// clock is read as a time since 1970-01-01 00:00:00 UTC, and as an instant
/// that the time library holds.
pub open spec fn clock_shows(timestamp: i64) -> bool {
    0 <= timestamp < CLOCK_LIMIT
}

/// `chrono::Local::now`, with its fields read through `Datelike` and
/// `Timelike`: the present instant. Which instant that is nobody knows
/// beforehand; it is read from the system clock as a time since 1970, which
/// the call insists on, and kept with a day count of 32 bits, so its
/// timestamp is not negative and lies below the seconds of 2^31 days.
#[verifier::external_body]
pub(crate) fn local_now() -> (m: Moment)
    ensures
        clock_shows(m.timestamp),
{
    let d = chrono::Local::now();
    let local = WallClock {
        year: d.year(),
        month: d.month(),
        day: d.day(),
        hour: d.hour(),
        minute: d.minute(),
        second: d.second(),
        nanos: d.nanosecond(),
    };
    Moment { timestamp: d.timestamp(), local, weekday: d.weekday().num_days_from_sunday() }
}

/// `chrono::NaiveDateTime::parse_from_str`: the date and time that `text`
/// holds in the given format, or `None` where it does not parse.
#[verifier::external_body]
pub(crate) fn parse_naive(text: &str, format: &str) -> (r: Option<WallClock>)
    ensures
        r == naive_parse(text@, format@),
{
    match chrono::NaiveDateTime::parse_from_str(text, format) {
        Ok(t) => Some(
            WallClock {
                year: t.year(),
                month: t.month(),
                day: t.day(),
                hour: t.hour(),
                minute: t.minute(),
                second: t.second(),
                nanos: t.nanosecond(),
            },
        ),
        Err(_) => None,
    }
}

/// `chrono::NaiveDate::from_ymd_opt`, `and_hms_nano_opt`,
/// `and_local_timezone(Local)` and `single`: the one instant at which the
/// machine's time zone shows the given date and time; `None` where there is
/// none or more than one. The instant found shows that date and time.
#[verifier::external_body]
pub(crate) fn in_local_zone(t: &WallClock) -> (r: Option<Moment>)
    ensures
        r matches Some(m) ==> m.local == *t,
{
    let naive = chrono::NaiveDate::from_ymd_opt(t.year, t.month, t.day)?.and_hms_nano_opt(
        t.hour,
        t.minute,
        t.second,
        t.nanos,
    )?;
    let d = naive.and_local_timezone(chrono::Local).single()?;
    Some(Moment { timestamp: d.timestamp(), local: *t, weekday: d.weekday().num_days_from_sunday() })
}

/// `chrono::TimeZone::timestamp_opt` on `chrono::Local`, and `single`: the
/// instant so many seconds after 1970-01-01 00:00:00 UTC, with the date and
/// time that the machine's time zone shows for it; `None` where the number
/// is out of range.
#[verifier::external_body]
pub(crate) fn moment_at(timestamp: i64) -> (r: Option<Moment>)
    ensures
        r matches Some(m) ==> m.timestamp == timestamp,
{
    let d = chrono::Local.timestamp_opt(timestamp, 0).single()?;
    let local = WallClock {
        year: d.year(),
        month: d.month(),
        day: d.day(),
        hour: d.hour(),
        minute: d.minute(),
        second: d.second(),
        nanos: d.nanosecond(),
    };
    Some(Moment { timestamp: d.timestamp(), local, weekday: d.weekday().num_days_from_sunday() })
}

/// `n` in decimal, with zeros before it up to `width` digits.
pub open spec fn padded(n: nat, width: nat) -> Seq<char> {
    let d = decimal(n);
    if d.len() >= width {
        d
    } else {
        Seq::new((width - d.len()) as nat, |i: int| '0') + d
    }
}

/// The year as the format `%Y` writes it: four digits at least, with a sign
/// outside 0..9999.
pub open spec fn year_text(year: int) -> Seq<char> {
    if year < 0 {
        seq!['-'] + padded((-year) as nat, 4)
    } else if year > 9999 {
        seq!['+'] + padded(year as nat, 4)
    } else {
        padded(year as nat, 4)
    }
}

/// The second as the format `%S` writes it: a leap second counts as 60.
pub open spec fn shown_second(t: WallClock) -> nat {
    if t.nanos >= 1_000_000_000 {
        (t.second + 1) as nat
    } else {
        t.second as nat
    }
}

/// A date and time in the form `2026-02-23 14:00:00`.
pub open spec fn stamp_text(t: WallClock) -> Seq<char> {
    year_text(t.year as int) + seq!['-'] + padded(t.month as nat, 2) + seq!['-'] + padded(
        t.day as nat,
        2,
    ) + seq![' '] + padded(t.hour as nat, 2) + seq![':'] + padded(t.minute as nat, 2) + seq![':']
        + padded(shown_second(t), 2)
}

/// Whether the calendar has the date and the day the time of day: what
/// `NaiveDate::from_ymd_opt` and `NaiveDate::and_hms_nano_opt` accept.
pub uninterp spec fn calendar_time(t: WallClock) -> bool;

/// `chrono::NaiveDateTime::format` with `%Y-%m-%d %H:%M:%S`, on the date and
/// time that `NaiveDate::from_ymd_opt` and `and_hms_nano_opt` make of `t`:
/// `None` where they make none. The format writes the year in four digits,
/// with a sign and one digit more outside 0..9999, the other fields in two
/// digits each, and a leap second as 60.
#[verifier::external_body]
fn write_stamp(t: &WallClock) -> (r: Option<String>)
    ensures
        r.is_some() == calendar_time(*t),
        r matches Some(s) ==> s@ == stamp_text(*t),
{
    let d = chrono::NaiveDate::from_ymd_opt(t.year, t.month, t.day)?;
    let d = d.and_hms_nano_opt(t.hour, t.minute, t.second, t.nanos)?;
    Some(d.format("%Y-%m-%d %H:%M:%S").to_string())
}

/// Writes a date and time in the form `2026-02-23 14:00:00`; `None` for
/// what is no date or no time of day.
pub fn format_stamp(t: &WallClock) -> (r: Option<String>)
    ensures
        match r {
            Some(s) => calendar_time(*t) && s@ == stamp_text(*t),
            None => !calendar_time(*t),
        },
{
    write_stamp(t)
}

} // verus!
