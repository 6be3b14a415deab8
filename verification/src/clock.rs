//! Points in time and the rule that decides when a poll stops taking votes.
//!
//! A poll's `close_date` is free text. It is read, in this order, as an RFC 3339
//! date-time (relaxed as chrono accepts it), as `YYYY-MM-DD HH:MM:SS` in UTC, as
//! `YYYY-MM-DD`, or as `DD/MM/YYYY`; a bare date closes at 23:59:59 of that day.
//! All reading of text is done by chrono; this module decides which reading
//! applies and compares the result with the current time.
use chrono::{DateTime, Datelike, NaiveDate, NaiveDateTime, NaiveTime, Timelike, Utc};
use vstd::prelude::*;

use crate::models::Poll;

verus! {

/// A point on the UTC timeline, in the same terms chrono uses inside a
/// `NaiveDateTime`: the day (counted from 1 January of year 1, which is day 1),
/// the second of that day, and the nanosecond within that second (which exceeds
/// 999,999,999 only during a leap second).
#[derive(Clone, Copy, Debug, PartialEq, Eq)]
pub struct Instant {
    pub day: i32,
    pub second: u32,
    pub nano: u32,
}

/// `a` is not later than `b`: days first, then seconds, then nanoseconds, which
/// is the order chrono gives its date-times.
pub open spec fn instant_le(a: Instant, b: Instant) -> bool {
    ||| a.day < b.day
    ||| (a.day == b.day && a.second < b.second)
    ||| (a.day == b.day && a.second == b.second && a.nano <= b.nano)
}

/// `a` is earlier than `b`.
pub open spec fn instant_lt(a: Instant, b: Instant) -> bool {
    !instant_le(b, a)
}

/// Compares two instants: `true` when `a` is not later than `b`.
pub fn instant_not_after(a: Instant, b: Instant) -> (r: bool)
    ensures
        r == instant_le(a, b),
{
    if a.day != b.day {
        a.day < b.day
    } else if a.second != b.second {
        a.second < b.second
    } else {
        a.nano <= b.nano
    }
}

/// What `"text".parse::<chrono::DateTime<chrono::Utc>>()` gives, as an instant.
pub uninterp spec fn utc_datetime_from_str(text: Seq<char>) -> Option<Instant>;

/// What `chrono::NaiveDateTime::parse_from_str(text, format)` gives, as an instant.
pub uninterp spec fn naive_datetime_from_str(text: Seq<char>, format: Seq<char>) -> Option<Instant>;

/// What `chrono::NaiveDate::parse_from_str(text, format)` gives, as the day number
/// that `Datelike::num_days_from_ce` reports for it.
pub uninterp spec fn naive_date_from_str(text: Seq<char>, format: Seq<char>) -> Option<i32>;

/// `t` is a date-time chrono can hold: its day lies between 1 January 262143 BCE
/// and 31 December 262142 CE, its second within the day, and its nanosecond
/// below 2,000,000,000, past 999,999,999 only in the last second of a minute
/// (a leap second).
pub open spec fn on_calendar(t: Instant) -> bool {
    &&& -95_746_129 <= t.day <= 95_745_399
    &&& t.second < 86_400
    &&& t.nano < 2_000_000_000
    &&& t.nano >= 1_000_000_000 ==> t.second % 60 == 59
}

/// Whether `t` is a date-time chrono can hold.
pub fn is_on_calendar(t: Instant) -> (r: bool)
    ensures
        r == on_calendar(t),
{
    -95_746_129 <= t.day && t.day <= 95_745_399 && t.second < 86_400 && t.nano < 2_000_000_000
        && (t.nano < 1_000_000_000 || t.second % 60 == 59)
}

/// What chrono's `DateTime<Utc>::to_rfc3339` writes for the instant `t`.
pub uninterp spec fn rfc3339_text(t: Instant) -> Seq<char>;

/// What chrono's `Display` for `DateTime<Utc>` writes for the instant `t`
/// (as in `2024-05-01 12:30:00.123456789 UTC`).
pub uninterp spec fn display_text(t: Instant) -> Seq<char>;

/// Reads the clock with `chrono::Utc::now` and converts the result to an
/// instant field by field. Of the value it claims only that chrono can hold it,
/// as it held it. (chrono panics if the system clock reads earlier than 1970.)
#[verifier::external_body]
pub(crate) fn clock_now() -> (now: Instant)
    ensures
        on_calendar(now),
{
    let t = Utc::now().naive_utc();
    Instant { day: t.date().num_days_from_ce(), second: t.time().num_seconds_from_midnight(), nano: t.time().nanosecond() }
}

/// Writes the instant `t` with chrono's `to_rfc3339`, rebuilding the UTC
/// date-time from its fields (`NaiveDate::from_num_days_from_ce_opt`,
/// `NaiveTime::from_num_seconds_from_midnight_opt`, `and_utc`).
/// Claims only that the result is the named text of `t`.
#[verifier::external_body]
pub(crate) fn rfc3339_of(t: Instant) -> (text: String)
    requires
        on_calendar(t),
    ensures
        text@ == rfc3339_text(t),
{
    match (NaiveDate::from_num_days_from_ce_opt(t.day), NaiveTime::from_num_seconds_from_midnight_opt(t.second, t.nano)) {
        (Some(d), Some(tm)) => d.and_time(tm).and_utc().to_rfc3339(),
        _ => String::new(),
    }
}

/// Writes the instant `t` with chrono's `Display` for `DateTime<Utc>`,
/// rebuilding the date-time from its fields as `rfc3339_of` does.
/// Claims only that the result is the named text of `t`.
#[verifier::external_body]
pub(crate) fn display_of(t: Instant) -> (text: String)
    requires
        on_calendar(t),
    ensures
        text@ == display_text(t),
{
    match (NaiveDate::from_num_days_from_ce_opt(t.day), NaiveTime::from_num_seconds_from_midnight_opt(t.second, t.nano)) {
        (Some(d), Some(tm)) => d.and_time(tm).and_utc().to_string(),
        _ => String::new(),
    }
}

/// Parses `text` with chrono's `FromStr` for `DateTime<Utc>` (RFC 3339, with a
/// space also accepted before the time) and converts a success to an instant.
/// Claims only that the result is the named value for this text.
#[verifier::external_body]
fn parse_utc_datetime(text: &str) -> (r: Option<Instant>)
    ensures
        r == utc_datetime_from_str(text@),
{
    match text.parse::<DateTime<Utc>>() {
        Ok(d) => {
            let t = d.naive_utc();
            Some(Instant { day: t.date().num_days_from_ce(), second: t.time().num_seconds_from_midnight(), nano: t.time().nanosecond() })
        },
        Err(_) => None,
    }
}

/// Parses `text` with `chrono::NaiveDateTime::parse_from_str` and the given
/// strftime-style format, converting a success to an instant.
/// Claims only that the result is the named value for these arguments.
#[verifier::external_body]
fn parse_naive_datetime(text: &str, format: &str) -> (r: Option<Instant>)
    ensures
        r == naive_datetime_from_str(text@, format@),
{
    match NaiveDateTime::parse_from_str(text, format) {
        Ok(t) => Some(Instant { day: t.date().num_days_from_ce(), second: t.time().num_seconds_from_midnight(), nano: t.time().nanosecond() }),
        Err(_) => None,
    }
}

/// Parses `text` with `chrono::NaiveDate::parse_from_str` and the given format,
/// converting a success to its day number (`Datelike::num_days_from_ce`).
/// Claims only that the result is the named value for these arguments.
#[verifier::external_body]
fn parse_naive_date(text: &str, format: &str) -> (r: Option<i32>)
    ensures
        r == naive_date_from_str(text@, format@),
{
    match NaiveDate::parse_from_str(text, format) {
        Ok(d) => Some(d.num_days_from_ce()),
        Err(_) => None,
    }
}

/// The instant `hour:minute:second` on `day`, as chrono's `NaiveDate::and_hms_opt`
/// makes it: `None` when the hour, minute or second is out of range (no leap
/// second here).
pub open spec fn day_at(day: i32, hour: u32, minute: u32, second: u32) -> Option<Instant> {
    if hour < 24 && minute < 60 && second < 60 {
        Some(Instant { day, second: (hour * 3600 + minute * 60 + second) as u32, nano: 0 })
    } else {
        None
    }
}

/// The time of day `hour:minute:second` on `day` (chrono's `and_hms_opt` on a date).
pub fn at_time_of_day(day: i32, hour: u32, minute: u32, second: u32) -> (r: Option<Instant>)
    ensures
        r == day_at(day, hour, minute, second),
{
    if hour < 24 && minute < 60 && second < 60 {
        Some(Instant { day, second: hour * 3600 + minute * 60 + second, nano: 0 })
    } else {
        None
    }
}

/// The instant at which a poll with this `close_date` text closes, if the text
/// reads as a date at all: the first of the four readings that succeeds decides.
pub open spec fn close_instant(close_date: Seq<char>) -> Option<Instant> {
    if let Some(t) = utc_datetime_from_str(close_date) {
        Some(t)
    } else if let Some(t) = naive_datetime_from_str(close_date, "%Y-%m-%d %H:%M:%S"@) {
        Some(t)
    } else if naive_date_from_str(close_date, "%Y-%m-%d"@) is Some
        && day_at(naive_date_from_str(close_date, "%Y-%m-%d"@)->0, 23, 59, 59) is Some {
        day_at(naive_date_from_str(close_date, "%Y-%m-%d"@)->0, 23, 59, 59)
    } else if naive_date_from_str(close_date, "%d/%m/%Y"@) is Some
        && day_at(naive_date_from_str(close_date, "%d/%m/%Y"@)->0, 23, 59, 59) is Some {
        day_at(naive_date_from_str(close_date, "%d/%m/%Y"@)->0, 23, 59, 59)
    } else {
        None
    }
}

/// Whether a poll with this status and close date takes no more votes at `now`:
/// its status is `closed`, or its close date reads as an instant that `now` has
/// reached.
pub open spec fn closed_at(status: Seq<char>, close_date: Seq<char>, now: Instant) -> bool {
    ||| status == "closed"@
    ||| (close_instant(close_date) matches Some(t) && instant_le(t, now))
}

/// Reads `close_date` as the instant the poll closes, trying the four accepted
/// forms in order.
pub fn parse_close_date(close_date: &str) -> (r: Option<Instant>)
    ensures
        r == close_instant(close_date@),
{
    if let Some(t) = parse_utc_datetime(close_date) {
        return Some(t);
    }
    if let Some(t) = parse_naive_datetime(close_date, "%Y-%m-%d %H:%M:%S") {
        return Some(t);
    }
    if let Some(day) = parse_naive_date(close_date, "%Y-%m-%d") {
        if let Some(end_of_day) = at_time_of_day(day, 23, 59, 59) {
            return Some(end_of_day);
        }
    }
    if let Some(day) = parse_naive_date(close_date, "%d/%m/%Y") {
        if let Some(end_of_day) = at_time_of_day(day, 23, 59, 59) {
            return Some(end_of_day);
        }
    }
    None
}

/// Whether `poll` takes no more votes at `now`.
pub fn is_poll_closed_at(poll: &Poll, now: Instant) -> (r: bool)
    ensures
        r == closed_at(poll.status@, poll.close_date@, now),
{
    let closed = String::from_str("closed");
    if poll.status == closed {
        return true;
    }
    match parse_close_date(poll.close_date.as_str()) {
        Some(t) => instant_not_after(t, now),
        None => false,
    }
}

/// Whether `poll` takes no more votes now, by the system clock.
pub fn is_poll_closed(poll: &Poll) -> (r: bool)
    ensures
        exists|now: Instant| on_calendar(now) && r == #[trigger] closed_at(poll.status@, poll.close_date@, now),
        poll.status@ == "closed"@ ==> r,
        poll.status@ != "closed"@ && close_instant(poll.close_date@) is None ==> !r,
{
    let now = clock_now();
    is_poll_closed_at(poll, now)
}

} // verus!
