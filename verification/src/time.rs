//! Instants on the UTC time line, and their RFC 3339 text.

use vstd::prelude::*;
use vstd::string::StringExecFns;

verus! {

pub const NANOS_PER_SECOND: i128 = 1_000_000_000;

pub const SECONDS_PER_DAY: i64 = 86_400;

pub const NANOS_PER_DAY: i128 = 86_400_000_000_000;

/// An instant: whole seconds since 1970-01-01T00:00:00Z and the nanoseconds
/// past that second.
///
/// A second that is written as 60 is read as the second before it with a
/// thousand million nanoseconds or more. Such a reading lies after every
/// instant of the second before and before every instant of the second
/// after: instants are ordered by their seconds first.
#[derive(Debug, Clone, Copy, PartialEq, Eq, Structural)]
pub struct Timestamp {
    pub secs: i64,
    pub nanos: u32,
}

/// The instant that `DateTime::parse_from_rfc3339` reads from `text`, as the
/// pair of `timestamp()` and `timestamp_subsec_nanos()`; `None` where the text
/// is not an RFC 3339 date and time.
pub uninterp spec fn rfc3339_instant(text: Seq<char>) -> Option<(i64, u32)>;

/// The text that `DateTime::to_rfc3339` writes for the UTC instant that
/// `DateTime::from_timestamp` makes of the two numbers; `None` where that
/// instant lies outside the calendar's range.
pub uninterp spec fn rfc3339_text(secs: i64, nanos: u32) -> Option<Seq<char>>;

/// Calls `chrono::DateTime::parse_from_rfc3339` and hands out the instant it
/// read as plain numbers. Nothing is claimed of the result beyond its name.
#[verifier::external_body]
fn chrono_parse_rfc3339(text: &str) -> (parsed: Option<(i64, u32)>)
    ensures
        parsed == rfc3339_instant(text@),
{
    match chrono::DateTime::parse_from_rfc3339(text) {
        Ok(moment) => Some((moment.timestamp(), moment.timestamp_subsec_nanos())),
        Err(_) => None,
    }
}

/// Calls `chrono::DateTime::from_timestamp` and then `to_rfc3339` on the
/// instant it made. Nothing is claimed of the result beyond its name.
#[verifier::external_body]
fn chrono_format_rfc3339(secs: i64, nanos: u32) -> (text: Option<String>)
    ensures
        text.deep_view() == rfc3339_text(secs, nanos),
{
    match chrono::DateTime::from_timestamp(secs, nanos) {
        Some(moment) => Some(moment.to_rfc3339()),
        None => None,
    }
}

/// The text `%Y-%m-%d` that `NaiveDate::format` writes for the day that
/// `NaiveDate::from_ymd_opt` makes of the three numbers; `None` where there
/// is no such day in the calendar.
pub uninterp spec fn date_text(year: i32, month: u32, day: u32) -> Option<Seq<char>>;

/// Calls `chrono::NaiveDate::from_ymd_opt` and writes the day with
/// `format("%Y-%m-%d")`. Nothing is claimed of the result beyond its name.
#[verifier::external_body]
fn chrono_format_date(year: i32, month: u32, day: u32) -> (text: Option<String>)
    ensures
        text.deep_view() == date_text(year, month, day),
{
    match chrono::NaiveDate::from_ymd_opt(year, month, day) {
        Some(date) => Some(date.format("%Y-%m-%d").to_string()),
        None => None,
    }
}

/// The first day of the month after the given one, as year and month;
/// `None` where the year does not fit.
pub open spec fn month_after(year: i32, month: u32) -> Option<(i32, u32)> {
    if month == 12 {
        if year < i32::MAX {
            Some(((year + 1) as i32, 1u32))
        } else {
            None
        }
    } else if month < u32::MAX {
        Some((year, (month + 1) as u32))
    } else {
        None
    }
}

/// The first day of the month after the given one, written as
/// `year-month-day`, or `Unknown` where there is no such day.
pub open spec fn next_month_start(year: i32, month: u32) -> Seq<char> {
    match month_after(year, month) {
        Some(next) => match date_text(next.0, next.1, 1) {
            Some(text) => text,
            None => "Unknown"@,
        },
        None => "Unknown"@,
    }
}

/// The month after the given one, as year and month.
pub fn next_month(year: i32, month: u32) -> (next: Option<(i32, u32)>)
    ensures
        next == month_after(year, month),
{
    if month == 12 {
        if year < i32::MAX {
            Some((year + 1, 1u32))
        } else {
            None
        }
    } else if month < u32::MAX {
        Some((year, month + 1))
    } else {
        None
    }
}

/// The first day of the month after the given one, written as
/// `year-month-day`.
pub fn first_of_next_month(year: i32, month: u32) -> (text: String)
    ensures
        text@ == next_month_start(year, month),
{
    match next_month(year, month) {
        Some((y, m)) => match chrono_format_date(y, m, 1) {
            Some(text) => text,
            None => String::from_str("Unknown"),
        },
        None => String::from_str("Unknown"),
    }
}

impl Timestamp {
    /// Nanoseconds since 1970-01-01T00:00:00Z. Spans of time are counted in
    /// these.
    pub open spec fn instant(self) -> int {
        self.secs * 1_000_000_000 + self.nanos
    }

    /// Whether the nanoseconds stay within their second, as they do for
    /// every instant but one in a second written as 60.
    pub open spec fn proper(self) -> bool {
        self.nanos < 1_000_000_000
    }

    /// Whether this instant is no later than the instant `days` whole days
    /// after `other`: seconds are compared first, and nanoseconds where the
    /// seconds agree.
    pub open spec fn within_days_after(self, other: Timestamp, days: int) -> bool {
        self.secs < other.secs + days * 86_400 || (self.secs == other.secs + days * 86_400
            && self.nanos <= other.nanos)
    }

    /// Whether this instant is no later than `other`.
    pub open spec fn at_or_before(self, other: Timestamp) -> bool {
        self.within_days_after(other, 0)
    }

    /// For instants whose nanoseconds stay within their second, the order
    /// is the order of the nanoseconds since the epoch.
    pub proof fn order_of_proper(self, other: Timestamp, days: int)
        requires
            self.proper(),
            other.proper(),
        ensures
            self.within_days_after(other, days) <==> self.instant() <= other.instant() + days
                * 86_400_000_000_000,
            self.at_or_before(other) <==> self.instant() <= other.instant(),
    {
    }

    /// The instant that a stored timestamp denotes, if it is readable.
    pub open spec fn parsed(text: Seq<char>) -> Option<Timestamp> {
        match rfc3339_instant(text) {
            Some(pair) => Some(Timestamp { secs: pair.0, nanos: pair.1 }),
            None => None,
        }
    }

    /// The same instant `days` whole days later, where the seconds still fit.
    pub open spec fn later_by_days(self, days: int) -> Option<Timestamp> {
        if i64::MIN <= self.secs + days * 86_400 <= i64::MAX {
            Some(Timestamp { secs: (self.secs + days * 86_400) as i64, nanos: self.nanos })
        } else {
            None
        }
    }

    /// Nanoseconds since the epoch, as a machine integer.
    pub fn total_nanos(&self) -> (total: i128)
        ensures
            total == self.instant(),
    {
        (self.secs as i128) * NANOS_PER_SECOND + (self.nanos as i128)
    }

    /// Reads an RFC 3339 date and time.
    pub fn parse_rfc3339(text: &str) -> (stamp: Option<Timestamp>)
        ensures
            stamp == Timestamp::parsed(text@),
    {
        match chrono_parse_rfc3339(text) {
            Some((secs, nanos)) => Some(Timestamp { secs, nanos }),
            None => None,
        }
    }

    /// Writes the instant as RFC 3339 text in UTC.
    pub fn to_rfc3339(&self) -> (text: Option<String>)
        ensures
            text.deep_view() == rfc3339_text(self.secs, self.nanos),
    {
        chrono_format_rfc3339(self.secs, self.nanos)
    }

    /// The instant `days` whole days after this one.
    pub fn plus_days(&self, days: u16) -> (later: Option<Timestamp>)
        ensures
            later == self.later_by_days(days as int),
            later is Some ==> later.unwrap().instant() == self.instant() + days
                * 86_400_000_000_000,
    {
        let span: i64 = (days as i64) * SECONDS_PER_DAY;
        match self.secs.checked_add(span) {
            Some(secs) => Some(Timestamp { secs, nanos: self.nanos }),
            None => None,
        }
    }

    /// Whether this instant lies strictly after `other`.
    pub fn is_after(&self, other: &Timestamp) -> (after: bool)
        ensures
            after == !self.at_or_before(*other),
    {
        self.secs > other.secs || (self.secs == other.secs && self.nanos > other.nanos)
    }

    /// Whether this instant is no later than the instant `days` whole days
    /// after `other`.
    pub fn is_within_days_after(&self, other: &Timestamp, days: u16) -> (within: bool)
        ensures
            within == self.within_days_after(*other, days as int),
    {
        let span: i128 = (days as i128) * 86_400;
        let end: i128 = (other.secs as i128) + span;
        let secs: i128 = self.secs as i128;
        secs < end || (secs == end && self.nanos <= other.nanos)
    }
}

} // verus!
