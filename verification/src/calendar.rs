//! Calendar days and instants, as far as the accounts need them: a birthdate
//! is read from text and compared, an instant is taken from the clock, and
//! both are written out again.

use chrono::{DateTime, Datelike, NaiveDate, Utc};
use vstd::prelude::*;

verus! {

/// `chrono::format::ParseError`: why a text stands for no day. Nothing is
/// read from it.
#[verifier::external_type_specification]
#[verifier::external_body]
pub struct ExParseError(chrono::format::ParseError);

/// The year, month and day that a text of the form `%Y-%m-%d` stands for, if
/// it stands for a day of the calendar.
pub uninterp spec fn date_of_text(text: Seq<char>) -> Option<(int, int, int)>;

/// The text of a day of the calendar; `None` where the calendar has no such
/// day.
pub uninterp spec fn text_of_date(year: int, month: int, day: int) -> Option<Seq<char>>;

/// The RFC 3339 text of the instant that lies `secs` seconds and `nanos`
/// nanoseconds after the Unix epoch; `None` where no such instant can be
/// represented.
pub uninterp spec fn text_of_instant(secs: int, nanos: int) -> Option<Seq<char>>;

/// A day of the proleptic Gregorian calendar. Every value is a day that the
/// calendar has.
#[derive(Clone, Copy, Debug, PartialEq, Eq, Structural)]
pub struct Date {
    year: i32,
    month: u32,
    day: u32,
}

/// An instant in UTC, counted from the Unix epoch. Every value is an instant
/// that can be written out.
#[derive(Clone, Copy, Debug, PartialEq, Eq, Structural)]
pub struct Timestamp {
    secs: i64,
    nanos: u32,
}

/// Calls `NaiveDate::parse_from_str` with the format `%Y-%m-%d` and takes the
/// day apart with `year`, `month` and `day`. Trusted: the outcome depends on
/// the text alone, `date_of_text` names it, and what was read is a day that
/// the calendar has.
#[verifier::external_body]
pub(crate) fn read_date(text: &str) -> (r: Result<(i32, u32, u32), chrono::format::ParseError>)
    ensures
        match r {
            Ok((year, month, day)) => {
                &&& date_of_text(text@) == Some((year as int, month as int, day as int))
                &&& text_of_date(year as int, month as int, day as int) is Some
            },
            Err(_) => date_of_text(text@) is None,
        },
{
    match NaiveDate::parse_from_str(text, "%Y-%m-%d") {
        Ok(d) => Ok((d.year(), d.month(), d.day())),
        Err(e) => Err(e),
    }
}

/// Calls `NaiveDate::from_ymd_opt` and then `to_string` on the day. Trusted:
/// the text depends on year, month and day alone, and there is one exactly
/// where the calendar has the day; `text_of_date` names it.
#[verifier::external_body]
pub(crate) fn write_date(year: i32, month: u32, day: u32) -> (r: Option<String>)
    ensures
        match r {
            Some(text) => text_of_date(year as int, month as int, day as int) == Some(text@),
            None => text_of_date(year as int, month as int, day as int) is None,
        },
{
    match NaiveDate::from_ymd_opt(year, month, day) {
        Some(d) => Some(d.to_string()),
        None => None,
    }
}

/// Calls `Utc::now` and takes the instant apart with `timestamp` and
/// `timestamp_subsec_nanos`. Trusted: the two counts lead back to the same
/// instant, so it can be written out. Nothing else is promised of them: they
/// are the reading of a clock.
#[verifier::external_body]
pub(crate) fn read_clock() -> (now: (i64, u32))
    ensures
        text_of_instant(now.0 as int, now.1 as int) is Some,
{
    let now = Utc::now();
    (now.timestamp(), now.timestamp_subsec_nanos())
}

/// Calls `DateTime::from_timestamp` and then `to_rfc3339` on the instant.
/// Trusted: the text depends on the two counts alone, and there is one
/// exactly where the instant can be represented; `text_of_instant` names it.
#[verifier::external_body]
pub(crate) fn write_instant(secs: i64, nanos: u32) -> (r: Option<String>)
    ensures
        match r {
            Some(text) => text_of_instant(secs as int, nanos as int) == Some(text@),
            None => text_of_instant(secs as int, nanos as int) is None,
        },
{
    match DateTime::<Utc>::from_timestamp(secs, nanos) {
        Some(t) => Some(t.to_rfc3339()),
        None => None,
    }
}

impl View for Date {
    type V = (int, int, int);

    /// Year, month and day.
    closed spec fn view(&self) -> (int, int, int) {
        (self.year as int, self.month as int, self.day as int)
    }
}

impl View for Timestamp {
    type V = (int, int);

    /// Seconds since the Unix epoch, and nanoseconds since that second.
    closed spec fn view(&self) -> (int, int) {
        (self.secs as int, self.nanos as int)
    }
}

impl Date {
    /// The calendar has this day.
    #[verifier::type_invariant]
    pub closed spec fn on_calendar(self) -> bool {
        text_of_date(self.year as int, self.month as int, self.day as int) is Some
    }

    /// The day as text.
    pub open spec fn text(self) -> Seq<char> {
        text_of_date(self@.0, self@.1, self@.2).unwrap()
    }

    /// The day that a text of the form `%Y-%m-%d` stands for, if it stands
    /// for a day of the calendar.
    pub closed spec fn of_text(text: Seq<char>) -> Option<Date> {
        match date_of_text(text) {
            Some((year, month, day)) => Some(
                Date { year: year as i32, month: month as u32, day: day as u32 },
            ),
            None => None,
        }
    }

    /// Reads a day from text of the form `%Y-%m-%d`; `None` where the text
    /// has another form or names no day of the calendar.
    pub fn parse(text: &str) -> (r: Option<Date>)
        ensures
            r == Date::of_text(text@),
            match r {
                Some(date) => date_of_text(text@) == Some(date@),
                None => date_of_text(text@) is None,
            },
    {
        match read_date(text) {
            Ok((year, month, day)) => Some(Date { year, month, day }),
            Err(_) => None,
        }
    }

    /// The day of a year, a month and a day of the month; `None` where the
    /// calendar has no such day.
    pub fn from_ymd(year: i32, month: u32, day: u32) -> (r: Option<Date>)
        ensures
            match r {
                Some(date) => date@ == (year as int, month as int, day as int) && text_of_date(
                    year as int,
                    month as int,
                    day as int,
                ) is Some,
                None => text_of_date(year as int, month as int, day as int) is None,
            },
    {
        match write_date(year, month, day) {
            Some(_) => Some(Date { year, month, day }),
            None => None,
        }
    }

    pub fn year(&self) -> (y: i32)
        ensures
            y == self@.0,
    {
        self.year
    }

    pub fn month(&self) -> (m: u32)
        ensures
            m == self@.1,
    {
        self.month
    }

    pub fn day(&self) -> (d: u32)
        ensures
            d == self@.2,
    {
        self.day
    }

    pub fn to_string(&self) -> (text: String)
        ensures
            text@ == self.text(),
    {
        proof {
            use_type_invariant(self);
        }
        match write_date(self.year, self.month, self.day) {
            Some(text) => text,
            None => String::new(),
        }
    }
}

impl Timestamp {
    /// The instant can be written out.
    #[verifier::type_invariant]
    pub closed spec fn representable(self) -> bool {
        text_of_instant(self.secs as int, self.nanos as int) is Some
    }

    /// The instant as RFC 3339 text.
    pub open spec fn text(self) -> Seq<char> {
        text_of_instant(self@.0, self@.1).unwrap()
    }

    /// The present instant, as the clock gives it. Whatever the clock reads,
    /// the instant is one that can be written out.
    pub fn now() -> (now: Timestamp)
        ensures
            text_of_instant(now@.0, now@.1) is Some,
    {
        let (secs, nanos) = read_clock();
        Timestamp { secs, nanos }
    }

    /// The instant that lies `secs` seconds and `nanos` nanoseconds after
    /// the Unix epoch; `None` where no such instant can be represented.
    pub fn from_parts(secs: i64, nanos: u32) -> (r: Option<Timestamp>)
        ensures
            match r {
                Some(at) => at@ == (secs as int, nanos as int) && text_of_instant(
                    secs as int,
                    nanos as int,
                ) is Some,
                None => text_of_instant(secs as int, nanos as int) is None,
            },
    {
        match write_instant(secs, nanos) {
            Some(_) => Some(Timestamp { secs, nanos }),
            None => None,
        }
    }

    pub fn secs(&self) -> (s: i64)
        ensures
            s == self@.0,
    {
        self.secs
    }

    pub fn nanos(&self) -> (n: u32)
        ensures
            n == self@.1,
    {
        self.nanos
    }

    pub fn to_rfc3339(&self) -> (text: String)
        ensures
            text@ == self.text(),
    {
        proof {
            use_type_invariant(self);
        }
        match write_instant(self.secs, self.nanos) {
            Some(text) => text,
            None => String::new(),
        }
    }
}

} // verus!
