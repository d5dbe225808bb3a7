//! Identifiers, the current time and calendar dates, taken from `ulid` and
//! `chrono`.
use vstd::prelude::*;

use chrono::Datelike;

use crate::model::Timestamp;
use crate::text::{decimal, is_digit};

verus! {

/// A calendar date: year, month (1-12) and day of the month.
#[derive(Clone, Copy, PartialEq, Eq, Structural, Debug)]
pub struct Ymd {
    pub year: i32,
    pub month: u32,
    pub day: u32,
}

/// A character of the Crockford base-32 alphabet used by ULIDs.
pub open spec fn is_crockford(c: char) -> bool {
    is_digit(c) || c == 'A' || c == 'B' || c == 'C' || c == 'D' || c == 'E' || c == 'F'
    || c == 'G' || c == 'H' || c == 'J' || c == 'K' || c == 'M' || c == 'N' || c == 'P'
    || c == 'Q' || c == 'R' || c == 'S' || c == 'T' || c == 'V' || c == 'W' || c == 'X'
    || c == 'Y' || c == 'Z'
}

/// Whether `s` has the shape of a ULID string: 26 Crockford base-32 characters.
pub open spec fn is_ulid_text(s: Seq<char>) -> bool {
    s.len() == 26 && forall|i: int| 0 <= i < s.len() ==> #[trigger] is_crockford(s[i])
}

/// A fresh ULID rendered as text.
///
/// Calls `ulid::Ulid::new` (current time and randomness) and the inherent
/// `Ulid::to_string`, whose source encodes the 128-bit value as exactly 26
/// characters of the Crockford base-32 alphabet. Which identifier comes back
/// is left unsaid: it depends on the clock and on chance.
#[verifier::external_body]
pub(crate) fn new_ulid() -> (id: String)
    ensures
        is_ulid_text(id@),
{
    ulid::Ulid::new().to_string()
}

/// The current UTC time.
///
/// Calls `chrono::Utc::now` and reads the instant back as whole seconds
/// (`DateTime::timestamp`) and the nanoseconds within the second
/// (`DateTime::timestamp_subsec_nanos`). The source builds the instant from
/// `SystemTime`'s sub-second nanoseconds, which are below one billion; the
/// value itself depends on the clock and is left unsaid.
#[verifier::external_body]
pub(crate) fn utc_now() -> (t: Timestamp)
    ensures
        t.nanos < 1_000_000_000,
{
    let now = chrono::Utc::now();
    Timestamp { secs: now.timestamp(), nanos: now.timestamp_subsec_nanos() }
}

/// The current UTC time rendered by `chrono`'s `DateTime::to_rfc3339` after
/// `chrono::Utc::now`. Which instant is rendered depends on the clock; nothing
/// is claimed of the text.
#[verifier::external_body]
pub(crate) fn now_rfc3339() -> (s: String) {
    chrono::Utc::now().to_rfc3339()
}

/// The date format this library reads and writes: `%Y-%m-%d`.
pub open spec fn ymd_format() -> Seq<char> {
    "%Y-%m-%d"@
}

/// Today's date in UTC, from `chrono::Utc::now` and `DateTime::date_naive`.
/// It depends on the clock; a `NaiveDate` is always a calendar date in
/// chrono's range.
#[verifier::external_body]
pub(crate) fn today_utc() -> (d: Ymd)
    ensures
        is_calendar_date(d),
{
    let d = chrono::Utc::now().date_naive();
    Ymd { year: d.year(), month: d.month(), day: d.day() }
}

/// What `chrono::NaiveDate::parse_from_str(text, fmt)` gives (`None` when it
/// fails), read as year, month and day.
pub uninterp spec fn spec_parse_date(text: Seq<char>, fmt: Seq<char>) -> Option<Ymd>;

/// Whether `year` is a leap year of the proleptic Gregorian calendar.
pub open spec fn is_leap_year(year: int) -> bool {
    year % 4 == 0 && (year % 100 != 0 || year % 400 == 0)
}

/// The number of days in a month (1-12) of a year.
pub open spec fn days_in_month(year: int, month: int) -> int {
    if month == 2 {
        if is_leap_year(year) { 29 } else { 28 }
    } else if month == 4 || month == 6 || month == 9 || month == 11 {
        30
    } else {
        31
    }
}

/// Whether the triple is a date that `NaiveDate::from_ymd_opt` accepts: a
/// Gregorian calendar date whose year lies in chrono's range (one year inside
/// the range `i32 >> 13` can hold, on each side).
pub open spec fn is_calendar_date(d: Ymd) -> bool {
    &&& -262143 <= d.year <= 262142
    &&& 1 <= d.month <= 12
    &&& 1 <= d.day <= days_in_month(d.year as int, d.month as int)
}

/// `s` left-padded with zeros to at least `width` characters.
pub open spec fn zero_pad(s: Seq<char>, width: nat) -> Seq<char> {
    if s.len() >= width {
        s
    } else {
        Seq::new((width - s.len()) as nat, |i: int| '0') + s
    }
}

/// chrono's `%Y`: four digits, zero-padded, for years 0 to 9999; otherwise
/// the signed number, zero-padded to five characters including the sign.
pub open spec fn year_text(year: int) -> Seq<char> {
    if 0 <= year <= 9999 {
        zero_pad(decimal(year as nat), 4)
    } else if year > 9999 {
        seq!['+'] + decimal(year as nat)
    } else {
        seq!['-'] + zero_pad(decimal((-year) as nat), 4)
    }
}

/// The date rendered as `%Y-%m-%d`: the year as `year_text`, then the month
/// and the day as two zero-padded digits.
pub open spec fn ymd_text(d: Ymd) -> Seq<char> {
    year_text(d.year as int) + seq!['-'] + zero_pad(decimal(d.month as nat), 2) + seq!['-']
        + zero_pad(decimal(d.day as nat), 2)
}

/// The date `days` days before `d`, as `NaiveDate::checked_sub_signed` with
/// `TimeDelta::try_days(days)` computes it, or `None` when the triple is not a
/// date, the span is out of `TimeDelta`'s range, or the result leaves
/// chrono's range of dates.
pub uninterp spec fn spec_days_before(d: Ymd, days: i64) -> Option<Ymd>;

/// Parses `text` as a date in the format `fmt` with
/// `chrono::NaiveDate::parse_from_str`, which returns an error rather than
/// panicking on any text and format. A parsed date is a `NaiveDate`, so a
/// calendar date in chrono's range.
#[verifier::external_body]
pub(crate) fn parse_date(text: &str, fmt: &str) -> (r: Option<Ymd>)
    ensures
        r == spec_parse_date(text@, fmt@),
        r matches Some(d) ==> is_calendar_date(d),
{
    match chrono::NaiveDate::parse_from_str(text, fmt) {
        Ok(d) => Some(Ymd { year: d.year(), month: d.month(), day: d.day() }),
        Err(_) => None,
    }
}

/// Renders a date with chrono's `NaiveDate::from_ymd_opt`, `NaiveDate::format`
/// and `to_string`. Only the `%Y-%m-%d` format is admitted: a format string
/// with an unknown specifier makes the formatting fail, and `to_string` then
/// panics. `from_ymd_opt` accepts exactly the calendar dates in chrono's year
/// range; chrono writes `%Y` with `write_year` (four zero-padded digits for
/// years 0 to 9999, else the signed number zero-padded to width five) and
/// `%m`, `%d` with two zero-padded digits.
#[verifier::external_body]
pub(crate) fn date_text(d: Ymd, fmt: &str) -> (r: Option<String>)
    requires
        fmt@ == ymd_format(),
    ensures
        r.is_some() == is_calendar_date(d),
        r matches Some(s) ==> s@ == ymd_text(d),
{
    match chrono::NaiveDate::from_ymd_opt(d.year, d.month, d.day) {
        Some(nd) => Some(nd.format(fmt).to_string()),
        None => None,
    }
}

/// The date `days` days earlier, with `TimeDelta::try_days` and
/// `NaiveDate::checked_sub_signed`, neither of which panics. A date that
/// chrono produces is a calendar date in its range.
#[verifier::external_body]
pub(crate) fn days_before(d: Ymd, days: i64) -> (r: Option<Ymd>)
    ensures
        r == spec_days_before(d, days),
        r matches Some(w) ==> is_calendar_date(w),
{
    let nd = chrono::NaiveDate::from_ymd_opt(d.year, d.month, d.day)?;
    let span = chrono::TimeDelta::try_days(days)?;
    let w = nd.checked_sub_signed(span)?;
    Some(Ymd { year: w.year(), month: w.month(), day: w.day() })
}

} // verus!
