//! Calendar dates as plain values, and the date parsing and formatting that
//! `chrono` does for the application.

use vstd::prelude::*;
use chrono::{Datelike, Timelike};
use crate::text::{spec_two_digits, spec_padded_four};

verus! {

/// Whether `year` is a leap year of the proleptic Gregorian calendar.
pub open spec fn spec_leap_year(year: int) -> bool {
    (year % 4 == 0 && year % 100 != 0) || year % 400 == 0
}

/// The number of days of `month` (1..=12) in `year`.
pub open spec fn spec_days_in_month(year: int, month: int) -> int {
    if month == 2 {
        if spec_leap_year(year) { 29 } else { 28 }
    } else if month == 4 || month == 6 || month == 9 || month == 11 {
        30
    } else {
        31
    }
}

/// A calendar date that `chrono::NaiveDate` can hold: a year from -262143
/// to 262142, a month from 1 to 12 and a day that the month has.
pub open spec fn spec_valid_date(year: i32, month: u32, day: u32) -> bool {
    &&& -262143 <= year <= 262142
    &&& 1 <= month <= 12
    &&& 1 <= day <= spec_days_in_month(year as int, month as int)
}

/// The date (year, month, day) that `NaiveDate::parse_from_str` reads from
/// `text` in the format `fmt`, if it reads one.
pub uninterp spec fn spec_parse_date(text: Seq<char>, fmt: Seq<char>) -> Option<(i32, u32, u32)>;

/// The date that `text` reads as in the format `%m/%d/%Y`, if any.
pub open spec fn spec_us_date(text: Seq<char>) -> Option<(i32, u32, u32)> {
    spec_parse_date(text, "%m/%d/%Y"@)
}

/// The date that `text` reads as in the format `%Y-%m-%d`, if any.
pub open spec fn spec_ymd_date(text: Seq<char>) -> Option<(i32, u32, u32)> {
    spec_parse_date(text, "%Y-%m-%d"@)
}

/// The text that chrono's `%Y` writes for a year: at least four digits,
/// with leading zeros, and a sign for years outside 0..=9999.
pub open spec fn spec_year_text(year: int) -> Seq<char> {
    if 0 <= year <= 9999 {
        spec_padded_four(year as nat)
    } else if year < 0 {
        seq!['-'] + spec_padded_four((-year) as nat)
    } else {
        seq!['+'] + spec_padded_four(year as nat)
    }
}

/// The text that `NaiveDate::format("%Y-%m-%d")` writes for a date: the
/// year, then month and day in two digits each.
pub open spec fn spec_iso_date(year: i32, month: u32, day: u32) -> Seq<char> {
    spec_year_text(year as int) + seq!['-'] + spec_two_digits(month as int) + seq!['-'] + spec_two_digits(day as int)
}

/// Whether `(year, month, day)` is a date that `NaiveDate` can hold.
pub fn is_valid_date(year: i32, month: u32, day: u32) -> (r: bool)
    ensures
        r == spec_valid_date(year, month, day),
{
    if year < -262143 || year > 262142 || month < 1 || month > 12 || day < 1 {
        return false;
    }
    let leap = (year % 4 == 0 && year % 100 != 0) || year % 400 == 0;
    assert(leap == spec_leap_year(year as int));
    let days: u32 = if month == 2 {
        if leap { 29 } else { 28 }
    } else if month == 4 || month == 6 || month == 9 || month == 11 {
        30
    } else {
        31
    };
    day <= days
}

/// `chrono::NaiveDate::parse_from_str(text, fmt)`, as (year, month, day).
/// Claims that the result is the named parse of `text` in `fmt` and, as
/// every `NaiveDate` is, a valid date.
#[verifier::external_body]
fn parse_date(text: &str, fmt: &str) -> (r: Option<(i32, u32, u32)>)
    ensures
        r == spec_parse_date(text@, fmt@),
        r matches Some(d) ==> spec_valid_date(d.0, d.1, d.2),
{
    match chrono::NaiveDate::parse_from_str(text, fmt) {
        Ok(d) => Some((d.year(), d.month(), d.day())),
        Err(_) => None,
    }
}

/// Reads a date written `MM/DD/YYYY`.
pub(crate) fn parse_us_date(text: &str) -> (r: Option<(i32, u32, u32)>)
    ensures
        r == spec_us_date(text@),
        r matches Some(d) ==> spec_valid_date(d.0, d.1, d.2),
{
    parse_date(text, "%m/%d/%Y")
}

/// `chrono::NaiveDate::format(&date, "%Y-%m-%d")` of the date with the
/// given fields, which `NaiveDate::from_ymd_opt` accepts for a valid date.
/// Claims that the text is the year as chrono's `%Y` writes it, then month
/// and day in two digits each, joined by `-`.
#[verifier::external_body]
pub(crate) fn format_iso_date(year: i32, month: u32, day: u32) -> (r: String)
    requires
        spec_valid_date(year, month, day),
    ensures
        r@ == spec_iso_date(year, month, day),
{
    chrono::NaiveDate::from_ymd_opt(year, month, day).unwrap().format("%Y-%m-%d").to_string()
}

/// A time of day that `chrono::NaiveTime` can hold: nanoseconds past a
/// second reach into a following leap second only at second 59.
pub open spec fn spec_valid_time(hour: u32, minute: u32, second: u32, nano: u32) -> bool {
    &&& hour < 24
    &&& minute < 60
    &&& second < 60
    &&& nano < 2_000_000_000
    &&& (nano >= 1_000_000_000 ==> second == 59)
}

/// A date and a time of day, as plain values.
#[derive(Debug, Clone, Copy, PartialEq, Eq, Structural)]
pub struct DateTimeParts {
    pub year: i32,
    pub month: u32,
    pub day: u32,
    pub hour: u32,
    pub minute: u32,
    pub second: u32,
    pub nanosecond: u32,
}

/// A date and time that `chrono::NaiveDateTime` can hold.
pub open spec fn spec_valid_date_time(t: DateTimeParts) -> bool {
    &&& spec_valid_date(t.year, t.month, t.day)
    &&& spec_valid_time(t.hour, t.minute, t.second, t.nanosecond)
}

/// The time (hour, minute, second, nanosecond) that
/// `NaiveTime::parse_from_str` reads from `text` in the format `%H:%M:%S`,
/// if it reads one.
pub uninterp spec fn spec_hms_time(text: Seq<char>) -> Option<(u32, u32, u32, u32)>;

/// The text that `NaiveTime::format("%H:%M:%S")` writes for a time: hour,
/// minute and second in two digits each, a leap second written as 60.
pub open spec fn spec_hms_text(hour: u32, minute: u32, second: u32, nano: u32) -> Seq<char> {
    spec_two_digits(hour as int) + seq![':'] + spec_two_digits(minute as int) + seq![':'] + spec_two_digits(
        second + nano / 1_000_000_000,
    )
}

/// Whether `(hour, minute, second, nano)` is a time that `NaiveTime` can
/// hold.
pub fn is_valid_time(hour: u32, minute: u32, second: u32, nano: u32) -> (r: bool)
    ensures
        r == spec_valid_time(hour, minute, second, nano),
{
    hour < 24 && minute < 60 && second < 60 && nano < 2_000_000_000 && (nano < 1_000_000_000 || second == 59)
}

/// The number of the day `(year, month, day)` of the proleptic Gregorian
/// calendar, counted from 1970-01-01.
pub open spec fn spec_day_number(year: int, month: int, day: int) -> int {
    let y = if month <= 2 { year - 1 } else { year };
    let era = y / 400;
    let yoe = y - era * 400;
    let mp = (month + 9) % 12;
    let doy = (153 * mp + 2) / 5 + day - 1;
    let doe = yoe * 365 + yoe / 4 - yoe / 100 + doy;
    era * 146_097 + doe - 719_468
}

/// The whole seconds of the day at `t`; a leap second counts as second 59,
/// its extra second being held in the nanoseconds.
pub open spec fn spec_second_of_day(t: DateTimeParts) -> int {
    t.hour * 3600 + t.minute * 60 + t.second
}

/// The whole seconds from `start` to `end` that
/// `NaiveDateTime::signed_duration_since(end, start).num_seconds()` gives:
/// the days between the dates and the seconds between the times, a leap
/// second that one time holds and the other passes counted in full, plus
/// the difference of the nanoseconds, truncated toward zero.
pub open spec fn spec_elapsed_seconds(start: DateTimeParts, end: DateTimeParts) -> int {
    let days = spec_day_number(end.year as int, end.month as int, end.day as int) - spec_day_number(
        start.year as int,
        start.month as int,
        start.day as int,
    );
    let es = spec_second_of_day(end);
    let ss = spec_second_of_day(start);
    let leap = if es > ss && start.nanosecond >= 1_000_000_000 {
        1int
    } else if es < ss && end.nanosecond >= 1_000_000_000 {
        -1int
    } else {
        0int
    };
    let frac = end.nanosecond - start.nanosecond;
    let secs = days * 86_400 + (es - ss) + leap + frac / 1_000_000_000;
    let nanos = frac % 1_000_000_000;
    if secs < 0 && nanos > 0 { secs + 1 } else { secs }
}

/// Reads a date written `YYYY-MM-DD`.
pub(crate) fn parse_ymd_date(text: &str) -> (r: Option<(i32, u32, u32)>)
    ensures
        r == spec_ymd_date(text@),
        r matches Some(d) ==> spec_valid_date(d.0, d.1, d.2),
{
    parse_date(text, "%Y-%m-%d")
}

/// `chrono::NaiveTime::parse_from_str(text, "%H:%M:%S")`, as (hour,
/// minute, second, nanosecond). Claims that the result is the named parse
/// of `text` and a valid time.
#[verifier::external_body]
pub(crate) fn parse_hms_time(text: &str) -> (r: Option<(u32, u32, u32, u32)>)
    ensures
        r == spec_hms_time(text@),
        r matches Some(t) ==> spec_valid_time(t.0, t.1, t.2, t.3),
{
    match chrono::NaiveTime::parse_from_str(text, "%H:%M:%S") {
        Ok(t) => Some((t.hour(), t.minute(), t.second(), t.nanosecond())),
        Err(_) => None,
    }
}

/// `chrono::NaiveTime::format(&time, "%H:%M:%S")` of the time with the
/// given fields, which `NaiveTime::from_hms_nano_opt` accepts for a valid
/// time. Claims that the text is hour, minute and second in two digits
/// each, joined by `:`, with a leap second written as 60.
#[verifier::external_body]
pub(crate) fn format_hms_time(hour: u32, minute: u32, second: u32, nano: u32) -> (r: String)
    requires
        spec_valid_time(hour, minute, second, nano),
    ensures
        r@ == spec_hms_text(hour, minute, second, nano),
{
    chrono::NaiveTime::from_hms_nano_opt(hour, minute, second, nano).unwrap().format("%H:%M:%S").to_string()
}

/// `NaiveDateTime::signed_duration_since(end, start).num_seconds()` for the
/// date-times with the given fields. Claims that the result is the number
/// of whole seconds that `spec_elapsed_seconds` states: chrono counts days
/// of the proleptic Gregorian calendar and seconds of the day, with the
/// leap-second adjustment of `NaiveTime::signed_duration_since`, and
/// `num_seconds` truncates toward zero.
#[verifier::external_body]
pub(crate) fn elapsed_seconds(start: &DateTimeParts, end: &DateTimeParts) -> (r: i64)
    requires
        spec_valid_date_time(*start),
        spec_valid_date_time(*end),
    ensures
        r == spec_elapsed_seconds(*start, *end),
{
    let s = chrono::NaiveDate::from_ymd_opt(start.year, start.month, start.day).unwrap().and_hms_nano_opt(
        start.hour, start.minute, start.second, start.nanosecond).unwrap();
    let e = chrono::NaiveDate::from_ymd_opt(end.year, end.month, end.day).unwrap().and_hms_nano_opt(
        end.hour, end.minute, end.second, end.nanosecond).unwrap();
    e.signed_duration_since(s).num_seconds()
}

} // verus!

