//! Instants and calendar days.
//!
//! An instant is a whole number of seconds since 1970-01-01T00:00:00Z, a day
//! is a whole number of days since 1970-01-01. The calendar itself, that is
//! the years, months and days of a text, is the work of `chrono`.

use vstd::prelude::*;

verus! {

pub const SECONDS_PER_DAY: i64 = 86400;

/// The first instant that `chrono` can hold: the start of the year -262143.
pub const MIN_TIMESTAMP: i64 = -8334601228800;

/// The last instant that `chrono` can hold: the end of the year 262142.
pub const MAX_TIMESTAMP: i64 = 8210266876799;

/// The first day that `chrono` can hold.
pub const MIN_DAY: i64 = -96465292;

/// The last day that `chrono` can hold.
pub const MAX_DAY: i64 = 95026236;

/// Whether an instant lies in the years that `chrono` can hold.
pub open spec fn representable(seconds: int) -> bool {
    MIN_TIMESTAMP <= seconds <= MAX_TIMESTAMP
}

/// Whether a day lies in the years that `chrono` can hold.
pub open spec fn representable_day(day: int) -> bool {
    MIN_DAY <= day <= MAX_DAY
}

/// The day on which an instant falls.
pub open spec fn day_of(seconds: int) -> int {
    seconds / 86400
}

/// The first instant of a day.
pub open spec fn midnight(day: int) -> int {
    day * 86400
}

/// The four patterns in which this crate writes and reads dates.
pub open spec fn is_date_pattern(pattern: Seq<char>) -> bool {
    pattern == "%Y-%m-%d"@ || pattern == "%Y %m %d"@ || pattern == "%d/%m/%Y"@ || pattern
        == "%d/%m"@
}

/// The text that `chrono` writes for an instant under a pattern.
pub uninterp spec fn formatted_time(seconds: int, pattern: Seq<char>) -> Seq<char>;

/// The instant that `chrono` reads from a text in the RFC 3339 form, or the
/// description of the error it reports.
pub uninterp spec fn rfc3339_instant(text: Seq<char>) -> Result<i64, Seq<char>>;

/// The day that `chrono` reads from a text under a pattern, or the message of
/// the error it reports.
pub uninterp spec fn parsed_day(text: Seq<char>, pattern: Seq<char>) -> Result<i64, Seq<char>>;

/// Calls `DateTime::from_timestamp` and `DateTime::format`. An instant
/// outside the years that `chrono` holds has no text; the text of any other is
/// known only by its name.
#[verifier::external_body]
fn format_time(seconds: i64, pattern: &str) -> (r: Option<String>)
    requires
        is_date_pattern(pattern@),
    ensures
        r is Some <==> representable(seconds as int),
        r matches Some(text) ==> text@ == formatted_time(seconds as int, pattern@),
{
    chrono::DateTime::from_timestamp(seconds, 0).map(|t| t.format(pattern).to_string())
}

/// Calls `DateTime::parse_from_rfc3339` and `DateTime::timestamp`. What is
/// read is known only by its name; every instant that `chrono` reads lies in
/// the years it can hold.
#[verifier::external_body]
pub(crate) fn parse_rfc3339(text: &str) -> (r: Result<i64, String>)
    ensures
        match r {
            Ok(seconds) => rfc3339_instant(text@) == Ok::<i64, Seq<char>>(seconds)
                && representable(seconds as int),
            Err(message) => rfc3339_instant(text@) == Err::<i64, Seq<char>>(message@),
        },
{
    chrono::DateTime::parse_from_rfc3339(text).map(|t| t.timestamp()).map_err(
        |e| format!("{:?}", e),
    )
}

/// Calls `NaiveDate::parse_from_str` and `NaiveDate::to_epoch_days`. What is
/// read is known only by its name; every day that `chrono` reads lies in the
/// years it can hold.
#[verifier::external_body]
pub(crate) fn parse_day(text: &str, pattern: &str) -> (r: Result<i64, String>)
    requires
        is_date_pattern(pattern@),
    ensures
        match r {
            Ok(day) => parsed_day(text@, pattern@) == Ok::<i64, Seq<char>>(day)
                && representable_day(day as int),
            Err(message) => parsed_day(text@, pattern@) == Err::<i64, Seq<char>>(message@),
        },
{
    chrono::NaiveDate::parse_from_str(text, pattern).map(|d| i64::from(d.to_epoch_days())).map_err(
        |e| e.to_string(),
    )
}

/// Whether `chrono` can hold an instant.
pub fn is_representable(seconds: i64) -> (r: bool)
    ensures
        r == representable(seconds as int),
{
    MIN_TIMESTAMP <= seconds && seconds <= MAX_TIMESTAMP
}

/// Whether `chrono` can hold a day.
pub fn is_representable_day(day: i64) -> (r: bool)
    ensures
        r == representable_day(day as int),
{
    MIN_DAY <= day && day <= MAX_DAY
}

/// The day on which an instant falls.
pub fn day_number(seconds: i64) -> (r: i64)
    ensures
        r == day_of(seconds as int),
{
    if seconds >= 0 {
        seconds / SECONDS_PER_DAY
    } else {
        -((-(seconds + 1)) / SECONDS_PER_DAY) - 1
    }
}

/// The first instant of a day.
pub fn day_start(day: i64) -> (r: i64)
    requires
        representable_day(day as int),
    ensures
        r == midnight(day as int),
        representable(r as int),
        day_of(r as int) == day,
{
    day * SECONDS_PER_DAY
}

/// An instant, written under one of the date patterns.
pub fn time_text(seconds: i64, pattern: &str) -> (r: String)
    requires
        representable(seconds as int),
        is_date_pattern(pattern@),
    ensures
        r@ == formatted_time(seconds as int, pattern@),
{
    match format_time(seconds, pattern) {
        Some(text) => text,
        None => String::new(),
    }
}

/// The date of an instant, written as year, month and day.
pub fn date_text(seconds: i64) -> (r: String)
    requires
        representable(seconds as int),
    ensures
        r@ == formatted_time(seconds as int, "%Y-%m-%d"@),
{
    time_text(seconds, "%Y-%m-%d")
}

/// A day, written as year, month and day.
pub fn day_text(day: i64) -> (r: String)
    requires
        representable_day(day as int),
    ensures
        r@ == formatted_time(midnight(day as int), "%Y-%m-%d"@),
{
    date_text(day_start(day))
}

} // verus!
