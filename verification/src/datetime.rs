//! Dates and times as the upstream services write them: wall-clock time in
//! China, eight hours east of UTC.

use chrono::{NaiveDate, NaiveDateTime, ParseError};
use vstd::prelude::*;

verus! {

/// `chrono::ParseError`, why a text could not be read. Nothing inside it is
/// looked at.
#[verifier::external_type_specification]
#[verifier::external_body]
pub struct ExParseError(ParseError);

/// The seconds from the start of 1970 to the date and time of day that
/// `NaiveDateTime::parse_from_str` reads out of `text` by `format`.
pub uninterp spec fn naive_datetime_seconds(text: Seq<char>, format: Seq<char>) -> Option<int>;

/// The seconds from the start of 1970 to the start of the day that
/// `NaiveDate::parse_from_str` reads out of `text` by `format`.
pub uninterp spec fn naive_date_seconds(text: Seq<char>, format: Seq<char>) -> Option<int>;

/// `NaiveDateTime::parse_from_str`, and the seconds that the moment it read
/// lies after the start of 1970, both taken without a time zone.
#[verifier::external_body]
fn parse_naive_datetime(text: &str, format: &str) -> (seconds: Result<i64, ParseError>)
    ensures
        match seconds {
            Ok(stamp) => naive_datetime_seconds(text@, format@) == Some(stamp as int),
            Err(_) => naive_datetime_seconds(text@, format@) is None,
        },
{
    NaiveDateTime::parse_from_str(text, format).map(|moment| moment.and_utc().timestamp())
}

/// `NaiveDate::parse_from_str`, and the seconds that the start of the day it
/// read lies after the start of 1970, both taken without a time zone.
#[verifier::external_body]
fn parse_naive_date(text: &str, format: &str) -> (seconds: Result<i64, ParseError>)
    ensures
        match seconds {
            Ok(stamp) => naive_date_seconds(text@, format@) == Some(stamp as int),
            Err(_) => naive_date_seconds(text@, format@) is None,
        },
{
    NaiveDate::parse_from_str(text, format).map(|day| NaiveDateTime::from(day).and_utc().timestamp())
}

/// The seconds by which wall-clock time in China is ahead of UTC.
pub const CN_OFFSET_SECONDS: i64 = 28_800;

/// Why a text is no date.
pub enum DateTimeError {
    /// The text is neither a date with a time of day nor a date alone; the
    /// error is that of reading it as a date alone.
    Parse(ParseError),
    /// The moment cannot be counted in seconds.
    OutOfRange,
}

/// The wall-clock seconds that `text` stands for: those of a date with a
/// time of day where it is one, else those of the start of a day.
pub open spec fn wall_clock_seconds(text: Seq<char>) -> Option<int> {
    match naive_datetime_seconds(text, "%Y-%m-%d %H:%M:%S"@) {
        Some(seconds) => Some(seconds),
        None => naive_date_seconds(text, "%Y-%m-%d"@),
    }
}

/// Reads `text` as `year-month-day hour:minute:second`, or as
/// `year-month-day` for the start of that day, on the wall clock of China,
/// and returns the moment in seconds after the start of 1970 in UTC.
pub fn parser_date_time_str(date_time_str: &str) -> (moment: Result<i64, DateTimeError>)
    ensures
        match moment {
            Ok(stamp) => wall_clock_seconds(date_time_str@) == Some(stamp + CN_OFFSET_SECONDS),
            Err(DateTimeError::Parse(_)) => wall_clock_seconds(date_time_str@) is None,
            Err(DateTimeError::OutOfRange) => wall_clock_seconds(date_time_str@) matches Some(seconds) && seconds
                - CN_OFFSET_SECONDS < i64::MIN,
        },
{
    let local = match parse_naive_datetime(date_time_str, "%Y-%m-%d %H:%M:%S") {
        Ok(seconds) => seconds,
        Err(_) => match parse_naive_date(date_time_str, "%Y-%m-%d") {
            Ok(seconds) => seconds,
            Err(error) => {
                return Err(DateTimeError::Parse(error));
            },
        },
    };
    match local.checked_sub(CN_OFFSET_SECONDS) {
        Some(stamp) => Ok(stamp),
        None => Err(DateTimeError::OutOfRange),
    }
}

} // verus!
