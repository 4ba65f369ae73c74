//! Times of modification as text.
//!
//! The calendar is that of the `chrono` crate. What it writes for a time is
//! not specified here; it is named.

use vstd::prelude::*;

verus! {

/// What `chrono` writes with `{:?}` for the `NaiveDateTime` that lies
/// `seconds` seconds after the epoch, such as `2015-05-15T00:00:00`; none
/// where `chrono::DateTime::from_timestamp` has no date for `seconds`.
pub uninterp spec fn date_time_text(seconds: i64) -> Option<Seq<char>>;

/// What `chrono` writes with `{}` for the `NaiveDateTime` that lies `seconds`
/// seconds after the epoch, such as `2015-05-15 00:00:00`; none where
/// `chrono::DateTime::from_timestamp` has no date for `seconds`.
pub uninterp spec fn date_time_plain_text(seconds: i64) -> Option<Seq<char>>;

/// What a text holds, where there is one.
pub open spec fn text_view(text: Option<String>) -> Option<Seq<char>> {
    match text {
        Some(t) => Some(t@),
        None => None,
    }
}

/// Calls `chrono::DateTime::from_timestamp` with no nanoseconds and writes
/// the date and time of day that it finds with `{:?}`.
///
/// Trusted: the text is a function of the seconds alone.
#[verifier::external_body]
fn debug_date_time(seconds: i64) -> (text: Option<String>)
    ensures
        text_view(text) == date_time_text(seconds),
{
    chrono::DateTime::from_timestamp(seconds, 0).map(|t| format!("{:?}", t.naive_utc()))
}

/// Calls `chrono::DateTime::from_timestamp` with no nanoseconds and writes
/// the date and time of day that it finds with `{}`.
///
/// Trusted: the text is a function of the seconds alone.
#[verifier::external_body]
fn display_date_time(seconds: i64) -> (text: Option<String>)
    ensures
        text_view(text) == date_time_plain_text(seconds),
{
    chrono::DateTime::from_timestamp(seconds, 0).map(|t| format!("{}", t.naive_utc()))
}

/// The text that stands for a time in an object's line.
pub open spec fn converted(date_time_opt: Option<i64>) -> Option<Seq<char>> {
    match date_time_opt {
        Some(seconds) => date_time_text(seconds),
        None => None,
    }
}

/// The text that stands for a time in a bucket's line.
pub open spec fn converted_plain(date_time_opt: Option<i64>) -> Option<Seq<char>> {
    match date_time_opt {
        Some(seconds) => date_time_plain_text(seconds),
        None => None,
    }
}

/// Writes a time, given in seconds since the epoch, as a date and a time of
/// day, in the form that an object's line takes. There is no text where
/// there is no time, or where the time lies outside the calendar.
pub fn convert_date_time(date_time_opt: Option<i64>) -> (text: Option<String>)
    ensures
        text_view(text) == converted(date_time_opt),
{
    match date_time_opt {
        Some(seconds) => debug_date_time(seconds),
        None => None,
    }
}

/// Writes a time, given in seconds since the epoch, as a date and a time of
/// day, in the form that a bucket's line takes. There is no text where there
/// is no time, or where the time lies outside the calendar.
pub fn convert_date_time_plain(date_time_opt: Option<i64>) -> (text: Option<String>)
    ensures
        text_view(text) == converted_plain(date_time_opt),
{
    match date_time_opt {
        Some(seconds) => display_date_time(seconds),
        None => None,
    }
}

} // verus!
