//! Calendar values, made by chrono.

use vstd::prelude::*;

verus! {

#[verifier::external_type_specification]
#[verifier::external_body]
pub struct ExNaiveDate(chrono::NaiveDate);

#[verifier::external_type_specification]
#[verifier::external_body]
pub struct ExNaiveDateTime(chrono::NaiveDateTime);

/// The day of a calendar date, counted from 1970-01-01.
pub uninterp spec fn date_days(date: chrono::NaiveDate) -> int;

/// The instant of a calendar date-time, in milliseconds from
/// 1970-01-01T00:00:00.
pub uninterp spec fn datetime_millis(moment: chrono::NaiveDateTime) -> int;

/// The time of the date-time lies within its second: the date-time does not
/// stand in a leap second.
pub uninterp spec fn datetime_plain(moment: chrono::NaiveDateTime) -> bool;

/// The first day that the calendar holds: 1 January of the year -262143.
pub const FIRST_DAY: i64 = -96_465_292;

/// The last day that the calendar holds: 31 December of the year 262142.
pub const LAST_DAY: i64 = 95_026_236;

/// The day offset lies in the calendar.
pub open spec fn day_representable(days: int) -> bool {
    FIRST_DAY <= days <= LAST_DAY
}

/// The millisecond offset falls on a day of the calendar.
pub open spec fn millis_representable(millis: int) -> bool {
    FIRST_DAY * 86_400_000 <= millis < (LAST_DAY + 1) * 86_400_000
}

/// Calls `NaiveDate::from_epoch_days`, which adds the day number of
/// 1970-01-01 and returns a date where the sum is a day between
/// `NaiveDate::MIN` and `NaiveDate::MAX`, and `None` otherwise.
#[verifier::external_body]
pub(crate) fn date_from_epoch_days(days: i32) -> (out: Option<chrono::NaiveDate>)
    ensures
        out.is_some() <==> day_representable(days as int),
        out matches Some(date) ==> date_days(date) == days,
{
    chrono::NaiveDate::from_epoch_days(days)
}

/// Calls `DateTime::<Utc>::from_timestamp_millis` and takes the UTC date-time
/// of the result. The call splits the offset into a day and a time within the
/// day, never in a leap second, and returns `None` where the day is outside
/// the calendar.
#[verifier::external_body]
pub(crate) fn datetime_from_epoch_millis(millis: i64) -> (out: Option<chrono::NaiveDateTime>)
    ensures
        out.is_some() <==> millis_representable(millis as int),
        out matches Some(moment) ==> datetime_millis(moment) == millis && datetime_plain(moment),
{
    match chrono::DateTime::<chrono::Utc>::from_timestamp_millis(millis) {
        Some(moment) => Some(moment.naive_utc()),
        None => None,
    }
}

} // verus!
