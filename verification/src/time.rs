//! Points in time as plain numbers.

use vstd::prelude::*;

verus! {

/// An instant, counted from 1970-01-01T00:00:00Z.
///
/// `seconds` are whole seconds since that instant (negative before it) and
/// `nanos` the nanoseconds to add on top.
#[derive(Clone, Copy, Debug, PartialEq, Eq, Structural)]
pub struct PointInTime {
    pub seconds: i64,
    pub nanos: u32,
}

/// Whether `year` has a 29th of February in the Gregorian calendar.
pub open spec fn is_leap_year(year: int) -> bool {
    year % 4 == 0 && (year % 100 != 0 || year % 400 == 0)
}

/// The number of days of `month` (1 to 12) in `year`.
pub open spec fn days_in_month(year: int, month: int) -> int {
    if month == 2 {
        if is_leap_year(year) { 29 } else { 28 }
    } else if month == 4 || month == 6 || month == 9 || month == 11 {
        30
    } else {
        31
    }
}

/// Whether year, month and day name a day of the Gregorian calendar.
pub open spec fn is_calendar_date(year: int, month: int, day: int) -> bool {
    1 <= month <= 12 && 1 <= day <= days_in_month(year, month)
}

/// Days from 1970-01-01 to the first of January of `year` (from 1970 on).
pub open spec fn days_before_year(year: int) -> int {
    365 * (year - 1970) + (year - 1969) / 4 - (year - 1901) / 100 + (year - 1601) / 400
}

/// Days from the first of January of `year` to the first of `month`.
pub open spec fn days_before_month(year: int, month: int) -> int
    decreases month,
{
    if month <= 1 {
        0
    } else {
        days_before_month(year, month - 1) + days_in_month(year, month - 1)
    }
}

/// Days from 1970-01-01 to the given calendar date.
pub open spec fn epoch_day(year: int, month: int, day: int) -> int {
    days_before_year(year) + days_before_month(year, month) + (day - 1)
}

/// Seconds from 1970-01-01T00:00:00Z to midnight UTC of the given date.
pub open spec fn midnight_utc_seconds(year: int, month: int, day: int) -> int {
    epoch_day(year, month, day) * 86_400
}

} // verus!
