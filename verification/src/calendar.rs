//! Calendar validity of a (year, month, day) triple in the proleptic
//! Gregorian calendar.

use vstd::prelude::*;

verus! {

/// The year is a leap year of the proleptic Gregorian calendar.
pub open spec fn is_leap_year(y: int) -> bool {
    (y % 4 == 0 && y % 100 != 0) || y % 400 == 0
}

/// Number of days of the given month in the given year.
pub open spec fn days_in_month(y: int, m: int) -> int {
    if m == 2 {
        if is_leap_year(y) {
            29
        } else {
            28
        }
    } else if m == 4 || m == 6 || m == 9 || m == 11 {
        30
    } else {
        31
    }
}

/// The triple denotes a real date of the proleptic Gregorian calendar.
pub open spec fn is_valid_date(y: int, m: int, d: int) -> bool {
    1 <= m <= 12 && 1 <= d <= days_in_month(y, m)
}

/// Decides whether the triple is a real calendar date.
pub fn validate_ymd(year: u16, month: u8, day: u8) -> (r: bool)
    ensures
        r == is_valid_date(year as int, month as int, day as int),
{
    if month < 1 || month > 12 {
        return false;
    }
    let leap: bool = (year % 4 == 0 && year % 100 != 0) || year % 400 == 0;
    let max_day: u8 = if month == 2 {
        if leap {
            29
        } else {
            28
        }
    } else if month == 4 || month == 6 || month == 9 || month == 11 {
        30
    } else {
        31
    };
    1 <= day && day <= max_day
}

} // verus!
