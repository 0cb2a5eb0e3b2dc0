//! The Julian Day Number of a calendar date.
//!
//! The Julian Date of a day's midnight is its Julian Day Number less one
//! half. A caller that needs the Julian Date of the local solar midnight
//! further takes off the longitude, in degrees, divided by 360.
use crate::calendar::{days_from_epoch, is_valid_ymd, lemma_days_before_month, CalendarDate};
use vstd::prelude::*;

verus! {

/// The Julian Day Number of 1970-01-01.
pub const EPOCH_JULIAN_DAY: i64 = 2_440_588;

/// The quotient of `a` by the positive `b`, rounded toward zero.
pub open spec fn truncated_quotient(a: int, b: int) -> int {
    if a >= 0 {
        a / b
    } else {
        -((-a) / b)
    }
}

/// The Julian Day Number by the usual conversion: January and February
/// count as months 13 and 14 of the year before, and the Gregorian
/// correction takes the centuries off and puts every fourth one back. The
/// centuries are counted toward zero, so before the year 1 the correction
/// is that of the arithmetic, not of the calendar.
pub open spec fn julian_day_number(year: int, month: int, day: int) -> int {
    let y = if month <= 2 {
        year - 1
    } else {
        year
    };
    let m = if month <= 2 {
        month + 12
    } else {
        month
    };
    let century = truncated_quotient(y, 100);
    let correction = 2 - century + truncated_quotient(century, 4);
    (1461 * (y + 4716)) / 4 + (306_001 * (m + 1)) / 10_000 + day + correction - 1524
}

/// The quotient of `a` by 4, rounded down.
fn floor_quarter(a: i64) -> (r: i64)
    requires
        -i64::MAX + 3 <= a,
    ensures
        r == a as int / 4,
{
    if a >= 0 {
        a / 4
    } else {
        -((3 - a) / 4)
    }
}

/// The Julian Day Number of the day with the given year, month and day.
pub fn julian_from_gregorian(year: i32, month: u32, day: u32) -> (r: i64)
    ensures
        r == julian_day_number(year as int, month as int, day as int),
{
    let mut y: i64 = year as i64;
    let mut m: i64 = month as i64;
    if month <= 2 {
        y = y - 1;
        m = m + 12;
    }
    let century: i64 = y / 100;
    let correction: i64 = 2 - century + century / 4;
    let year_days: i64 = floor_quarter(1461 * (y + 4716));
    let month_days: i64 = (306_001 * (m + 1)) / 10_000;
    year_days + month_days + day as i64 + correction - 1524
}

/// The Julian Day Number of a date.
pub fn to_julian_day(date: &CalendarDate) -> (r: i64)
    ensures
        r == julian_day_number(date.year as int, date.month as int, date.day as int),
{
    julian_from_gregorian(date.year, date.month, date.day)
}

/// From the year 1 on, the Julian Day Number of a date is its count of days
/// from 1970-01-01 plus the Julian Day Number of that day.
pub proof fn lemma_julian_day_counts_days(year: int, month: int, day: int)
    requires
        is_valid_ymd(year, month, day),
        year >= 1,
    ensures
        julian_day_number(year, month, day) == days_from_epoch(year, month, day)
            + EPOCH_JULIAN_DAY,
{
    lemma_days_before_month(year);
    let y = if month <= 2 {
        year - 1
    } else {
        year
    };
    assert((1461 * (y + 4716)) / 4 == 365 * (y + 4716) + y / 4 + 1179);
    assert(truncated_quotient(y, 100) == y / 100);
    assert(truncated_quotient(y / 100, 4) == y / 400);
    if month <= 2 {
        assert(y / 4 == (year - 1) / 4);
    } else {
        assert(year / 4 - (year - 1) / 4 == if year % 4 == 0 { 1int } else { 0 });
        assert(year / 100 - (year - 1) / 100 == if year % 100 == 0 { 1int } else { 0 });
        assert(year / 400 - (year - 1) / 400 == if year % 400 == 0 { 1int } else { 0 });
        assert(year % 400 == 0 ==> year % 100 == 0);
        assert(year % 100 == 0 ==> year % 4 == 0);
    }
}

} // verus!
