//! Calendar dates of the proleptic Gregorian calendar and the timestamps
//! that belong to them.
//!
//! A timestamp is a count of milliseconds since 1970-01-01T00:00:00, without
//! leap seconds and without a time zone. The dates and timestamps that this
//! module calls valid are exactly those that `chrono` can represent, so a
//! caller that works with `chrono` can convert in both directions.
use vstd::prelude::*;

verus! {

/// The earliest year of a valid date.
pub const MIN_YEAR: i32 = -262143;

/// The latest year of a valid date.
pub const MAX_YEAR: i32 = 262142;

/// Milliseconds in a day.
pub const MILLIS_PER_DAY: i64 = 86_400_000;

/// The timestamp of the first millisecond of the first valid date.
pub const MIN_TIMESTAMP: i64 = -8_334_601_228_800_000;

/// The timestamp of the last millisecond of the last valid date.
pub const MAX_TIMESTAMP: i64 = 8_210_266_876_799_999;

/// Whether `year` has a 29th of February.
pub open spec fn is_leap_year(year: int) -> bool {
    year % 4 == 0 && (year % 100 != 0 || year % 400 == 0)
}

/// The number of days of a month, and 0 for a month that does not exist.
pub open spec fn days_in_month(year: int, month: int) -> int {
    if month == 2 {
        if is_leap_year(year) {
            29
        } else {
            28
        }
    } else if month == 4 || month == 6 || month == 9 || month == 11 {
        30
    } else if 1 <= month <= 12 {
        31
    } else {
        0
    }
}

/// The number of days of `year` that lie before the first of `month`.
pub open spec fn days_before_month(year: int, month: int) -> int
    decreases month,
{
    if month <= 1 {
        0
    } else {
        days_before_month(year, month - 1) + days_in_month(year, month - 1)
    }
}

/// The number of days from 0001-01-01 to the first of January of `year`.
pub open spec fn days_before_year(year: int) -> int {
    365 * (year - 1) + (year - 1) / 4 - (year - 1) / 100 + (year - 1) / 400
}

/// The number of days from 1970-01-01 to the given date; negative before it.
pub open spec fn days_from_epoch(year: int, month: int, day: int) -> int {
    days_before_year(year) + days_before_month(year, month) + (day - 1) - 719_162
}

/// Whether year, month and day name a day of the calendar, in a year from
/// `MIN_YEAR` to `MAX_YEAR`.
pub open spec fn is_valid_ymd(year: int, month: int, day: int) -> bool {
    &&& MIN_YEAR <= year <= MAX_YEAR
    &&& 1 <= month <= 12
    &&& 1 <= day <= days_in_month(year, month)
}

/// Whether `millis` is the timestamp of an instant of a valid date.
pub open spec fn is_valid_timestamp(millis: int) -> bool {
    MIN_TIMESTAMP <= millis <= MAX_TIMESTAMP
}

/// The timestamp `delta` milliseconds after `time`, absent where it leaves
/// the valid range.
pub open spec fn shifted(time: int, delta: int) -> Option<i64> {
    if is_valid_timestamp(time + delta) {
        Some((time + delta) as i64)
    } else {
        None
    }
}

/// The day after the given one, by the calendar alone.
pub open spec fn next_ymd(year: int, month: int, day: int) -> (int, int, int) {
    if day < days_in_month(year, month) {
        (year, month, day + 1)
    } else if month < 12 {
        (year, month + 1, 1)
    } else {
        (year + 1, 1, 1)
    }
}

/// A day of the proleptic Gregorian calendar.
#[derive(Clone, Copy, Debug, PartialEq, Eq, Structural)]
pub struct CalendarDate {
    pub year: i32,
    /// 1 for January to 12 for December.
    pub month: u32,
    /// 1 for the first day of the month.
    pub day: u32,
}

/// `NaiveDate::from_ymd_opt` of chrono, then `and_hms_milli_opt(0, 0, 0, 0)`
/// and the timestamp in milliseconds of the result. The contract claims
/// that chrono accepts exactly the dates of `is_valid_ymd`, and that it
/// counts a day as 86 400 000 milliseconds from 1970-01-01.
#[verifier::external_body]
fn chrono_midnight_millis(year: i32, month: u32, day: u32) -> (r: Option<i64>)
    ensures
        r == if is_valid_ymd(year as int, month as int, day as int) {
            Some((days_from_epoch(year as int, month as int, day as int) * MILLIS_PER_DAY) as i64)
        } else {
            None
        },
{
    match chrono::NaiveDate::from_ymd_opt(year, month, day) {
        Some(date) => match date.and_hms_milli_opt(0, 0, 0, 0) {
            Some(midnight) => Some(midnight.and_utc().timestamp_millis()),
            None => None,
        },
        None => None,
    }
}

/// `DateTime::from_timestamp_millis` of chrono, to which its
/// `NaiveDateTime::from_timestamp_millis` forwards, and the timestamp in
/// milliseconds of the result. The contract claims that chrono accepts
/// exactly the timestamps of `is_valid_timestamp` and gives each back
/// unchanged.
#[verifier::external_body]
fn chrono_checked_timestamp(millis: i64) -> (r: Option<i64>)
    ensures
        r == if is_valid_timestamp(millis as int) {
            Some(millis)
        } else {
            None
        },
{
    match chrono::DateTime::from_timestamp_millis(millis) {
        Some(instant) => Some(instant.timestamp_millis()),
        None => None,
    }
}

/// `NaiveDate::succ_opt` of chrono on the date that `from_ymd_opt` makes of
/// the arguments. The contract claims that the result is the next day of
/// the calendar, and that it is absent only after the last valid date.
#[verifier::external_body]
fn chrono_next_day(year: i32, month: u32, day: u32) -> (r: Option<(i32, u32, u32)>)
    requires
        is_valid_ymd(year as int, month as int, day as int),
    ensures
        ({
            let next = next_ymd(year as int, month as int, day as int);
            r == if next.0 <= MAX_YEAR {
                Some((next.0 as i32, next.1 as u32, next.2 as u32))
            } else {
                None
            }
        }),
{
    match chrono::NaiveDate::from_ymd_opt(year, month, day) {
        Some(date) => match date.succ_opt() {
            Some(next) => Some((
                chrono::Datelike::year(&next),
                chrono::Datelike::month(&next),
                chrono::Datelike::day(&next),
            )),
            None => None,
        },
        None => None,
    }
}

/// Whether `year` has a 29th of February.
pub fn leap_year(year: i32) -> (r: bool)
    ensures
        r == is_leap_year(year as int),
{
    let size: i64 = if year >= 0 {
        year as i64
    } else {
        -(year as i64)
    };
    assert(size as int % 4 == 0 <==> year as int % 4 == 0);
    assert(size as int % 100 == 0 <==> year as int % 100 == 0);
    assert(size as int % 400 == 0 <==> year as int % 400 == 0);
    size % 4 == 0 && (size % 100 != 0 || size % 400 == 0)
}

/// The number of days of a month, and 0 for a month that does not exist.
pub fn month_length(year: i32, month: u32) -> (r: u32)
    ensures
        r == days_in_month(year as int, month as int),
{
    if month == 2 {
        if leap_year(year) {
            29
        } else {
            28
        }
    } else if month == 4 || month == 6 || month == 9 || month == 11 {
        30
    } else if 1 <= month && month <= 12 {
        31
    } else {
        0
    }
}

/// The timestamp `delta` milliseconds after `time`, or nothing where that
/// is no valid timestamp.
pub fn shift_timestamp(time: i64, delta: i64) -> (r: Option<i64>)
    ensures
        r == shifted(time as int, delta as int),
{
    match time.checked_add(delta) {
        Some(sum) => chrono_checked_timestamp(sum),
        None => None,
    }
}

impl CalendarDate {
    /// Whether the date exists, in a year from `MIN_YEAR` to `MAX_YEAR`.
    pub open spec fn is_valid(&self) -> bool {
        is_valid_ymd(self.year as int, self.month as int, self.day as int)
    }

    /// The number of days from 1970-01-01 to this date.
    pub open spec fn epoch_days(&self) -> int {
        days_from_epoch(self.year as int, self.month as int, self.day as int)
    }

    /// The timestamp of the first instant of this date.
    pub open spec fn midnight_spec(&self) -> int {
        self.epoch_days() * MILLIS_PER_DAY
    }

    /// The date with the given year, month and day, if there is one.
    pub fn from_ymd_opt(year: i32, month: u32, day: u32) -> (r: Option<CalendarDate>)
        ensures
            r == if is_valid_ymd(year as int, month as int, day as int) {
                Some(CalendarDate { year, month, day })
            } else {
                None
            },
    {
        if MIN_YEAR <= year && year <= MAX_YEAR && 1 <= month && month <= 12 && 1 <= day && day
            <= month_length(year, month) {
            Some(CalendarDate { year, month, day })
        } else {
            None
        }
    }

    /// The timestamp of the first instant of this date, or nothing if the
    /// date is not valid.
    pub fn midnight(&self) -> (r: Option<i64>)
        ensures
            match r {
                Some(t) => self.is_valid() && t == self.midnight_spec() && is_valid_timestamp(
                    t as int,
                ),
                None => !self.is_valid(),
            },
    {
        let r = chrono_midnight_millis(self.year, self.month, self.day);
        proof {
            if self.is_valid() {
                lemma_midnight_is_valid(self.year as int, self.month as int, self.day as int);
            }
        }
        r
    }

    /// The following day, or nothing after the last valid date.
    pub fn succ_opt(&self) -> (r: Option<CalendarDate>)
        requires
            self.is_valid(),
        ensures
            r matches Some(next) ==> next.is_valid() && next.epoch_days() == self.epoch_days() + 1,
            r is None <==> (self.year == MAX_YEAR && self.month == 12 && self.day == 31),
            r matches Some(next) ==> (next.year as int, next.month as int, next.day as int)
                == next_ymd(self.year as int, self.month as int, self.day as int),
    {
        proof {
            lemma_next_day(self.year as int, self.month as int, self.day as int);
        }
        match chrono_next_day(self.year, self.month, self.day) {
            Some((year, month, day)) => Some(CalendarDate { year, month, day }),
            None => None,
        }
    }
}

/// The days before a month, month by month.
pub proof fn lemma_days_before_month(year: int)
    ensures
        days_before_month(year, 1) == 0,
        days_before_month(year, 2) == 31,
        days_before_month(year, 3) == 59 + if is_leap_year(year) { 1int } else { 0 },
        days_before_month(year, 4) == 90 + if is_leap_year(year) { 1int } else { 0 },
        days_before_month(year, 5) == 120 + if is_leap_year(year) { 1int } else { 0 },
        days_before_month(year, 6) == 151 + if is_leap_year(year) { 1int } else { 0 },
        days_before_month(year, 7) == 181 + if is_leap_year(year) { 1int } else { 0 },
        days_before_month(year, 8) == 212 + if is_leap_year(year) { 1int } else { 0 },
        days_before_month(year, 9) == 243 + if is_leap_year(year) { 1int } else { 0 },
        days_before_month(year, 10) == 273 + if is_leap_year(year) { 1int } else { 0 },
        days_before_month(year, 11) == 304 + if is_leap_year(year) { 1int } else { 0 },
        days_before_month(year, 12) == 334 + if is_leap_year(year) { 1int } else { 0 },
        days_before_month(year, 13) == 365 + if is_leap_year(year) { 1int } else { 0 },
{
    reveal_with_fuel(days_before_month, 14);
}

/// A year has 365 days, and one more if it is a leap year.
pub proof fn lemma_year_length(year: int)
    ensures
        days_before_year(year + 1) - days_before_year(year) == days_before_month(year, 13),
{
    lemma_days_before_month(year);
    assert(year / 4 - (year - 1) / 4 == if year % 4 == 0 { 1int } else { 0 });
    assert(year / 100 - (year - 1) / 100 == if year % 100 == 0 { 1int } else { 0 });
    assert(year / 400 - (year - 1) / 400 == if year % 400 == 0 { 1int } else { 0 });
    assert(year % 400 == 0 ==> year % 100 == 0);
    assert(year % 100 == 0 ==> year % 4 == 0);
}

/// The midnight of every valid date is a valid timestamp, and so is every
/// later instant of that day.
pub proof fn lemma_midnight_is_valid(year: int, month: int, day: int)
    requires
        is_valid_ymd(year, month, day),
    ensures
        is_valid_timestamp(days_from_epoch(year, month, day) * MILLIS_PER_DAY),
        is_valid_timestamp(days_from_epoch(year, month, day) * MILLIS_PER_DAY + MILLIS_PER_DAY - 1),
{
    lemma_days_before_month(year);
    lemma_days_in_range(year, month, day);
}

/// The day count of a valid date lies between those of the first and the
/// last valid date.
proof fn lemma_days_in_range(year: int, month: int, day: int)
    requires
        is_valid_ymd(year, month, day),
    ensures
        -96_465_292 <= days_from_epoch(year, month, day) <= 95_026_236,
{
    lemma_days_before_month(year);
    assert(0 <= days_before_month(year, month) + (day - 1) <= 365) by {
        lemma_days_before_month(year);
    }
    assert(days_before_year(MIN_YEAR as int) - 719_162 == -96_465_292);
    assert(days_before_year(MAX_YEAR as int) - 719_162 + 364 == 95_026_236);
    lemma_days_before_year_monotone(MIN_YEAR as int, year);
    lemma_days_before_year_monotone(year, MAX_YEAR as int);
    assert(!is_leap_year(MAX_YEAR as int));
    if year < MAX_YEAR {
        lemma_days_before_year_monotone(year + 1, MAX_YEAR as int);
        lemma_year_length(year);
    }
}

/// Later years begin later.
proof fn lemma_days_before_year_monotone(a: int, b: int)
    requires
        a <= b,
    ensures
        days_before_year(a) <= days_before_year(b),
{
    assert((a - 1) / 4 <= (b - 1) / 4);
    assert((a - 1) / 400 <= (b - 1) / 400);
    // In a - 1 .. b - 1 there are at least as many years as centuries.
    assert((b - 1) / 100 - (a - 1) / 100 <= (b - a)) by {
        assert((b - 1) / 100 * 100 <= b - 1);
        assert((a - 1) / 100 * 100 > a - 1 - 100);
    }
}

/// The day after a valid date is one day later, and valid unless the date
/// is the last one.
pub proof fn lemma_next_day(year: int, month: int, day: int)
    requires
        is_valid_ymd(year, month, day),
    ensures
        ({
            let next = next_ymd(year, month, day);
            &&& days_from_epoch(next.0, next.1, next.2) == days_from_epoch(year, month, day) + 1
            &&& next.0 <= MAX_YEAR ==> is_valid_ymd(next.0, next.1, next.2)
            &&& next.0 > MAX_YEAR <==> (year == MAX_YEAR && month == 12 && day == 31)
        }),
{
    lemma_days_before_month(year);
    lemma_year_length(year);
    lemma_days_before_month(year + 1);
}

} // verus!
