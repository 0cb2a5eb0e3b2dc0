//! Dates, timestamps and Julian Day Numbers, held against chrono and against
//! the arithmetic in floating point that the Julian Date is usually
//! computed with.
use chrono::{Datelike, NaiveDate};
use praytimes::calendar::{
    leap_year, month_length, shift_timestamp, CalendarDate, MAX_TIMESTAMP, MAX_YEAR,
    MILLIS_PER_DAY, MIN_TIMESTAMP, MIN_YEAR,
};
use praytimes::julian::{julian_from_gregorian, to_julian_day, EPOCH_JULIAN_DAY};

fn date(year: i32, month: u32, day: u32) -> CalendarDate {
    CalendarDate::from_ymd_opt(year, month, day).unwrap()
}

fn chrono_midnight(year: i32, month: u32, day: u32) -> Option<i64> {
    NaiveDate::from_ymd_opt(year, month, day)
        .map(|d| d.and_hms_milli_opt(0, 0, 0, 0).unwrap().and_utc().timestamp_millis())
}

#[test]
fn leap_years() {
    assert!(leap_year(2024));
    assert!(leap_year(2000));
    assert!(leap_year(0));
    assert!(leap_year(-4));
    assert!(leap_year(-400));
    assert!(!leap_year(2023));
    assert!(!leap_year(1900));
    assert!(!leap_year(2100));
    assert!(!leap_year(-100));
    assert!(!leap_year(-1));
}

#[test]
fn month_lengths() {
    let common = [31, 28, 31, 30, 31, 30, 31, 31, 30, 31, 30, 31];
    for month in 1..=12u32 {
        assert_eq!(month_length(2023, month), common[(month - 1) as usize]);
    }
    assert_eq!(month_length(2024, 2), 29);
    assert_eq!(month_length(1900, 2), 28);
    assert_eq!(month_length(2024, 0), 0);
    assert_eq!(month_length(2024, 13), 0);
}

#[test]
fn dates_that_exist() {
    assert_eq!(
        CalendarDate::from_ymd_opt(2024, 2, 29),
        Some(CalendarDate { year: 2024, month: 2, day: 29 })
    );
    assert_eq!(CalendarDate::from_ymd_opt(2023, 2, 29), None);
    assert_eq!(CalendarDate::from_ymd_opt(2024, 0, 1), None);
    assert_eq!(CalendarDate::from_ymd_opt(2024, 13, 1), None);
    assert_eq!(CalendarDate::from_ymd_opt(2024, 1, 0), None);
    assert_eq!(CalendarDate::from_ymd_opt(2024, 4, 31), None);
    assert_eq!(CalendarDate::from_ymd_opt(2024, 1, 32), None);
    assert!(CalendarDate::from_ymd_opt(MAX_YEAR, 12, 31).is_some());
    assert!(CalendarDate::from_ymd_opt(MIN_YEAR, 1, 1).is_some());
    assert_eq!(CalendarDate::from_ymd_opt(MAX_YEAR + 1, 1, 1), None);
    assert_eq!(CalendarDate::from_ymd_opt(MIN_YEAR - 1, 12, 31), None);
}

#[test]
fn dates_exist_where_chrono_has_them() {
    let years = [MIN_YEAR - 1, MIN_YEAR, -401, -1, 0, 1, 1900, 2000, 2023, 2024, MAX_YEAR, MAX_YEAR + 1];
    for year in years {
        for month in 0..=13u32 {
            for day in [0u32, 1, 28, 29, 30, 31, 32] {
                assert_eq!(
                    CalendarDate::from_ymd_opt(year, month, day).is_some(),
                    NaiveDate::from_ymd_opt(year, month, day).is_some(),
                    "{year}-{month}-{day}",
                    year = year,
                    month = month,
                    day = day
                );
            }
        }
    }
    assert_eq!(NaiveDate::MIN.year(), MIN_YEAR);
    assert_eq!(NaiveDate::MAX.year(), MAX_YEAR);
}

#[test]
fn midnight_of_a_date() {
    assert_eq!(date(1970, 1, 1).midnight(), Some(0));
    assert_eq!(date(1970, 1, 2).midnight(), Some(MILLIS_PER_DAY));
    assert_eq!(date(1969, 12, 31).midnight(), Some(-MILLIS_PER_DAY));
    assert_eq!(date(2024, 1, 1).midnight(), Some(1_704_067_200_000));
    assert_eq!(date(2000, 3, 1).midnight(), Some(951_868_800_000));
    assert_eq!(date(MIN_YEAR, 1, 1).midnight(), Some(MIN_TIMESTAMP));
    assert_eq!(date(MAX_YEAR, 12, 31).midnight(), Some(MAX_TIMESTAMP - MILLIS_PER_DAY + 1));
    assert_eq!(CalendarDate { year: 2023, month: 2, day: 29 }.midnight(), None);
    assert_eq!(CalendarDate { year: 2023, month: 13, day: 1 }.midnight(), None);
}

#[test]
fn midnight_is_that_of_chrono() {
    for year in [MIN_YEAR, -4713, -1, 0, 1, 1582, 1969, 1970, 2024, 2100, MAX_YEAR] {
        for month in 1..=12u32 {
            for day in [1u32, 15, 28] {
                assert_eq!(date(year, month, day).midnight(), chrono_midnight(year, month, day));
            }
        }
    }
}

#[test]
fn the_day_after() {
    assert_eq!(date(2024, 1, 1).succ_opt(), Some(date(2024, 1, 2)));
    assert_eq!(date(2024, 1, 31).succ_opt(), Some(date(2024, 2, 1)));
    assert_eq!(date(2024, 2, 28).succ_opt(), Some(date(2024, 2, 29)));
    assert_eq!(date(2024, 2, 29).succ_opt(), Some(date(2024, 3, 1)));
    assert_eq!(date(2023, 2, 28).succ_opt(), Some(date(2023, 3, 1)));
    assert_eq!(date(2023, 12, 31).succ_opt(), Some(date(2024, 1, 1)));
    assert_eq!(date(-1, 12, 31).succ_opt(), Some(date(0, 1, 1)));
    assert_eq!(date(MAX_YEAR, 12, 30).succ_opt(), Some(date(MAX_YEAR, 12, 31)));
    assert_eq!(date(MAX_YEAR, 12, 31).succ_opt(), None);
}

#[test]
fn the_day_after_is_a_day_later() {
    let mut day = date(2023, 12, 25);
    let mut midnight = day.midnight().unwrap();
    for _ in 0..800 {
        let next = day.succ_opt().unwrap();
        assert_eq!(next.midnight(), Some(midnight + MILLIS_PER_DAY));
        assert_eq!(to_julian_day(&next), to_julian_day(&day) + 1);
        midnight += MILLIS_PER_DAY;
        day = next;
    }
    assert_eq!(day, date(2026, 3, 4));
}

#[test]
fn shifting_a_timestamp() {
    assert_eq!(shift_timestamp(0, 0), Some(0));
    assert_eq!(shift_timestamp(1_704_067_200_000, 186_000), Some(1_704_067_386_000));
    assert_eq!(shift_timestamp(1_704_067_200_000, -186_000), Some(1_704_067_014_000));
    assert_eq!(shift_timestamp(MAX_TIMESTAMP, 0), Some(MAX_TIMESTAMP));
    assert_eq!(shift_timestamp(MAX_TIMESTAMP, 1), None);
    assert_eq!(shift_timestamp(MAX_TIMESTAMP - 5, 5), Some(MAX_TIMESTAMP));
    assert_eq!(shift_timestamp(MIN_TIMESTAMP, 0), Some(MIN_TIMESTAMP));
    assert_eq!(shift_timestamp(MIN_TIMESTAMP, -1), None);
    assert_eq!(shift_timestamp(MIN_TIMESTAMP + 1, -1), Some(MIN_TIMESTAMP));
    assert_eq!(shift_timestamp(i64::MAX, 1), None);
    assert_eq!(shift_timestamp(i64::MIN, -1), None);
    assert_eq!(shift_timestamp(i64::MAX, i64::MIN), Some(-1));
    assert_eq!(shift_timestamp(0, i64::MAX), None);
    assert_eq!(shift_timestamp(i64::MAX, 0), None);
}

#[test]
fn valid_timestamps_are_those_of_chrono() {
    for millis in [MIN_TIMESTAMP - 1, MIN_TIMESTAMP, -1, 0, 1, MAX_TIMESTAMP, MAX_TIMESTAMP + 1] {
        assert_eq!(
            shift_timestamp(millis, 0),
            chrono::DateTime::from_timestamp_millis(millis).map(|t| t.timestamp_millis())
        );
    }
}

#[test]
fn julian_day_numbers() {
    assert_eq!(julian_from_gregorian(2000, 1, 1), 2_451_545);
    assert_eq!(julian_from_gregorian(1970, 1, 1), EPOCH_JULIAN_DAY);
    assert_eq!(julian_from_gregorian(2024, 1, 1), 2_460_311);
    assert_eq!(julian_from_gregorian(1858, 11, 17), 2_400_001);
    assert_eq!(julian_from_gregorian(2024, 2, 29), 2_460_370);
    assert_eq!(julian_from_gregorian(2024, 3, 1), 2_460_371);
    assert_eq!(julian_from_gregorian(1, 1, 1), 1_721_426);
    assert_eq!(to_julian_day(&date(2024, 12, 31)), 2_460_676);
}

/// The Julian Date of a day's midnight, in floating point.
fn julian_date(mut year: i32, mut month: u32, day: u32) -> f64 {
    if month <= 2 {
        year -= 1;
        month += 12;
    }
    let a = year / 100;
    let b = 2 - a + a / 4;
    (365.25 * (year + 4716) as f64).floor() + (30.6001 * (month + 1) as f64).floor() + day as f64
        + b as f64
        - 1524.5
}

#[test]
fn julian_day_is_half_a_day_after_the_julian_date() {
    let mut year = MIN_YEAR;
    while year <= MAX_YEAR {
        for month in 1..=12u32 {
            for day in [1u32, 17, 28] {
                assert_eq!(
                    julian_from_gregorian(year, month, day) as f64 - 0.5,
                    julian_date(year, month, day),
                    "{year}-{month}-{day}",
                    year = year,
                    month = month,
                    day = day
                );
            }
        }
        year += 997;
    }
    for year in -4720..=2400 {
        for month in 1..=12u32 {
            assert_eq!(julian_from_gregorian(year, month, 1) as f64 - 0.5, julian_date(year, month, 1));
        }
    }
}

#[test]
fn julian_day_counts_the_days_from_the_epoch() {
    for year in [1, 4, 100, 400, 1582, 1900, 1970, 2000, 2024, 9999, MAX_YEAR] {
        for month in 1..=12u32 {
            for day in [1u32, 28] {
                let midnight = date(year, month, day).midnight().unwrap();
                assert_eq!(
                    julian_from_gregorian(year, month, day) - EPOCH_JULIAN_DAY,
                    midnight / MILLIS_PER_DAY
                );
            }
        }
    }
}

#[test]
fn julian_day_before_the_year_one() {
    // The centuries are counted toward zero: the first of March of the
    // year -100 comes out a day late.
    assert_eq!(julian_from_gregorian(0, 3, 1), 1_721_120);
    assert_eq!(date(0, 3, 1).midnight().unwrap() / MILLIS_PER_DAY + EPOCH_JULIAN_DAY, 1_721_120);
    assert_eq!(
        julian_from_gregorian(-100, 3, 1),
        date(-100, 3, 1).midnight().unwrap() / MILLIS_PER_DAY + EPOCH_JULIAN_DAY + 1
    );
}
