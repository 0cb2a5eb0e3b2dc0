//! The library together with a solver of the sun's position: the hours of a
//! day are solved here with floating point, and turned into times by the
//! library.
use chrono::{NaiveDate, NaiveDateTime, Timelike};
use praytimes::calculator::{Calculator, SolvedHours};
use praytimes::calendar::CalendarDate;
use praytimes::julian::to_julian_day;
use praytimes::methods::{get_method_by_name, muslim_world_league};
use praytimes::highlats::high_lat_adjustment_needed;
use praytimes::types::{
    AsrFactor, CalculationUnit, HighLatsMethod, MidnightMethod, Parameters, PraytimesOutput,
    TuneOffsets,
};

struct Place {
    latitude: f64,
    longitude: f64,
    elevation: f64,
}

struct Solver<'a> {
    params: &'a Parameters,
    place: &'a Place,
    julian_date: f64,
}

fn sin(degrees: f64) -> f64 {
    degrees.to_radians().sin()
}

fn cos(degrees: f64) -> f64 {
    degrees.to_radians().cos()
}

fn tan(degrees: f64) -> f64 {
    degrees.to_radians().tan()
}

fn fix(num: f64, base: f64) -> f64 {
    let num = num % base;
    if num < 0.0 {
        num + base
    } else {
        num
    }
}

fn fix_hour(hours: f64) -> f64 {
    fix(hours, 24.0)
}

fn fix_angle(angle: f64) -> f64 {
    fix(angle, 360.0)
}

/// Declination in degrees and equation of time in hours.
fn sun_position(jd: f64) -> (f64, f64) {
    let d = jd - 2451545.0;
    let g = fix_angle(357.529 + 0.98560028 * d);
    let q = fix_angle(280.459 + 0.98564736 * d);
    let l = fix_angle(q + 1.915 * sin(g) + 0.020 * sin(g * 2.0));
    let e = 23.439 - 0.00000036 * d;
    let ra = (cos(e) * sin(l)).atan2(cos(l)).to_degrees() / 15.0;
    let eqt = q / 15.0 - fix_hour(ra);
    let decl = (sin(e) * sin(l)).asin().to_degrees();
    (decl, eqt)
}

impl<'a> Solver<'a> {
    fn new(params: &'a Parameters, place: &'a Place, date: &CalendarDate) -> Self {
        let julian = to_julian_day(date) as f64 - 0.5;
        Solver { params, place, julian_date: julian - place.longitude / (15.0 * 24.0) }
    }

    fn mid_day(&self, time: f64) -> f64 {
        let (_, eqt) = sun_position(self.julian_date + time);
        fix_hour(12.0 - eqt) - self.place.longitude / 15.0
    }

    fn sat(&self, time: f64, angle: f64) -> f64 {
        let (decl, _) = sun_position(self.julian_date + time);
        (1.0 / 15.0)
            * ((-sin(angle) - sin(decl) * sin(self.place.latitude))
                / (cos(decl) * cos(self.place.latitude)))
            .acos()
            .to_degrees()
    }

    fn rise_set_angle(&self) -> f64 {
        0.833 + 0.0347 * self.place.elevation.sqrt()
    }

    fn sunrise(&self) -> f64 {
        self.mid_day(6.0 / 24.0) - self.sat(6.0 / 24.0, self.rise_set_angle())
    }

    fn sunset(&self) -> f64 {
        self.mid_day(18.0 / 24.0) + self.sat(18.0 / 24.0, self.rise_set_angle())
    }

    fn dhuhr(&self) -> f64 {
        self.mid_day(12.0 / 24.0) + f64::from_bits(self.params.dhuhr.bits) / 60.0
    }

    fn asr(&self) -> f64 {
        let time = 13.0 / 24.0;
        let (decl, _) = sun_position(self.julian_date + time);
        let factor = f64::from_bits(self.params.asr.bits);
        let angle = -(1.0 / (factor + tan((self.place.latitude - decl).abs()))).atan().to_degrees();
        self.mid_day(time) + self.sat(time, angle)
    }

    fn night_time(&self) -> f64 {
        fix_hour(self.sunrise() - self.sunset())
    }

    fn night_portion(&self, angle: f64) -> f64 {
        let portion = match self.params.high_latitudes {
            HighLatsMethod::AngleBased => angle / 60.0,
            HighLatsMethod::OneSeventh => 1.0 / 7.0,
            HighLatsMethod::NoAdjustment => f64::NAN,
            HighLatsMethod::NightMiddle => 1.0 / 2.0,
        };
        portion * self.night_time()
    }

    fn adjustment_needed(&self, time: f64, base: f64, angle: f64) -> bool {
        let portion = self.night_portion(angle);
        let time_diff = (time - base).abs();
        high_lat_adjustment_needed(self.params.high_latitudes, time.is_nan(), time_diff > portion)
    }

    fn before_sunrise(&self, angle: f64) -> f64 {
        let time = self.mid_day(5.0 / 24.0) - self.sat(5.0 / 24.0, angle);
        let base = self.sunrise();
        if self.adjustment_needed(time, base, angle) {
            base - self.night_portion(angle)
        } else {
            time
        }
    }

    fn after_sunset(&self, angle: f64) -> f64 {
        let time = self.mid_day(18.0 / 24.0) + self.sat(18.0 / 24.0, angle);
        let base = self.sunset();
        if self.adjustment_needed(time, base, angle) {
            base + self.night_portion(angle)
        } else {
            time
        }
    }

    fn fajr(&self) -> f64 {
        self.before_sunrise(f64::from_bits(self.params.fajr.bits))
    }

    fn imsak(&self) -> f64 {
        match self.params.imsak {
            CalculationUnit::Degrees(d) => self.before_sunrise(f64::from_bits(d.bits)),
            CalculationUnit::Minutes(m) => self.fajr() - f64::from_bits(m.bits) / 60.0,
        }
    }

    fn maghrib(&self) -> f64 {
        match self.params.maghrib {
            CalculationUnit::Minutes(m) => self.sunset() + f64::from_bits(m.bits) / 60.0,
            CalculationUnit::Degrees(d) => self.after_sunset(f64::from_bits(d.bits)),
        }
    }

    fn isha(&self) -> f64 {
        match self.params.isha {
            CalculationUnit::Minutes(m) => self.maghrib() + f64::from_bits(m.bits) / 60.0,
            CalculationUnit::Degrees(d) => self.after_sunset(f64::from_bits(d.bits)),
        }
    }

    fn midnight(&self) -> f64 {
        let sunset = self.sunset();
        match self.params.midnight {
            MidnightMethod::Standard => sunset + fix_hour(self.sunrise() - sunset) / 2.0,
            MidnightMethod::Jafari => sunset + fix_hour(self.fajr() - sunset) / 2.0,
        }
    }

    fn solve(&self) -> SolvedHours {
        SolvedHours {
            imsak: millis(self.imsak()),
            fajr: millis(self.fajr()),
            sunrise: millis(self.sunrise()),
            dhuhr: millis(self.dhuhr()),
            asr: millis(self.asr()),
            sunset: millis(self.sunset()),
            maghrib: millis(self.maghrib()),
            isha: millis(self.isha()),
            midnight: millis(self.midnight()),
        }
    }
}

fn millis(hours: f64) -> Option<i64> {
    if hours.is_nan() {
        None
    } else {
        Some((hours * 3600.0 * 1000.0) as i64)
    }
}

fn tune_of(minutes: f64) -> Option<i64> {
    Some((minutes * 60.0 * 1000.0) as i64)
}

fn no_tuning() -> TuneOffsets {
    TuneOffsets::default()
}

fn times(
    params: &Parameters,
    tuning: TuneOffsets,
    place: &Place,
    year: i32,
    month: u32,
    day: u32,
) -> PraytimesOutput {
    let date = CalendarDate::from_ymd_opt(year, month, day).unwrap();
    let hours = Solver::new(params, place, &date).solve();
    Calculator::new(*params, tuning).calculate(&date, &hours)
}

fn makkah() -> Place {
    Place { latitude: 21.4225, longitude: 39.8262, elevation: 0.0 }
}

fn at(year: i32, month: u32, day: u32, hour: u32, minute: u32, second: u32) -> i64 {
    NaiveDate::from_ymd_opt(year, month, day)
        .unwrap()
        .and_hms_opt(hour, minute, second)
        .unwrap()
        .and_utc()
        .timestamp_millis()
}

fn datetime(millis: i64) -> NaiveDateTime {
    chrono::DateTime::from_timestamp_millis(millis).unwrap().naive_utc()
}

fn assert_prayertime(name: &str, real: Option<i64>, expected: Option<i64>) {
    let res = match (&real, &expected) {
        (None, None) => true,
        (Some(real), Some(expected)) => (real - expected).abs() < 5000,
        _ => false,
    };
    assert!(res, "invalid {name}: {real:?}, expected {expected:?}", name = name, real = real, expected = expected);
}

fn expected_makkah() -> PraytimesOutput {
    PraytimesOutput {
        imsak: Some(at(2024, 1, 1, 2, 29, 8)),
        fajr: Some(at(2024, 1, 1, 2, 39, 8)),
        sunrise: Some(at(2024, 1, 1, 3, 58, 21)),
        dhuhr: Some(at(2024, 1, 1, 9, 23, 58)),
        asr: Some(at(2024, 1, 1, 12, 28, 36)),
        sunset: Some(at(2024, 1, 1, 14, 49, 40)),
        maghrib: Some(at(2024, 1, 1, 14, 49, 40)),
        isha: Some(at(2024, 1, 1, 16, 4, 19)),
        midnight: Some(at(2024, 1, 1, 21, 24, 1)),
    }
}

#[test]
fn match_should_match_with_the_main() {
    let params = get_method_by_name("MWL").unwrap();
    let expected_output = expected_makkah();
    let output = times(&params, no_tuning(), &makkah(), 2024, 1, 1);
    assert_prayertime("sunrise", output.sunrise, expected_output.sunrise);
    assert_prayertime("dhuhr", output.dhuhr, expected_output.dhuhr);
    assert_prayertime("sunset", output.sunset, expected_output.sunset);
    assert_prayertime("fajr", output.fajr, expected_output.fajr);
    assert_prayertime("imsak", output.imsak, expected_output.imsak);
    assert_prayertime("maghrib", output.maghrib, expected_output.maghrib);
    assert_prayertime("isha", output.isha, expected_output.isha);
    assert_prayertime("midnight", output.midnight, expected_output.midnight);
    assert_prayertime("asr", output.asr, expected_output.asr);
}

#[test]
fn should_tune_successfully() {
    let params = muslim_world_league();
    let untuned = times(&params, no_tuning(), &makkah(), 2024, 1, 2);
    assert_eq!(untuned.dhuhr, Some(1704187466628));
    let output = times(
        &params,
        TuneOffsets { dhuhr: tune_of(3.1), ..TuneOffsets::default() },
        &makkah(),
        2024,
        1,
        2,
    );

    assert_eq!(
        datetime(output.dhuhr.unwrap()).minute() - 3,
        datetime(untuned.dhuhr.unwrap()).minute()
    );

    assert_eq!(
        datetime(output.dhuhr.unwrap()).second() - 6,
        datetime(untuned.dhuhr.unwrap()).second()
    )
}

#[test]
fn makkah_times_to_the_millisecond() {
    let output = times(&muslim_world_league(), no_tuning(), &makkah(), 2024, 1, 1);
    assert_eq!(output.fajr, Some(1704076747952));
    assert_eq!(output.imsak, Some(1704076147952));
    assert_eq!(output.sunrise, Some(1704081500816));
    assert_eq!(output.dhuhr, Some(1704101038366));
    assert_eq!(output.asr, Some(1704112116296));
    assert_eq!(output.sunset, Some(1704120580314));
    assert_eq!(output.maghrib, Some(1704120580314));
    assert_eq!(output.isha, Some(1704125059062));
    assert_eq!(output.midnight, Some(1704144240565));
}

#[test]
fn tuning_leaves_the_other_times_alone() {
    let params = muslim_world_league();
    let untuned = times(&params, no_tuning(), &makkah(), 2024, 1, 1);
    let tuned = times(
        &params,
        TuneOffsets { dhuhr: tune_of(3.1), ..TuneOffsets::default() },
        &makkah(),
        2024,
        1,
        1,
    );
    assert_eq!(tuned.dhuhr, Some(untuned.dhuhr.unwrap() + 186_000));
    assert_eq!(PraytimesOutput { dhuhr: untuned.dhuhr, ..tuned }, untuned);
}

#[test]
fn zero_tuning_changes_nothing() {
    let params = muslim_world_league();
    let zero = TuneOffsets {
        imsak: tune_of(0.0),
        fajr: tune_of(0.0),
        sunrise: tune_of(0.0),
        dhuhr: tune_of(0.0),
        asr: tune_of(0.0),
        sunset: tune_of(0.0),
        maghrib: tune_of(0.0),
        isha: tune_of(0.0),
        midnight: tune_of(0.0),
    };
    assert_eq!(
        times(&params, zero, &makkah(), 2024, 1, 1),
        times(&params, no_tuning(), &makkah(), 2024, 1, 1)
    );
}

#[test]
fn same_inputs_give_the_same_times() {
    let params = get_method_by_name("Tehran").unwrap();
    let place = Place { latitude: 35.6892, longitude: 51.3890, elevation: 0.0 };
    let first = times(&params, no_tuning(), &place, 2024, 1, 1);
    let second = times(&params, no_tuning(), &place, 2024, 1, 1);
    assert_eq!(first, second);
    assert_eq!(first.maghrib, Some(1704117099760));
    assert_eq!(first.midnight, Some(1704138773887));
}

#[test]
fn sunrise_before_dhuhr_before_sunset() {
    let params = muslim_world_league();
    let latitudes = [-64.0, -45.0, -21.0, 0.0, 21.4225, 35.0, 52.5, 64.0];
    let days = [(2024, 1, 1), (2024, 3, 20), (2024, 6, 21), (2024, 9, 22), (2023, 12, 21)];
    for latitude in latitudes {
        for (year, month, day) in days {
            let place = Place { latitude, longitude: 10.0, elevation: 0.0 };
            let output = times(&params, no_tuning(), &place, year, month, day);
            let sunrise = output.sunrise.unwrap();
            let dhuhr = output.dhuhr.unwrap();
            let sunset = output.sunset.unwrap();
            assert!(sunrise < dhuhr, "{latitude} {year}-{month}-{day}", latitude = latitude, year = year, month = month, day = day);
            assert!(dhuhr < sunset, "{latitude} {year}-{month}-{day}", latitude = latitude, year = year, month = month, day = day);
        }
    }
}

#[test]
fn no_fajr_at_high_latitude_without_adjustment() {
    let place = Place { latitude: 80.0, longitude: 0.0, elevation: 0.0 };
    let params = Parameters {
        high_latitudes: HighLatsMethod::NoAdjustment,
        ..muslim_world_league()
    };
    let solstice = times(&params, no_tuning(), &place, 2024, 6, 21);
    assert_eq!(solstice.fajr, None);
    assert_eq!(solstice.sunrise, None);
    assert_eq!(solstice.dhuhr, Some(1718971315634));

    let spring = times(&params, no_tuning(), &place, 2024, 3, 25);
    assert_eq!(spring.fajr, None);
    assert_eq!(spring.imsak, None);
    assert_eq!(spring.isha, None);
    assert_eq!(spring.sunrise, Some(1711342797451));
    assert_eq!(spring.sunset, Some(1711394181273));
}

#[test]
fn fajr_at_high_latitude_from_the_middle_of_the_night() {
    let place = Place { latitude: 80.0, longitude: 0.0, elevation: 0.0 };
    let params = muslim_world_league();
    assert_eq!(params.high_latitudes, HighLatsMethod::NightMiddle);
    let date = CalendarDate::from_ymd_opt(2024, 3, 25).unwrap();
    let solver = Solver::new(&params, &place, &date);
    let night = fix_hour(solver.sunrise() - solver.sunset());
    assert_eq!(solver.fajr(), solver.sunrise() - night / 2.0);

    let output = times(&params, no_tuning(), &place, 2024, 3, 25);
    assert_eq!(output.fajr, Some(1711325289362));
    assert_eq!(output.sunrise, Some(1711342797451));
    assert_eq!(output.isha, output.midnight);

    let solstice = times(&params, no_tuning(), &place, 2024, 6, 21);
    assert_eq!(solstice.fajr, None);
}

#[test]
fn hanafi_asr_is_later() {
    let standard = muslim_world_league();
    let hanafi = Parameters { asr: AsrFactor { bits: 2.0f64.to_bits() }, ..standard };
    let first = times(&standard, no_tuning(), &makkah(), 2024, 1, 1);
    let second = times(&hanafi, no_tuning(), &makkah(), 2024, 1, 1);
    assert!(first.asr.unwrap() < second.asr.unwrap());
    assert_eq!(second.asr, Some(1704114828916));
    assert_eq!(PraytimesOutput { asr: first.asr, ..second }, first);
}

#[test]
fn midnight_between_maghrib_and_the_next_fajr() {
    let cases = [
        ("MWL", 21.4225, 39.8262),
        ("Tehran", 35.6892, 51.3890),
        ("Jafari", -33.9, 18.4),
        ("ISNA", 40.7, -74.0),
    ];
    for (name, latitude, longitude) in cases {
        let params = get_method_by_name(name).unwrap();
        let place = Place { latitude, longitude, elevation: 0.0 };
        let today = times(&params, no_tuning(), &place, 2024, 1, 1);
        let tomorrow = times(&params, no_tuning(), &place, 2024, 1, 2);
        assert!(today.maghrib.unwrap() < today.midnight.unwrap(), "{name}", name = name);
        assert!(today.midnight.unwrap() < tomorrow.fajr.unwrap(), "{name}", name = name);
    }
}

#[test]
fn angle_based_adjustment_in_oslo() {
    let params = Parameters { high_latitudes: HighLatsMethod::AngleBased, ..muslim_world_league() };
    let place = Place { latitude: 59.9139, longitude: 10.7522, elevation: 0.0 };
    let output = times(&params, no_tuning(), &place, 2024, 6, 21);
    assert_eq!(output.fajr, Some(1718929253628));
    assert_eq!(output.isha, Some(1719007904185));
}
