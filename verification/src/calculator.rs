//! From the solved hours of a day to its times, and the tuning of them.
//!
//! Where the sun stands is solved with real numbers, outside this library.
//! What comes back for a day is, for each of the nine times, its distance
//! from the day's midnight, or nothing where no such time exists. The
//! calculator turns these into timestamps and moves each by its tuning
//! offset.
use crate::calendar::{is_valid_timestamp, shift_timestamp, shifted, CalendarDate};
use crate::types::{is_valid_time, Parameters, PraytimeType, PraytimesOutput, TuneOffsets};
use vstd::prelude::*;

verus! {

/// For each time of a day its distance from the day's midnight in
/// milliseconds, negative for a time before it. A time that the solver
/// found undefined is absent.
#[derive(Clone, Copy, Debug, PartialEq, Eq, Structural)]
pub struct SolvedHours {
    pub imsak: Option<i64>,
    pub fajr: Option<i64>,
    pub sunrise: Option<i64>,
    pub dhuhr: Option<i64>,
    pub asr: Option<i64>,
    pub sunset: Option<i64>,
    pub maghrib: Option<i64>,
    pub isha: Option<i64>,
    pub midnight: Option<i64>,
}

/// The parameters and the tuning offsets of a calculation.
#[derive(Clone, Copy, Debug)]
pub struct Calculator {
    params: Parameters,
    tuning_offsets: TuneOffsets,
}

/// The timestamp of a time that lies `hours` milliseconds from `midnight`.
/// An undefined time stays absent, and so does one outside the valid range
/// of timestamps.
pub open spec fn datetime_from_hours_spec(midnight: int, hours: Option<i64>) -> Option<i64> {
    match hours {
        Some(h) => shifted(midnight, h as int),
        None => None,
    }
}

/// A present time moved by a present offset; any other time unchanged. A
/// time that the offset moves out of the valid range of timestamps is
/// absent.
pub open spec fn tune_time_spec(time: Option<i64>, offset: Option<i64>) -> Option<i64> {
    match (time, offset) {
        (Some(t), Some(o)) => shifted(t as int, o as int),
        _ => time,
    }
}

/// The times of the day that begins at `midnight`.
pub open spec fn assembled(midnight: int, hours: SolvedHours) -> PraytimesOutput {
    PraytimesOutput {
        imsak: datetime_from_hours_spec(midnight, hours.imsak),
        fajr: datetime_from_hours_spec(midnight, hours.fajr),
        sunrise: datetime_from_hours_spec(midnight, hours.sunrise),
        dhuhr: datetime_from_hours_spec(midnight, hours.dhuhr),
        asr: datetime_from_hours_spec(midnight, hours.asr),
        sunset: datetime_from_hours_spec(midnight, hours.sunset),
        maghrib: datetime_from_hours_spec(midnight, hours.maghrib),
        isha: datetime_from_hours_spec(midnight, hours.isha),
        midnight: datetime_from_hours_spec(midnight, hours.midnight),
    }
}

/// Each time moved by its own offset.
pub open spec fn tuned(times: PraytimesOutput, offsets: TuneOffsets) -> PraytimesOutput {
    PraytimesOutput {
        imsak: tune_time_spec(times.imsak, offsets.imsak),
        fajr: tune_time_spec(times.fajr, offsets.fajr),
        sunrise: tune_time_spec(times.sunrise, offsets.sunrise),
        dhuhr: tune_time_spec(times.dhuhr, offsets.dhuhr),
        asr: tune_time_spec(times.asr, offsets.asr),
        sunset: tune_time_spec(times.sunset, offsets.sunset),
        maghrib: tune_time_spec(times.maghrib, offsets.maghrib),
        isha: tune_time_spec(times.isha, offsets.isha),
        midnight: tune_time_spec(times.midnight, offsets.midnight),
    }
}

/// The minute of the hour of a timestamp, from 0 to 59.
pub open spec fn minute_of_hour(time: int) -> int {
    (time / 60_000) % 60
}

/// The second of the minute of a timestamp, from 0 to 59.
pub open spec fn second_of_minute(time: int) -> int {
    (time / 1000) % 60
}

/// The timestamp of a time that lies `hours` milliseconds from `midnight`.
pub fn datetime_from_hours(midnight: i64, hours: Option<i64>) -> (r: Option<i64>)
    ensures
        r == datetime_from_hours_spec(midnight as int, hours),
        is_valid_time(r),
{
    match hours {
        Some(h) => shift_timestamp(midnight, h),
        None => None,
    }
}

impl SolvedHours {
    /// The distance from midnight of the given kind of time.
    pub open spec fn at(&self, which: PraytimeType) -> Option<i64> {
        match which {
            PraytimeType::Imsak => self.imsak,
            PraytimeType::Fajr => self.fajr,
            PraytimeType::Sunrise => self.sunrise,
            PraytimeType::Dhuhr => self.dhuhr,
            PraytimeType::Asr => self.asr,
            PraytimeType::Sunset => self.sunset,
            PraytimeType::Maghrib => self.maghrib,
            PraytimeType::Isha => self.isha,
            PraytimeType::Midnight => self.midnight,
        }
    }
}

impl Calculator {
    /// The parameters of this calculator.
    pub closed spec fn parameters(&self) -> Parameters {
        self.params
    }

    /// The tuning offsets of this calculator.
    pub closed spec fn tuning(&self) -> TuneOffsets {
        self.tuning_offsets
    }

    /// What `calculate` returns for a day and its solved hours.
    pub open spec fn calculated(&self, date: CalendarDate, hours: SolvedHours) -> PraytimesOutput {
        tuned(assembled(date.midnight_spec(), hours), self.tuning())
    }

    /// A calculator for the given parameters and tuning offsets.
    pub fn new(params: Parameters, tuning_offsets: TuneOffsets) -> (r: Self)
        ensures
            r.parameters() == params,
            r.tuning() == tuning_offsets,
    {
        Calculator { params, tuning_offsets }
    }

    /// The parameters that the solver of the sun's position reads.
    pub fn params(&self) -> (r: Parameters)
        ensures
            r == self.parameters(),
    {
        self.params
    }

    /// The tuning offsets.
    pub fn tuning_offsets(&self) -> (r: TuneOffsets)
        ensures
            r == self.tuning(),
    {
        self.tuning_offsets
    }

    /// The times of `date`: each solved hour counted from the date's
    /// midnight, then moved by its tuning offset.
    pub fn calculate(&self, date: &CalendarDate, hours: &SolvedHours) -> (r: PraytimesOutput)
        requires
            date.is_valid(),
        ensures
            r == self.calculated(*date, *hours),
            r.is_valid(),
    {
        let midnight: i64 = date.midnight().unwrap();
        let times = PraytimesOutput {
            imsak: datetime_from_hours(midnight, hours.imsak),
            fajr: datetime_from_hours(midnight, hours.fajr),
            sunrise: datetime_from_hours(midnight, hours.sunrise),
            dhuhr: datetime_from_hours(midnight, hours.dhuhr),
            asr: datetime_from_hours(midnight, hours.asr),
            sunset: datetime_from_hours(midnight, hours.sunset),
            maghrib: datetime_from_hours(midnight, hours.maghrib),
            isha: datetime_from_hours(midnight, hours.isha),
            midnight: datetime_from_hours(midnight, hours.midnight),
        };
        self.tune(times)
    }

    /// Each time moved by its tuning offset.
    pub fn tune(&self, times: PraytimesOutput) -> (r: PraytimesOutput)
        ensures
            r == tuned(times, self.tuning()),
            times.is_valid() ==> r.is_valid(),
    {
        let r = PraytimesOutput {
            imsak: Self::tune_time(times.imsak, self.tuning_offsets.imsak),
            fajr: Self::tune_time(times.fajr, self.tuning_offsets.fajr),
            dhuhr: Self::tune_time(times.dhuhr, self.tuning_offsets.dhuhr),
            asr: Self::tune_time(times.asr, self.tuning_offsets.asr),
            sunset: Self::tune_time(times.sunset, self.tuning_offsets.sunset),
            maghrib: Self::tune_time(times.maghrib, self.tuning_offsets.maghrib),
            isha: Self::tune_time(times.isha, self.tuning_offsets.isha),
            midnight: Self::tune_time(times.midnight, self.tuning_offsets.midnight),
            sunrise: Self::tune_time(times.sunrise, self.tuning_offsets.sunrise),
        };
        proof {
            if times.is_valid() {
                assert forall|which: PraytimeType| is_valid_time(#[trigger] r.at(which)) by {
                    assert(is_valid_time(times.at(which)));
                }
            }
        }
        r
    }

    /// A present time moved by a present offset; any other time unchanged.
    pub fn tune_time(time: Option<i64>, offset: Option<i64>) -> (r: Option<i64>)
        ensures
            r == tune_time_spec(time, offset),
            is_valid_time(time) ==> is_valid_time(r),
    {
        match (time, offset) {
            (Some(t), Some(o)) => shift_timestamp(t, o),
            _ => time,
        }
    }
}

/// Without offsets, tuning changes nothing.
pub proof fn lemma_tune_without_offsets(times: PraytimesOutput, offsets: TuneOffsets)
    requires
        forall|which: PraytimeType| offsets.at(which) is None,
    ensures
        tuned(times, offsets) == times,
{
    assert(offsets.at(PraytimeType::Imsak) is None);
    assert(offsets.at(PraytimeType::Fajr) is None);
    assert(offsets.at(PraytimeType::Sunrise) is None);
    assert(offsets.at(PraytimeType::Dhuhr) is None);
    assert(offsets.at(PraytimeType::Asr) is None);
    assert(offsets.at(PraytimeType::Sunset) is None);
    assert(offsets.at(PraytimeType::Maghrib) is None);
    assert(offsets.at(PraytimeType::Isha) is None);
    assert(offsets.at(PraytimeType::Midnight) is None);
}

/// Offsets that are absent or zero change no valid time.
pub proof fn lemma_tune_by_zero(times: PraytimesOutput, offsets: TuneOffsets)
    requires
        times.is_valid(),
        forall|which: PraytimeType|
            offsets.at(which) is None || #[trigger] offsets.at(which) == Some(0i64),
    ensures
        tuned(times, offsets) == times,
{
    assert forall|which: PraytimeType|
        tune_time_spec(times.at(which), offsets.at(which)) == #[trigger] times.at(which) by {
        assert(is_valid_time(times.at(which)));
        assert(offsets.at(which) is None || offsets.at(which) == Some(0i64));
    }
    assert(tune_time_spec(times.at(PraytimeType::Imsak), offsets.at(PraytimeType::Imsak))
        == times.at(PraytimeType::Imsak));
    assert(tune_time_spec(times.at(PraytimeType::Fajr), offsets.at(PraytimeType::Fajr))
        == times.at(PraytimeType::Fajr));
    assert(tune_time_spec(times.at(PraytimeType::Sunrise), offsets.at(PraytimeType::Sunrise))
        == times.at(PraytimeType::Sunrise));
    assert(tune_time_spec(times.at(PraytimeType::Dhuhr), offsets.at(PraytimeType::Dhuhr))
        == times.at(PraytimeType::Dhuhr));
    assert(tune_time_spec(times.at(PraytimeType::Asr), offsets.at(PraytimeType::Asr))
        == times.at(PraytimeType::Asr));
    assert(tune_time_spec(times.at(PraytimeType::Sunset), offsets.at(PraytimeType::Sunset))
        == times.at(PraytimeType::Sunset));
    assert(tune_time_spec(times.at(PraytimeType::Maghrib), offsets.at(PraytimeType::Maghrib))
        == times.at(PraytimeType::Maghrib));
    assert(tune_time_spec(times.at(PraytimeType::Isha), offsets.at(PraytimeType::Isha))
        == times.at(PraytimeType::Isha));
    assert(tune_time_spec(times.at(PraytimeType::Midnight), offsets.at(PraytimeType::Midnight))
        == times.at(PraytimeType::Midnight));
}

/// Tuning goes time by time: each time of the result is the time that went
/// in, moved by its own offset. So an absent time stays absent whatever its
/// offset, and a time without an offset stays as it is.
pub proof fn lemma_tune_time_by_time(
    times: PraytimesOutput,
    offsets: TuneOffsets,
    which: PraytimeType,
)
    ensures
        tuned(times, offsets).at(which) == tune_time_spec(times.at(which), offsets.at(which)),
        times.at(which) is None ==> tuned(times, offsets).at(which) is None,
        offsets.at(which) is None ==> tuned(times, offsets).at(which) == times.at(which),
{
}

/// A calculator whose offsets are all absent or zero gives the times as
/// they are assembled from the solved hours, untuned.
pub proof fn lemma_calculate_untuned(calculator: Calculator, date: CalendarDate, hours: SolvedHours)
    requires
        forall|which: PraytimeType|
            calculator.tuning().at(which) is None || #[trigger] calculator.tuning().at(which)
                == Some(0i64),
    ensures
        calculator.calculated(date, hours) == assembled(date.midnight_spec(), hours),
{
    let times = assembled(date.midnight_spec(), hours);
    assert forall|which: PraytimeType| is_valid_time(#[trigger] times.at(which)) by {}
    lemma_tune_by_zero(times, calculator.tuning());
}

/// An offset of `minutes` whole minutes moves the minute of the hour by
/// `minutes`, counted modulo 60, and leaves the second and the millisecond
/// as they were.
pub proof fn lemma_tune_by_whole_minutes(time: i64, offset: i64, minutes: int)
    requires
        offset == minutes * 60_000,
        tune_time_spec(Some(time), Some(offset)) is Some,
    ensures
        ({
            let moved = tune_time_spec(Some(time), Some(offset))->0 as int;
            &&& moved == time + offset
            &&& minute_of_hour(moved) == (minute_of_hour(time as int) + minutes) % 60
            &&& second_of_minute(moved) == second_of_minute(time as int)
            &&& moved % 1000 == time % 1000
        }),
{
    let t = time as int;
    let moved = t + offset;
    assert(is_valid_timestamp(moved));
    assert(moved / 60_000 == t / 60_000 + minutes);
    assert(moved % 60_000 == t % 60_000);
    assert(moved / 1000 == t / 1000 + minutes * 60);
    lemma_add_multiple_of_sixty(t / 1000, minutes);
    lemma_sum_modulo_sixty(t / 60_000, minutes);
}

/// An offset of any length moves the minute of the hour by the whole
/// minutes that the offset and the time's own part of a minute make
/// together, and the second of the minute by their whole seconds: what
/// the seconds pass over is carried into the minute.
pub proof fn lemma_tune_carries(time: i64, offset: i64)
    requires
        tune_time_spec(Some(time), Some(offset)) is Some,
    ensures
        ({
            let moved = tune_time_spec(Some(time), Some(offset))->0 as int;
            &&& moved == time + offset
            &&& minute_of_hour(moved) == (minute_of_hour(time as int) + (time % 60_000 + offset)
                / 60_000) % 60
            &&& second_of_minute(moved) == (second_of_minute(time as int) + (time % 1000 + offset)
                / 1000) % 60
        }),
{
    let t = time as int;
    let o = offset as int;
    let moved = t + o;
    assert(is_valid_timestamp(moved));
    assert(moved / 60_000 == t / 60_000 + (t % 60_000 + o) / 60_000);
    assert(moved / 1000 == t / 1000 + (t % 1000 + o) / 1000);
    lemma_sum_modulo_sixty(t / 60_000, (t % 60_000 + o) / 60_000);
    lemma_sum_modulo_sixty(t / 1000, (t % 1000 + o) / 1000);
}

/// Where nothing is carried, an offset moves the minute by its whole
/// minutes and the second by its whole seconds beyond them: an offset of
/// three minutes and six seconds moves the minute by three and the second
/// by six, as long as the second does not pass sixty.
pub proof fn lemma_tune_without_carry(time: i64, offset: i64)
    requires
        tune_time_spec(Some(time), Some(offset)) is Some,
        offset >= 0,
        time % 1000 + offset % 1000 < 1000,
        second_of_minute(time as int) + (offset / 1000) % 60 < 60,
    ensures
        ({
            let moved = tune_time_spec(Some(time), Some(offset))->0 as int;
            &&& minute_of_hour(moved) == (minute_of_hour(time as int) + offset / 60_000) % 60
            &&& second_of_minute(moved) == second_of_minute(time as int) + (offset / 1000) % 60
            &&& moved % 1000 == time % 1000 + offset % 1000
        }),
{
    let t = time as int;
    let o = offset as int;
    let moved = t + o;
    assert(is_valid_timestamp(moved));
    assert(moved / 1000 == t / 1000 + o / 1000);
    assert(moved % 1000 == t % 1000 + o % 1000);
    let seconds = t / 1000;
    let added = o / 1000;
    assert(o / 60_000 == added / 60);
    assert(t / 60_000 == seconds / 60);
    assert(moved / 60_000 == (seconds + added) / 60);
    assert((seconds + added) / 60 == seconds / 60 + added / 60);
    assert((seconds + added) % 60 == seconds % 60 + added % 60);
    lemma_sum_modulo_sixty(seconds / 60, added / 60);
}

/// Two calculators with the same parameters and offsets give the same
/// times for the same day and the same solved hours.
pub proof fn lemma_calculate_is_a_function(
    first: Calculator,
    second: Calculator,
    date: CalendarDate,
    hours: SolvedHours,
)
    requires
        first.parameters() == second.parameters(),
        first.tuning() == second.tuning(),
    ensures
        first.calculated(date, hours) == second.calculated(date, hours),
{
}

/// Adding a multiple of 60 does not change a remainder modulo 60.
proof fn lemma_add_multiple_of_sixty(a: int, k: int)
    ensures
        (a + k * 60) % 60 == a % 60,
{
    vstd::arithmetic::div_mod::lemma_mod_multiples_vanish(k, a, 60);
}

/// The remainder of a sum modulo 60 is that of the first term's remainder
/// and the second term.
proof fn lemma_sum_modulo_sixty(a: int, b: int)
    ensures
        (a + b) % 60 == (a % 60 + b) % 60,
{
    vstd::arithmetic::div_mod::lemma_add_mod_noop(a, b, 60);
    vstd::arithmetic::div_mod::lemma_add_mod_noop(a % 60, b, 60);
    vstd::arithmetic::div_mod::lemma_mod_twice(a, 60);
}

} // verus!
