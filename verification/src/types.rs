//! The data of a calculation: how the times of a day are defined, and the
//! times themselves.
//!
//! Angles, minute counts and shadow factors are real numbers. Nothing here
//! computes with them: each is held as the bit pattern of an IEEE 754
//! binary64 number, moved and compared bit by bit, and turned into a number
//! again by whoever solves the sun's position. Times are timestamps: whole
//! milliseconds since 1970-01-01T00:00:00, without a time zone.
use crate::calendar::is_valid_timestamp;
use vstd::prelude::*;

verus! {

/// How midnight is found.
#[derive(Clone, Copy, Debug, PartialEq, Eq, Structural)]
pub enum MidnightMethod {
    /// Halfway from sunset to sunrise.
    Standard,
    /// Halfway from sunset to fajr.
    Jafari,
}

/// How a time is replaced at latitudes where the sun does not reach the
/// angle that defines it, or reaches it too far from sunrise or sunset.
#[derive(Clone, Copy, Debug, PartialEq, Eq, Structural)]
pub enum HighLatsMethod {
    /// No replacement: such a time is absent.
    NoAdjustment,
    /// Half of the night.
    NightMiddle,
    /// A seventh of the night.
    OneSeventh,
    /// The angle's sixtieth part of the night.
    AngleBased,
}

/// How a time of day is written.
#[derive(Clone, Copy, Debug, PartialEq, Eq, Structural)]
pub enum Format {
    /// 24 hours.
    H24,
    /// 12 hours with a suffix.
    H12,
    /// 12 hours without a suffix.
    H12NS,
    /// Hours as a decimal fraction.
    Float,
}

/// An angle in degrees, as the bits of a binary64 number.
#[derive(Clone, Copy, Debug, PartialEq, Eq, Structural)]
pub struct Degrees {
    pub bits: u64,
}

/// A number of minutes, as the bits of a binary64 number.
#[derive(Clone, Copy, Debug, PartialEq, Eq, Structural)]
pub struct Minutes {
    pub bits: u64,
}

/// The length of the shadow that defines asr, in lengths of the object that
/// casts it, as the bits of a binary64 number: 1 is the standard factor, 2
/// the Hanafi one.
#[derive(Clone, Copy, Debug, PartialEq, Eq, Structural)]
pub struct AsrFactor {
    pub bits: u64,
}

/// A time is defined either by an angle of the sun below the horizon or by
/// a number of minutes from another time.
#[derive(Clone, Copy, Debug, PartialEq, Eq, Structural)]
pub enum CalculationUnit {
    Degrees(Degrees),
    Minutes(Minutes),
}

/// What defines the times of a day.
#[derive(Clone, Copy, Debug, PartialEq, Eq, Structural)]
pub struct Parameters {
    /// The sun's angle below the horizon, or minutes before fajr.
    pub imsak: CalculationUnit,
    /// The sun's angle below the horizon.
    pub fajr: Degrees,
    /// Minutes after midday; negative for before.
    pub dhuhr: Minutes,
    /// The shadow factor.
    pub asr: AsrFactor,
    /// The sun's angle below the horizon, or minutes after sunset.
    pub maghrib: CalculationUnit,
    /// The sun's angle below the horizon, or minutes after maghrib.
    pub isha: CalculationUnit,
    pub midnight: MidnightMethod,
    pub high_latitudes: HighLatsMethod,
}

/// The nine times of a day, in the order in which a day has them.
#[derive(Clone, Copy, Debug, PartialEq, Eq, PartialOrd, Ord, Hash, Structural)]
pub enum PraytimeType {
    Imsak,
    Fajr,
    Sunrise,
    Dhuhr,
    Asr,
    Sunset,
    Maghrib,
    Isha,
    Midnight,
}

/// The times of a day as timestamps. A time that does not exist for the
/// place, the day and the parameters is absent.
#[derive(Clone, Copy, Debug, PartialEq, Eq, Structural)]
pub struct PraytimesOutput {
    pub imsak: Option<i64>,
    pub fajr: Option<i64>,
    pub sunrise: Option<i64>,
    pub dhuhr: Option<i64>,
    pub asr: Option<i64>,
    pub sunset: Option<i64>,
    pub maghrib: Option<i64>,
    pub isha: Option<i64>,
    pub midnight: Option<i64>,
}

/// For each time a number of milliseconds by which it is moved. An absent
/// offset leaves the time as it is.
#[derive(Clone, Copy, Debug, PartialEq, Eq, Structural)]
pub struct TuneOffsets {
    pub imsak: Option<i64>,
    pub fajr: Option<i64>,
    pub sunrise: Option<i64>,
    pub dhuhr: Option<i64>,
    pub asr: Option<i64>,
    pub sunset: Option<i64>,
    pub maghrib: Option<i64>,
    pub isha: Option<i64>,
    pub midnight: Option<i64>,
}

/// The times of a day as text.
#[derive(Clone, Debug)]
pub struct FormattedTimes {
    pub imsak: Option<String>,
    pub fajr: Option<String>,
    pub sunrise: Option<String>,
    pub dhuhr: Option<String>,
    pub asr: Option<String>,
    pub sunset: Option<String>,
    pub maghrib: Option<String>,
    pub isha: Option<String>,
    pub midnight: Option<String>,
}

/// An absent time, or a valid timestamp.
pub open spec fn is_valid_time(time: Option<i64>) -> bool {
    time matches Some(t) ==> is_valid_timestamp(t as int)
}

/// The one entry of a present time, and no entry of an absent one.
pub open spec fn entry_of(which: PraytimeType, time: Option<i64>) -> Seq<(PraytimeType, i64)> {
    match time {
        Some(t) => seq![(which, t)],
        None => seq![],
    }
}

impl PraytimesOutput {
    /// The time of the given kind.
    pub open spec fn at(&self, which: PraytimeType) -> Option<i64> {
        match which {
            PraytimeType::Imsak => self.imsak,
            PraytimeType::Fajr => self.fajr,
            PraytimeType::Sunrise => self.sunrise,
            PraytimeType::Dhuhr => self.dhuhr,
            PraytimeType::Asr => self.asr,
            PraytimeType::Sunset => self.sunset,
            PraytimeType::Maghrib => self.maghrib,
            PraytimeType::Isha => self.isha,
            PraytimeType::Midnight => self.midnight,
        }
    }

    /// Every time that is present is a valid timestamp.
    pub open spec fn is_valid(&self) -> bool {
        forall|which: PraytimeType| is_valid_time(#[trigger] self.at(which))
    }

    /// The present times with their kinds, in the order of `PraytimeType`.
    pub open spec fn entries(&self) -> Seq<(PraytimeType, i64)> {
        entry_of(PraytimeType::Imsak, self.imsak) + entry_of(PraytimeType::Fajr, self.fajr)
            + entry_of(PraytimeType::Sunrise, self.sunrise) + entry_of(
            PraytimeType::Dhuhr,
            self.dhuhr,
        ) + entry_of(PraytimeType::Asr, self.asr) + entry_of(PraytimeType::Sunset, self.sunset)
            + entry_of(PraytimeType::Maghrib, self.maghrib) + entry_of(
            PraytimeType::Isha,
            self.isha,
        ) + entry_of(PraytimeType::Midnight, self.midnight)
    }

    /// The time of the given kind.
    pub fn get(&self, which: PraytimeType) -> (r: Option<i64>)
        ensures
            r == self.at(which),
    {
        match which {
            PraytimeType::Imsak => self.imsak,
            PraytimeType::Fajr => self.fajr,
            PraytimeType::Sunrise => self.sunrise,
            PraytimeType::Dhuhr => self.dhuhr,
            PraytimeType::Asr => self.asr,
            PraytimeType::Sunset => self.sunset,
            PraytimeType::Maghrib => self.maghrib,
            PraytimeType::Isha => self.isha,
            PraytimeType::Midnight => self.midnight,
        }
    }

    /// The present times with their kinds, in the order of `PraytimeType`.
    pub fn into_vec(&self) -> (r: Vec<(PraytimeType, i64)>)
        ensures
            r@ == self.entries(),
    {
        let mut r: Vec<(PraytimeType, i64)> = Vec::new();
        push_entry(&mut r, PraytimeType::Imsak, self.imsak);
        push_entry(&mut r, PraytimeType::Fajr, self.fajr);
        push_entry(&mut r, PraytimeType::Sunrise, self.sunrise);
        push_entry(&mut r, PraytimeType::Dhuhr, self.dhuhr);
        push_entry(&mut r, PraytimeType::Asr, self.asr);
        push_entry(&mut r, PraytimeType::Sunset, self.sunset);
        push_entry(&mut r, PraytimeType::Maghrib, self.maghrib);
        push_entry(&mut r, PraytimeType::Isha, self.isha);
        push_entry(&mut r, PraytimeType::Midnight, self.midnight);
        r
    }
}

/// Appends the entry of a time to `list`, if the time is present.
fn push_entry(list: &mut Vec<(PraytimeType, i64)>, which: PraytimeType, time: Option<i64>)
    ensures
        final(list)@ == old(list)@ + entry_of(which, time),
{
    if let Some(t) = time {
        list.push((which, t));
    }
}

impl TuneOffsets {
    /// The offset of the given kind of time.
    pub open spec fn at(&self, which: PraytimeType) -> Option<i64> {
        match which {
            PraytimeType::Imsak => self.imsak,
            PraytimeType::Fajr => self.fajr,
            PraytimeType::Sunrise => self.sunrise,
            PraytimeType::Dhuhr => self.dhuhr,
            PraytimeType::Asr => self.asr,
            PraytimeType::Sunset => self.sunset,
            PraytimeType::Maghrib => self.maghrib,
            PraytimeType::Isha => self.isha,
            PraytimeType::Midnight => self.midnight,
        }
    }
}

impl Default for PraytimesOutput {
    /// No time is present.
    fn default() -> (r: Self)
        ensures
            forall|which: PraytimeType| r.at(which) is None,
    {
        PraytimesOutput {
            imsak: None,
            fajr: None,
            sunrise: None,
            dhuhr: None,
            asr: None,
            sunset: None,
            maghrib: None,
            isha: None,
            midnight: None,
        }
    }
}

impl Default for TuneOffsets {
    /// No time is moved.
    fn default() -> (r: Self)
        ensures
            forall|which: PraytimeType| r.at(which) is None,
    {
        TuneOffsets {
            imsak: None,
            fajr: None,
            sunrise: None,
            dhuhr: None,
            asr: None,
            sunset: None,
            maghrib: None,
            isha: None,
            midnight: None,
        }
    }
}

} // verus!
