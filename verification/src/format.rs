//! Times as text, in Coordinated Universal Time or at a fixed distance
//! from it.
//!
//! The text of a time is made by chrono from a format in the notation of
//! `strftime`. What chrono writes is not restated here: it is named, and
//! the contracts say which call gives which text. A zone that depends on
//! the machine is resolved by the caller, who hands over the distance that
//! holds at the time in question.
use crate::calendar::is_valid_timestamp;
use crate::types::{FormattedTimes, PraytimeType, PraytimesOutput};
use vstd::prelude::*;

verus! {

/// The zone in which a time is written.
#[derive(Clone, Copy, Debug, PartialEq, Eq, Structural)]
pub enum Zone {
    /// The zone of the machine.
    Local,
    /// Coordinated Universal Time.
    Utc,
    /// A number of seconds east of Coordinated Universal Time.
    Fixed(i32),
}

/// Why a time could not be written.
#[derive(Clone, Copy, Debug, PartialEq, Eq, Structural)]
pub enum FormatError {
    /// The zone lies a day or more from Coordinated Universal Time.
    InvalidZone,
    /// The zone is that of the machine, which only the caller can resolve.
    UnresolvedZone,
    /// The time is no valid timestamp.
    InvalidTime,
    /// The format holds what chrono does not accept.
    InvalidFormat,
}

/// The text that chrono writes for the timestamp `millis` in Coordinated
/// Universal Time with `format`; absent where it rejects the format.
pub uninterp spec fn utc_text(millis: int, format: Seq<char>) -> Option<Seq<char>>;

/// The text that chrono writes for the timestamp `millis` in the zone
/// `offset` seconds east of Coordinated Universal Time with `format`;
/// absent where it rejects the format.
pub uninterp spec fn fixed_offset_text(millis: int, format: Seq<char>, offset: int) -> Option<
    Seq<char>,
>;

/// Whether `offset` seconds are less than a day, east or west.
pub open spec fn is_valid_offset(offset: int) -> bool {
    -86_400 < offset < 86_400
}

/// The text of a time in a zone, or the reason why there is none.
pub open spec fn text_in_zone(time: i64, format: Seq<char>, zone: Zone) -> Result<
    Seq<char>,
    FormatError,
> {
    match zone {
        Zone::Local => Err(FormatError::UnresolvedZone),
        Zone::Fixed(offset) if !is_valid_offset(offset as int) => Err(FormatError::InvalidZone),
        _ if !is_valid_timestamp(time as int) => Err(FormatError::InvalidTime),
        Zone::Utc => written(utc_text(time as int, format)),
        Zone::Fixed(offset) => written(fixed_offset_text(time as int, format, offset as int)),
    }
}

/// A text that was written, or the error of a format that was rejected.
pub open spec fn written(text: Option<Seq<char>>) -> Result<Seq<char>, FormatError> {
    match text {
        Some(t) => Ok(t),
        None => Err(FormatError::InvalidFormat),
    }
}

/// The error of a zone in which no time can be written, whatever the time.
pub open spec fn zone_error(zone: Zone) -> Option<FormatError> {
    match zone {
        Zone::Local => Some(FormatError::UnresolvedZone),
        Zone::Fixed(offset) if !is_valid_offset(offset as int) => Some(FormatError::InvalidZone),
        _ => None,
    }
}

/// Whether `text` is the text of `time`: absent with the time, and else
/// what `text_in_zone` gives.
pub open spec fn is_text_of(text: Option<String>, time: Option<i64>, format: Seq<char>, zone: Zone)
    -> bool {
    match time {
        None => text is None,
        Some(t) => text matches Some(s) && text_in_zone(t, format, zone) == Ok::<
            Seq<char>,
            FormatError,
        >(s@),
    }
}

/// `DateTime::format` of chrono on the instant that its
/// `DateTime::from_timestamp_millis` makes of `millis`, written out by
/// `DelayedFormat::write_to`. The contract gives the result the name
/// `utc_text`; it claims no more than that chrono writes the same text for
/// the same timestamp and format.
#[verifier::external_body]
fn chrono_format_utc(millis: i64, format: &str) -> (r: Option<String>)
    requires
        is_valid_timestamp(millis as int),
    ensures
        match r {
            Some(s) => utc_text(millis as int, format@) == Some(s@),
            None => utc_text(millis as int, format@) is None,
        },
{
    let instant = chrono::DateTime::from_timestamp_millis(millis).unwrap();
    let mut text = String::new();
    match instant.format(format).write_to(&mut text) {
        Ok(()) => Some(text),
        Err(_) => None,
    }
}

/// `TimeZone::from_utc_datetime` of chrono for the `FixedOffset` that
/// `east_opt` makes of `offset`, then `DateTime::format`, written out by
/// `DelayedFormat::write_to`. The contract gives the result the name
/// `fixed_offset_text`; it claims no more than that chrono writes the same
/// text for the same timestamp, format and offset.
#[verifier::external_body]
fn chrono_format_fixed(millis: i64, format: &str, offset: i32) -> (r: Option<String>)
    requires
        is_valid_timestamp(millis as int),
        is_valid_offset(offset as int),
    ensures
        match r {
            Some(s) => fixed_offset_text(millis as int, format@, offset as int) == Some(s@),
            None => fixed_offset_text(millis as int, format@, offset as int) is None,
        },
{
    let zone = chrono::FixedOffset::east_opt(offset).unwrap();
    let utc = chrono::DateTime::from_timestamp_millis(millis).unwrap().naive_utc();
    let local = chrono::TimeZone::from_utc_datetime(&zone, &utc);
    let mut text = String::new();
    match local.format(format).write_to(&mut text) {
        Ok(()) => Some(text),
        Err(_) => None,
    }
}

/// Whether `time` is a valid timestamp.
pub fn valid_timestamp(time: i64) -> (r: bool)
    ensures
        r == is_valid_timestamp(time as int),
{
    crate::calendar::MIN_TIMESTAMP <= time && time <= crate::calendar::MAX_TIMESTAMP
}

/// Whether `offset` seconds are less than a day, east or west.
pub fn valid_offset(offset: i32) -> (r: bool)
    ensures
        r == is_valid_offset(offset as int),
{
    -86_400 < offset && offset < 86_400
}

/// A text that was written, or the error of a format that was rejected.
pub fn text_or_error(text: Option<String>) -> (r: Result<String, FormatError>)
    ensures
        match r {
            Ok(s) => text == Some(s),
            Err(e) => text is None && e == FormatError::InvalidFormat,
        },
{
    match text {
        Some(s) => Ok(s),
        None => Err(FormatError::InvalidFormat),
    }
}

/// The text of `time` in `zone` by `format`.
pub fn format_time(time: i64, format: &str, zone: &Zone) -> (r: Result<String, FormatError>)
    ensures
        match r {
            Ok(s) => text_in_zone(time, format@, *zone) == Ok::<Seq<char>, FormatError>(s@),
            Err(e) => text_in_zone(time, format@, *zone) == Err::<Seq<char>, FormatError>(e),
        },
{
    match *zone {
        Zone::Local => Err(FormatError::UnresolvedZone),
        Zone::Utc => {
            if !valid_timestamp(time) {
                return Err(FormatError::InvalidTime);
            }
            text_or_error(chrono_format_utc(time, format))
        },
        Zone::Fixed(offset) => {
            if !valid_offset(offset) {
                return Err(FormatError::InvalidZone);
            }
            if !valid_timestamp(time) {
                return Err(FormatError::InvalidTime);
            }
            text_or_error(chrono_format_fixed(time, format, offset))
        },
    }
}

/// The text of a time that may be absent: absent with it.
fn format_optional(time: Option<i64>, format: &str, zone: &Zone) -> (r: Result<
    Option<String>,
    FormatError,
>)
    ensures
        match r {
            Ok(text) => is_text_of(text, time, format@, *zone),
            Err(e) => time matches Some(t) && text_in_zone(t, format@, *zone) == Err::<
                Seq<char>,
                FormatError,
            >(e),
        },
{
    match time {
        None => Ok(None),
        Some(t) => match format_time(t, format, zone) {
            Ok(s) => Ok(Some(s)),
            Err(e) => Err(e),
        },
    }
}

impl FormattedTimes {
    /// The text of the given kind of time.
    pub open spec fn at(&self, which: PraytimeType) -> Option<String> {
        match which {
            PraytimeType::Imsak => self.imsak,
            PraytimeType::Fajr => self.fajr,
            PraytimeType::Sunrise => self.sunrise,
            PraytimeType::Dhuhr => self.dhuhr,
            PraytimeType::Asr => self.asr,
            PraytimeType::Sunset => self.sunset,
            PraytimeType::Maghrib => self.maghrib,
            PraytimeType::Isha => self.isha,
            PraytimeType::Midnight => self.midnight,
        }
    }
}

impl PraytimesOutput {
    /// The error of the first present time that cannot be written, in the
    /// order of `PraytimeType`; nothing where all can be written.
    pub open spec fn first_error(&self, format: Seq<char>, zone: Zone) -> Option<FormatError> {
        first_error_from(*self, format, zone, 0)
    }

    /// Each present time as text in `zone` by `format`. The zone is
    /// looked at first: a zone that cannot be used is an error even where
    /// no time is present.
    pub fn format_times(&self, format: &str, zone: &Zone) -> (r: Result<
        FormattedTimes,
        FormatError,
    >)
        ensures
            match r {
                Ok(texts) => zone_error(*zone) is None && forall|which: PraytimeType|
                    is_text_of(#[trigger] texts.at(which), self.at(which), format@, *zone),
                Err(e) => Some(e) == if zone_error(*zone) is Some {
                    zone_error(*zone)
                } else {
                    self.first_error(format@, *zone)
                },
            },
    {
        match *zone {
            Zone::Local => {
                return Err(FormatError::UnresolvedZone);
            },
            Zone::Fixed(offset) => {
                if !valid_offset(offset) {
                    return Err(FormatError::InvalidZone);
                }
            },
            Zone::Utc => {},
        }
        proof {
            reveal_with_fuel(first_error_from, 10);
        }
        let imsak = match format_optional(self.imsak, format, zone) {
            Ok(t) => t,
            Err(e) => {
                return Err(e);
            },
        };
        let fajr = match format_optional(self.fajr, format, zone) {
            Ok(t) => t,
            Err(e) => {
                return Err(e);
            },
        };
        let sunrise = match format_optional(self.sunrise, format, zone) {
            Ok(t) => t,
            Err(e) => {
                return Err(e);
            },
        };
        let dhuhr = match format_optional(self.dhuhr, format, zone) {
            Ok(t) => t,
            Err(e) => {
                return Err(e);
            },
        };
        let asr = match format_optional(self.asr, format, zone) {
            Ok(t) => t,
            Err(e) => {
                return Err(e);
            },
        };
        let sunset = match format_optional(self.sunset, format, zone) {
            Ok(t) => t,
            Err(e) => {
                return Err(e);
            },
        };
        let maghrib = match format_optional(self.maghrib, format, zone) {
            Ok(t) => t,
            Err(e) => {
                return Err(e);
            },
        };
        let isha = match format_optional(self.isha, format, zone) {
            Ok(t) => t,
            Err(e) => {
                return Err(e);
            },
        };
        let midnight = match format_optional(self.midnight, format, zone) {
            Ok(t) => t,
            Err(e) => {
                return Err(e);
            },
        };
        Ok(FormattedTimes { imsak, fajr, sunrise, dhuhr, asr, sunset, maghrib, isha, midnight })
    }
}

/// The kind of time at a place in the order of a day.
pub open spec fn kind_at(index: int) -> PraytimeType {
    if index == 0 {
        PraytimeType::Imsak
    } else if index == 1 {
        PraytimeType::Fajr
    } else if index == 2 {
        PraytimeType::Sunrise
    } else if index == 3 {
        PraytimeType::Dhuhr
    } else if index == 4 {
        PraytimeType::Asr
    } else if index == 5 {
        PraytimeType::Sunset
    } else if index == 6 {
        PraytimeType::Maghrib
    } else if index == 7 {
        PraytimeType::Isha
    } else {
        PraytimeType::Midnight
    }
}

/// The error of the first time, from place `index` on, that is present and
/// cannot be written.
pub open spec fn first_error_from(
    times: PraytimesOutput,
    format: Seq<char>,
    zone: Zone,
    index: int,
) -> Option<FormatError>
    decreases 9 - index,
{
    if index < 0 || index >= 9 {
        None
    } else {
        match times.at(kind_at(index)) {
            Some(t) => match text_in_zone(t, format, zone) {
                Err(e) => Some(e),
                Ok(_) => first_error_from(times, format, zone, index + 1),
            },
            None => first_error_from(times, format, zone, index + 1),
        }
    }
}

} // verus!
