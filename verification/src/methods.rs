//! The calculation methods in common use, each a fixed set of parameters,
//! and their names.
use crate::types::{
    AsrFactor, CalculationUnit, Degrees, HighLatsMethod, MidnightMethod, Minutes, Parameters,
};
use vstd::prelude::*;

verus! {

/// The bits of the binary64 number 0.
pub const BITS_0: u64 = 0x0000_0000_0000_0000;

/// The bits of the binary64 number 1.
pub const BITS_1: u64 = 0x3ff0_0000_0000_0000;

/// The bits of the binary64 number 4.
pub const BITS_4: u64 = 0x4010_0000_0000_0000;

/// The bits of the binary64 number 4.5.
pub const BITS_4_5: u64 = 0x4012_0000_0000_0000;

/// The bits of the binary64 number 10.
pub const BITS_10: u64 = 0x4024_0000_0000_0000;

/// The bits of the binary64 number 14.
pub const BITS_14: u64 = 0x402c_0000_0000_0000;

/// The bits of the binary64 number 15.
pub const BITS_15: u64 = 0x402e_0000_0000_0000;

/// The bits of the binary64 number 16.
pub const BITS_16: u64 = 0x4030_0000_0000_0000;

/// The bits of the binary64 number 17.
pub const BITS_17: u64 = 0x4031_0000_0000_0000;

/// The bits of the binary64 number 17.5.
pub const BITS_17_5: u64 = 0x4031_8000_0000_0000;

/// The bits of the binary64 number nearest to 17.7.
pub const BITS_17_7: u64 = 0x4031_b333_3333_3333;

/// The bits of the binary64 number 18.
pub const BITS_18: u64 = 0x4032_0000_0000_0000;

/// The bits of the binary64 number 18.5.
pub const BITS_18_5: u64 = 0x4032_8000_0000_0000;

/// The bits of the binary64 number 19.5.
pub const BITS_19_5: u64 = 0x4033_8000_0000_0000;

/// The bits of the binary64 number 90.
pub const BITS_90: u64 = 0x4056_8000_0000_0000;

/// The methods that have a name.
#[derive(Clone, Copy, Debug, PartialEq, Eq, PartialOrd, Ord, Structural)]
pub enum SelectedMethod {
    /// Muslim World League.
    MWL,
    /// Islamic Society of North America.
    ISNA,
    /// Egyptian General Authority of Survey.
    Egypt,
    /// Umm al-Qura University, Makkah.
    Makkah,
    /// University of Islamic Sciences, Karachi.
    Karachi,
    /// Institute of Geophysics, University of Tehran.
    Tehran,
    /// Shia Ithna Ashari, Leva Research Institute, Qum.
    Jafari,
}

/// An angle of the given bits.
pub open spec fn angle(bits: u64) -> CalculationUnit {
    CalculationUnit::Degrees(Degrees { bits })
}

/// A number of minutes of the given bits.
pub open spec fn span(bits: u64) -> CalculationUnit {
    CalculationUnit::Minutes(Minutes { bits })
}

/// The parameters that all the methods share, with the four that tell them
/// apart: imsak ten minutes before fajr but for one method, dhuhr at
/// midday, the standard shadow, the middle of the night at high latitudes.
pub open spec fn method(
    imsak_minutes: u64,
    fajr: u64,
    maghrib: CalculationUnit,
    isha: CalculationUnit,
    midnight: MidnightMethod,
) -> Parameters {
    Parameters {
        imsak: span(imsak_minutes),
        fajr: Degrees { bits: fajr },
        dhuhr: Minutes { bits: BITS_0 },
        asr: AsrFactor { bits: BITS_1 },
        maghrib,
        isha,
        midnight,
        high_latitudes: HighLatsMethod::NightMiddle,
    }
}

/// The parameters of each method.
pub open spec fn preset(selected: SelectedMethod) -> Parameters {
    match selected {
        SelectedMethod::MWL => method(
            BITS_10,
            BITS_18,
            span(BITS_0),
            angle(BITS_17),
            MidnightMethod::Standard,
        ),
        SelectedMethod::ISNA => method(
            BITS_15,
            BITS_15,
            span(BITS_0),
            angle(BITS_15),
            MidnightMethod::Standard,
        ),
        SelectedMethod::Egypt => method(
            BITS_10,
            BITS_19_5,
            span(BITS_0),
            angle(BITS_17_5),
            MidnightMethod::Standard,
        ),
        SelectedMethod::Makkah => method(
            BITS_10,
            BITS_18_5,
            span(BITS_0),
            span(BITS_90),
            MidnightMethod::Standard,
        ),
        SelectedMethod::Karachi => method(
            BITS_10,
            BITS_18,
            span(BITS_0),
            angle(BITS_18),
            MidnightMethod::Standard,
        ),
        SelectedMethod::Tehran => method(
            BITS_10,
            BITS_17_7,
            angle(BITS_4_5),
            angle(BITS_14),
            MidnightMethod::Jafari,
        ),
        SelectedMethod::Jafari => method(
            BITS_10,
            BITS_16,
            angle(BITS_4),
            angle(BITS_14),
            MidnightMethod::Jafari,
        ),
    }
}

/// The method that a name stands for. Each method has a long name and a
/// short one; both are matched letter for letter.
pub open spec fn method_named(name: Seq<char>) -> Option<SelectedMethod> {
    if name == "MUSLIM_WORLD_LEAGUE"@ || name == "MWL"@ {
        Some(SelectedMethod::MWL)
    } else if name == "ISLAMIC_SOCIETY_OF_NORTH_AMERICA"@ || name == "ISNA"@ {
        Some(SelectedMethod::ISNA)
    } else if name == "EGYPTIAN_GENERAL_AUTHORITY_OF_SURVEY"@ || name == "Egypt"@ {
        Some(SelectedMethod::Egypt)
    } else if name == "UMM_AL_QURA_UNIVERSITY_MAKKAH"@ || name == "Makkah"@ {
        Some(SelectedMethod::Makkah)
    } else if name == "UNIVERSITY_OF_ISLAMIC_SCIENCES_KARACHI"@ || name == "Karachi"@ {
        Some(SelectedMethod::Karachi)
    } else if name == "INSTITUTE_OF_GEOPHYSICS_UNIVERSITY_OF_TEHRAN"@ || name == "Tehran"@ {
        Some(SelectedMethod::Tehran)
    } else if name == "SHIA_ITHNA_ASHARI_LEVA_INSTITUTE_QUM"@ || name == "Jafari"@ {
        Some(SelectedMethod::Jafari)
    } else {
        None
    }
}

/// Whether two texts are the same, letter for letter.
fn same_text(a: &str, b: &str) -> (r: bool)
    ensures
        r == (a@ == b@),
{
    a.to_owned() == b.to_owned()
}

/// The parameters shared by all the methods, with the four that differ.
fn make_method(
    imsak_minutes: u64,
    fajr: u64,
    maghrib: CalculationUnit,
    isha: CalculationUnit,
    midnight: MidnightMethod,
) -> (r: Parameters)
    ensures
        r == method(imsak_minutes, fajr, maghrib, isha, midnight),
{
    Parameters {
        imsak: CalculationUnit::Minutes(Minutes { bits: imsak_minutes }),
        fajr: Degrees { bits: fajr },
        dhuhr: Minutes { bits: BITS_0 },
        asr: AsrFactor { bits: BITS_1 },
        maghrib,
        isha,
        midnight,
        high_latitudes: HighLatsMethod::NightMiddle,
    }
}

/// An angle of the given bits.
fn degrees(bits: u64) -> (r: CalculationUnit)
    ensures
        r == angle(bits),
{
    CalculationUnit::Degrees(Degrees { bits })
}

/// A number of minutes of the given bits.
fn minutes(bits: u64) -> (r: CalculationUnit)
    ensures
        r == span(bits),
{
    CalculationUnit::Minutes(Minutes { bits })
}

/// Fajr at 18 degrees, isha at 17.
pub fn muslim_world_league() -> (r: Parameters)
    ensures
        r == preset(SelectedMethod::MWL),
{
    make_method(BITS_10, BITS_18, minutes(BITS_0), degrees(BITS_17), MidnightMethod::Standard)
}

/// Fajr and isha at 15 degrees, imsak 15 minutes before fajr.
pub fn islamic_society_of_north_america() -> (r: Parameters)
    ensures
        r == preset(SelectedMethod::ISNA),
{
    make_method(BITS_15, BITS_15, minutes(BITS_0), degrees(BITS_15), MidnightMethod::Standard)
}

/// Fajr at 19.5 degrees, isha at 17.5.
pub fn egyptian_general_authority_of_survey() -> (r: Parameters)
    ensures
        r == preset(SelectedMethod::Egypt),
{
    make_method(BITS_10, BITS_19_5, minutes(BITS_0), degrees(BITS_17_5), MidnightMethod::Standard)
}

/// Fajr at 18.5 degrees, isha 90 minutes after maghrib.
pub fn umm_al_qura_university_makkah() -> (r: Parameters)
    ensures
        r == preset(SelectedMethod::Makkah),
{
    make_method(BITS_10, BITS_18_5, minutes(BITS_0), minutes(BITS_90), MidnightMethod::Standard)
}

/// Fajr and isha at 18 degrees.
pub fn university_of_islamic_sciences_karachi() -> (r: Parameters)
    ensures
        r == preset(SelectedMethod::Karachi),
{
    make_method(BITS_10, BITS_18, minutes(BITS_0), degrees(BITS_18), MidnightMethod::Standard)
}

/// Fajr at 17.7 degrees, maghrib at 4.5, isha at 14, midnight toward fajr.
pub fn institute_of_geophysics_university_of_tehran() -> (r: Parameters)
    ensures
        r == preset(SelectedMethod::Tehran),
{
    make_method(BITS_10, BITS_17_7, degrees(BITS_4_5), degrees(BITS_14), MidnightMethod::Jafari)
}

/// Fajr at 16 degrees, maghrib at 4, isha at 14, midnight toward fajr.
pub fn shia_ithna_ashari_leva_institute_qum() -> (r: Parameters)
    ensures
        r == preset(SelectedMethod::Jafari),
{
    make_method(BITS_10, BITS_16, degrees(BITS_4), degrees(BITS_14), MidnightMethod::Jafari)
}

impl SelectedMethod {
    /// The parameters of this method.
    pub fn get_method(&self) -> (r: Parameters)
        ensures
            r == preset(*self),
    {
        match self {
            SelectedMethod::MWL => muslim_world_league(),
            SelectedMethod::ISNA => islamic_society_of_north_america(),
            SelectedMethod::Egypt => egyptian_general_authority_of_survey(),
            SelectedMethod::Makkah => umm_al_qura_university_makkah(),
            SelectedMethod::Karachi => university_of_islamic_sciences_karachi(),
            SelectedMethod::Tehran => institute_of_geophysics_university_of_tehran(),
            SelectedMethod::Jafari => shia_ithna_ashari_leva_institute_qum(),
        }
    }

    /// The method that `name` stands for, if it is the name of one.
    pub fn from_name(name: &str) -> (r: Option<SelectedMethod>)
        ensures
            r == method_named(name@),
    {
        if same_text(name, "MUSLIM_WORLD_LEAGUE") || same_text(name, "MWL") {
            Some(SelectedMethod::MWL)
        } else if same_text(name, "ISLAMIC_SOCIETY_OF_NORTH_AMERICA") || same_text(name, "ISNA") {
            Some(SelectedMethod::ISNA)
        } else if same_text(name, "EGYPTIAN_GENERAL_AUTHORITY_OF_SURVEY") || same_text(
            name,
            "Egypt",
        ) {
            Some(SelectedMethod::Egypt)
        } else if same_text(name, "UMM_AL_QURA_UNIVERSITY_MAKKAH") || same_text(name, "Makkah") {
            Some(SelectedMethod::Makkah)
        } else if same_text(name, "UNIVERSITY_OF_ISLAMIC_SCIENCES_KARACHI") || same_text(
            name,
            "Karachi",
        ) {
            Some(SelectedMethod::Karachi)
        } else if same_text(name, "INSTITUTE_OF_GEOPHYSICS_UNIVERSITY_OF_TEHRAN") || same_text(
            name,
            "Tehran",
        ) {
            Some(SelectedMethod::Tehran)
        } else if same_text(name, "SHIA_ITHNA_ASHARI_LEVA_INSTITUTE_QUM") || same_text(
            name,
            "Jafari",
        ) {
            Some(SelectedMethod::Jafari)
        } else {
            None
        }
    }
}

/// The parameters of the method that `name` stands for, if it is the name
/// of one.
pub fn get_method_by_name(name: &str) -> (r: Option<Parameters>)
    ensures
        r == match method_named(name@) {
            Some(selected) => Some(preset(selected)),
            None => None,
        },
{
    match SelectedMethod::from_name(name) {
        Some(selected) => Some(selected.get_method()),
        None => None,
    }
}

} // verus!
