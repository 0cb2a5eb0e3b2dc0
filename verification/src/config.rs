//! What a caller may leave open when choosing parameters: a method by name,
//! with any of its parameters replaced.
use crate::methods::{preset, SelectedMethod};
use crate::types::{
    AsrFactor, CalculationUnit, Degrees, HighLatsMethod, MidnightMethod, Minutes, Parameters,
};
use vstd::prelude::*;

verus! {

/// Parameters of which any may be absent.
#[derive(Clone, Copy, Debug, PartialEq, Eq, Structural)]
pub struct PartialParameters {
    pub imsak: Option<CalculationUnit>,
    pub fajr: Option<Degrees>,
    pub dhuhr: Option<Minutes>,
    pub asr: Option<AsrFactor>,
    pub maghrib: Option<CalculationUnit>,
    pub isha: Option<CalculationUnit>,
    pub midnight: Option<MidnightMethod>,
    pub high_latitudes: Option<HighLatsMethod>,
}

/// Either all the parameters, or a method and what replaces some of its
/// parameters.
#[derive(Clone, Copy, Debug, PartialEq, Eq, Structural)]
pub enum CustomizableParams {
    Full(Parameters),
    MethodAndExtra { method: SelectedMethod, extra: Option<PartialParameters> },
}

/// `value` where it is present, and `fallback` where it is not.
pub open spec fn or_else<T>(value: Option<T>, fallback: T) -> T {
    match value {
        Some(v) => v,
        None => fallback,
    }
}

/// The parameters of `base`, each replaced by that of `partial` where
/// `partial` has one.
pub open spec fn overridden(base: Parameters, partial: PartialParameters) -> Parameters {
    Parameters {
        imsak: or_else(partial.imsak, base.imsak),
        fajr: or_else(partial.fajr, base.fajr),
        dhuhr: or_else(partial.dhuhr, base.dhuhr),
        asr: or_else(partial.asr, base.asr),
        maghrib: or_else(partial.maghrib, base.maghrib),
        isha: or_else(partial.isha, base.isha),
        midnight: or_else(partial.midnight, base.midnight),
        high_latitudes: or_else(partial.high_latitudes, base.high_latitudes),
    }
}

/// The format of a time of day where none is asked for: hours, minutes and
/// seconds.
pub fn default_format() -> (r: String)
    ensures
        r@ == "%T"@,
{
    "%T".to_owned()
}

impl PartialParameters {
    /// The parameters of `base`, each replaced by the one given here where
    /// one is given.
    pub fn apply_to(&self, base: &Parameters) -> (r: Parameters)
        ensures
            r == overridden(*base, *self),
    {
        Parameters {
            imsak: match self.imsak {
                Some(v) => v,
                None => base.imsak,
            },
            fajr: match self.fajr {
                Some(v) => v,
                None => base.fajr,
            },
            dhuhr: match self.dhuhr {
                Some(v) => v,
                None => base.dhuhr,
            },
            asr: match self.asr {
                Some(v) => v,
                None => base.asr,
            },
            maghrib: match self.maghrib {
                Some(v) => v,
                None => base.maghrib,
            },
            isha: match self.isha {
                Some(v) => v,
                None => base.isha,
            },
            midnight: match self.midnight {
                Some(v) => v,
                None => base.midnight,
            },
            high_latitudes: match self.high_latitudes {
                Some(v) => v,
                None => base.high_latitudes,
            },
        }
    }
}

impl CustomizableParams {
    /// The parameters that this choice stands for.
    pub open spec fn resolved(&self) -> Parameters {
        match *self {
            CustomizableParams::Full(p) => p,
            CustomizableParams::MethodAndExtra { method, extra: Some(partial) } => overridden(
                preset(method),
                partial,
            ),
            CustomizableParams::MethodAndExtra { method, extra: None } => preset(method),
        }
    }

    /// All the parameters as given; or those of the method, each replaced
    /// where a replacement is given.
    pub fn get_params(self) -> (r: Parameters)
        ensures
            r == self.resolved(),
    {
        match self {
            CustomizableParams::Full(p) => p,
            CustomizableParams::MethodAndExtra { method, extra: Some(partial) } => {
                let base = method.get_method();
                partial.apply_to(&base)
            },
            CustomizableParams::MethodAndExtra { method, extra: None } => method.get_method(),
        }
    }
}

/// Replacing nothing gives the method's own parameters, and replacing
/// everything gives the replacements, whatever the method.
pub proof fn lemma_overridden_extremes(base: Parameters, full: Parameters)
    ensures
        overridden(
            base,
            PartialParameters {
                imsak: None,
                fajr: None,
                dhuhr: None,
                asr: None,
                maghrib: None,
                isha: None,
                midnight: None,
                high_latitudes: None,
            },
        ) == base,
        overridden(
            base,
            PartialParameters {
                imsak: Some(full.imsak),
                fajr: Some(full.fajr),
                dhuhr: Some(full.dhuhr),
                asr: Some(full.asr),
                maghrib: Some(full.maghrib),
                isha: Some(full.isha),
                midnight: Some(full.midnight),
                high_latitudes: Some(full.high_latitudes),
            },
        ) == full,
{
}

} // verus!
