//! The rule for high latitudes, as far as it is a decision.
//!
//! Near the poles the sun does not reach every angle on every day, and the
//! time that an angle defines may not exist, or lie far into the night. A
//! method for high latitudes replaces such a time by one that lies a
//! portion of the night from sunrise or sunset. How long the night is, and
//! how far a time lies from its base, is for the solver to say; whether
//! the time is replaced is decided here.
use crate::types::HighLatsMethod;
use vstd::prelude::*;

verus! {

/// Whether a time that was solved from the sun's angle is replaced by a
/// portion of the night: always where no such time exists, and otherwise
/// where a method for high latitudes is chosen and the time lies farther
/// from its base than that portion.
pub open spec fn adjustment_needed(
    method: HighLatsMethod,
    time_undefined: bool,
    beyond_portion: bool,
) -> bool {
    time_undefined || (method != HighLatsMethod::NoAdjustment && beyond_portion)
}

/// Whether a solved time is replaced by a portion of the night.
/// `time_undefined` says that the sun never reaches the angle, and
/// `beyond_portion` that the time lies farther from sunrise or sunset than
/// the portion of the night that the method allows.
pub fn high_lat_adjustment_needed(
    method: HighLatsMethod,
    time_undefined: bool,
    beyond_portion: bool,
) -> (r: bool)
    ensures
        r == adjustment_needed(method, time_undefined, beyond_portion),
{
    time_undefined || (method != HighLatsMethod::NoAdjustment && beyond_portion)
}

/// Without a method for high latitudes a time is replaced only where it
/// does not exist, and then by nothing: the portion of the night is
/// undefined too. With a method, a time that does not exist is always
/// replaced.
pub proof fn lemma_adjustment_without_method(time_undefined: bool, beyond_portion: bool)
    ensures
        adjustment_needed(HighLatsMethod::NoAdjustment, time_undefined, beyond_portion)
            == time_undefined,
        forall|method: HighLatsMethod| #[trigger] adjustment_needed(method, true, beyond_portion),
{
}

} // verus!
