//! What a request for the times of a day may leave out.
use crate::format::Zone;
use vstd::prelude::*;

verus! {

/// The zone of a request that names none: that of the machine.
pub fn default_timezone() -> (r: Zone)
    ensures
        r == Zone::Local,
{
    Zone::Local
}

/// The format of a request that names none: date and time by ISO 8601.
pub fn default_format() -> (r: String)
    ensures
        r@ == "%+"@,
{
    "%+".to_owned()
}

} // verus!
