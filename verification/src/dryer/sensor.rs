//! The temperature sensor's readings, from raw to whole degrees.

use vstd::prelude::*;

verus! {

/// Raw steps of the sensor in one degree Celsius.
pub const STEPS_PER_DEGREE: u16 = 16;

/// A raw reading in whole degrees Celsius, the fraction dropped.
pub fn celsius_from_raw(raw: u16) -> (degrees: u16)
    ensures
        degrees == raw / STEPS_PER_DEGREE,
        degrees * STEPS_PER_DEGREE <= raw < (degrees + 1) * STEPS_PER_DEGREE,
{
    raw / STEPS_PER_DEGREE
}

} // verus!
