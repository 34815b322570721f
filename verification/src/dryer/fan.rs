//! The fan: from a speed level to the duty of its PWM channel.

use crate::dryer::heater::FanSpeed;
use vstd::prelude::*;

verus! {

/// The share of the full duty that a level stands for, in percent.
pub open spec fn duty_percent(speed: FanSpeed) -> int {
    match speed {
        FanSpeed::Off => 0,
        FanSpeed::Low => 30,
        FanSpeed::Middle => 50,
        FanSpeed::Max => 100,
    }
}

/// The duty for a level on a channel whose full duty is `max_duty`: the
/// level's share of it, rounded down.
pub open spec fn duty_for(speed: FanSpeed, max_duty: u32) -> int {
    max_duty * duty_percent(speed) / 100
}

/// Computes the duty to set for a level. The fan is set to it at once, with
/// no ramp from the duty it had.
pub fn duty(speed: FanSpeed, max_duty: u32) -> (duty: u32)
    ensures
        duty == duty_for(speed, max_duty),
        duty <= max_duty,
        speed == FanSpeed::Off ==> duty == 0,
        speed == FanSpeed::Max ==> duty == max_duty,
{
    let full: u64 = max_duty as u64;
    let scaled: u64 = match speed {
        FanSpeed::Off => 0,
        FanSpeed::Low => full * 30 / 100,
        FanSpeed::Middle => full * 50 / 100,
        FanSpeed::Max => full,
    };
    scaled as u32
}

/// A faster level never gets a smaller duty.
pub proof fn law_duty_grows_with_level(max_duty: u32)
    ensures
        duty_for(FanSpeed::Off, max_duty) <= duty_for(FanSpeed::Low, max_duty),
        duty_for(FanSpeed::Low, max_duty) <= duty_for(FanSpeed::Middle, max_duty),
        duty_for(FanSpeed::Middle, max_duty) <= duty_for(FanSpeed::Max, max_duty),
{
}

} // verus!
