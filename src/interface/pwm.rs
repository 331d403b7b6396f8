//! PWM channels.
use vstd::prelude::*;

verus! {

/// Setting the PWM up.
pub trait Configure {
    fn set_mode(&self, mode: u32);

    fn set_range(&self, range: u32);

    fn set_clock(&self, divisor: u32);
}

/// Writing PWM channels.
pub trait Output {
    fn write(&self, pin: u32, value: u32);
}

} // verus!
