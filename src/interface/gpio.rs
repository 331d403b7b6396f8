//! GPIO pins.
use vstd::prelude::*;

verus! {

/// Pull-up or pull-down resistor setting of a GPIO pin.
#[derive(Clone, Copy, PartialEq, Eq, Debug, Structural)]
pub enum Pud {
    PudOff,
    PudUp,
    PudDown,
}

/// Direction of a GPIO pin.
#[derive(Clone, Copy, PartialEq, Eq, Debug, Structural)]
pub enum Dir {
    Input,
    Output,
}

/// Setting GPIO pins up.
pub trait Configure {
    /// Sets the pull-up or pull-down resistor of `pin`.
    fn pullupdn(&self, pin: u32, pud: Pud);

    /// Sets the direction and pull of `pin`, and clears its output.
    fn setup(&self, pin: u32, direction: Dir, pud: Pud);

    /// Routes `pin` to its PWM channel, if it has one.
    fn setup_pwm(&self, pin: u32);

    /// Clears every output pin.
    fn cleanup(&self);
}

/// Driving GPIO output pins.
pub trait Output {
    fn output(&self, pin: u32, value: u32);
}

/// Reading GPIO input pins.
pub trait Input {
    fn input(&self, pin: u32) -> u32;
}

} // verus!
