//! The capabilities that the board's drivers and timer offer to the kernel.
pub mod console;
pub mod driver;
pub mod gpio;
pub mod pwm;
pub mod time;
