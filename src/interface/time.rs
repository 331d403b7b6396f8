//! The architectural timer.
use vstd::prelude::*;

verus! {

/// The architectural timer.
pub trait Timer {
    /// The timer's resolution.
    fn resolution(&self) -> std::time::Duration;

    /// The time since power-on, firmware and boot loaders included.
    fn uptime(&self) -> std::time::Duration;

    /// Spins for the given duration.
    fn spin_for(&self, duration: std::time::Duration);
}

} // verus!
