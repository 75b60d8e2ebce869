//! The system tick timer.

use vstd::prelude::*;

verus! {

/// A countdown timer in microseconds.
pub trait SysTick {
    /// Starts the countdown from `us` microseconds.
    fn set_timer(&self, us: u32);

    /// Whether more than `us` microseconds remain.
    fn greater_than(&self, us: u32) -> bool;

    /// Whether the countdown reached zero.
    fn overflowed(&self) -> bool;

    /// Stops the timer.
    fn reset(&self);

    /// Enables the timer, with an interrupt at zero or not.
    fn enable(&self, with_interrupt: bool);
}

/// The timer of a platform without one: it never runs out.
impl SysTick for () {
    fn reset(&self) {
    }

    fn set_timer(&self, us: u32) {
    }

    fn enable(&self, with_interrupt: bool) {
    }

    fn overflowed(&self) -> (r: bool)
        ensures
            !r,
    {
        false
    }

    fn greater_than(&self, us: u32) -> (r: bool)
        ensures
            r,
    {
        true
    }
}

} // verus!
