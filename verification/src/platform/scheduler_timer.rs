//! The timer that ends the timeslices of processes.

use vstd::prelude::*;

verus! {

/// A timer for the timeslices of processes, counting in microseconds.
pub trait SchedulerTimer {
    /// Starts a timeslice of `us` microseconds, never zero.
    fn start(&self, us: u32);

    /// Resets the timer.
    fn reset(&self);

    /// Arms the interrupt of the timer.
    fn arm(&self);

    /// Disarms the interrupt of the timer.
    fn disarm(&self);

    /// The microseconds left, never zero, or `None` if the timeslice
    /// expired.
    fn get_remaining_us(&self) -> Option<u32>;
}

/// The timer of a platform without one: the timeslice never expires.
impl SchedulerTimer for () {
    fn reset(&self) {
    }

    fn start(&self, us: u32) {
    }

    fn disarm(&self) {
    }

    fn arm(&self) {
    }

    fn get_remaining_us(&self) -> (r: Option<u32>)
        ensures
            r == Some(10000u32),
    {
        Some(10000)
    }
}

} // verus!
