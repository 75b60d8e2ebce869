//! Interface for watchdog timers.

use vstd::prelude::*;

verus! {

/// A watchdog timer.
pub trait Watchdog {
    /// Starts the watchdog with a period in milliseconds.
    fn start(&self, period: usize);

    /// Stops the watchdog.
    fn stop(&self);

    /// Restarts the count of the watchdog.
    fn tickle(&self);
}

} // verus!
