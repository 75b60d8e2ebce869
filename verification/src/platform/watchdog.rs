//! The watchdog that resets the chip when the kernel hangs.

use vstd::prelude::*;

verus! {

/// A watchdog timer that the kernel keeps from expiring.
pub trait WatchDog {
    /// Sets the watchdog up.
    fn setup(&self) {
    }

    /// Restarts the count of the watchdog.
    fn tickle(&self) {
    }

    /// Suspends the watchdog, while the chip sleeps.
    fn suspend(&self) {
    }

    /// Resumes the watchdog, restarting its count.
    fn resume(&self) {
        self.tickle();
    }
}

/// Handles the reset caused by a watchdog.
pub trait WatchdogClient {
    /// A reset happened.
    fn reset_happened(&self) {
    }
}

/// The watchdog of a platform without one.
impl WatchDog for () {

}

} // verus!
