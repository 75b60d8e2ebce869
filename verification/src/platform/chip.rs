//! Interfaces that chips implement.

use crate::platform::mpu;
use vstd::prelude::*;

verus! {

/// A microcontroller: its interrupts, its MPU and its sleep.
pub trait Chip {
    /// The memory protection unit of the chip.
    type MPU: mpu::MPU;

    /// Services the interrupts and deferred calls that are pending.
    fn service_pending_interrupts(&self);

    /// Whether interrupts or deferred calls are pending.
    fn has_pending_interrupts(&self) -> bool;

    /// The memory protection unit of the chip.
    fn mpu(&self) -> &Self::MPU;

    /// Puts the chip to sleep until an interrupt.
    fn sleep(&self);

    /// Runs `f` with interrupts disabled.
    fn atomic<F, R>(&self, f: F) -> R where F: FnOnce() -> R;
}

/// Services the interrupts and deferred calls of a chip.
pub trait InterruptService<T> {
    /// Services an interrupt; whether the interrupt was handled.
    fn service_interrupt(&self, interrupt: u32) -> bool;

    /// Services a deferred call; whether it was handled.
    fn service_deferred_call(&self, task: T) -> bool;
}

/// Control of the clock of a peripheral.
pub trait ClockInterface {
    /// Whether the clock is enabled.
    fn is_enabled(&self) -> bool;

    /// Enables the clock.
    fn enable(&self);

    /// Disables the clock.
    fn disable(&self);
}

/// The clock of a peripheral whose clock cannot be controlled: always
/// enabled.
pub struct NoClockControl {}

impl ClockInterface for NoClockControl {
    fn is_enabled(&self) -> (r: bool)
        ensures
            r,
    {
        true
    }

    fn enable(&self) {
    }

    fn disable(&self) {
    }
}

} // verus!
