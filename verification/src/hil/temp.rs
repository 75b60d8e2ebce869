//! Interface for temperature sensors.

use crate::returncode::ReturnCode;
use vstd::prelude::*;

verus! {

/// A temperature sensor.
pub trait TempDriver {
    /// Initializes the sensor.
    fn init(&self);

    /// Starts a measurement.
    fn take_measurement(&self);
}

/// Handles measurements.
pub trait Client {
    /// A measurement completed.
    fn measurement_done(&self, temp: usize) -> ReturnCode;
}

} // verus!
