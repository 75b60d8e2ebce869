//! Identification of the upcalls that drivers schedule for processes.

use vstd::prelude::*;

verus! {

/// Identifies an upcall: the driver that owns it and its number within the
/// driver.
#[derive(Clone, Copy, PartialEq, Eq, Structural, Debug)]
pub struct UpcallId {
    /// The number of the driver that owns the upcall.
    pub driver_num: usize,
    /// The number of the upcall within the driver.
    pub subscribe_num: usize,
}

} // verus!
