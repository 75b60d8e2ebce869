//! Interface for digital output pins.

use vstd::prelude::*;

verus! {

/// A digital output pin.
pub trait Output {
    /// Sets the pin high.
    fn set(&self);

    /// Sets the pin low.
    fn clear(&self);

    /// Toggles the pin and returns its new level.
    fn toggle(&self) -> bool;
}

} // verus!
