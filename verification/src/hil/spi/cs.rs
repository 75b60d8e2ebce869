//! Chip select pins of SPI devices, with the level that selects them.

use crate::hil::gpio::Output;
use vstd::prelude::*;

verus! {

/// The level that selects a device.
#[derive(Clone, Copy, PartialEq, Eq, Structural, Debug)]
pub enum Polarity {
    /// Selected when high.
    High,
    /// Selected when low.
    Low,
}

/// Seals [`ChipSelectActivePolarity`]: only the polarities here implement it.
pub trait Sealed {

}

/// A polarity known from the type.
pub trait ChipSelectActivePolarity: Sealed {
    /// The polarity.
    spec fn spec_polarity() -> Polarity;

    /// The polarity.
    fn polarity() -> (r: Polarity)
        ensures
            r == Self::spec_polarity(),
    ;
}

/// Chip selects that are active when low.
pub struct ActiveLow;

/// Chip selects that are active when high.
pub struct ActiveHigh;

impl Sealed for ActiveLow {

}

impl Sealed for ActiveHigh {

}

impl ChipSelectActivePolarity for ActiveLow {
    open spec fn spec_polarity() -> Polarity {
        Polarity::Low
    }

    fn polarity() -> (r: Polarity) {
        Polarity::Low
    }
}

impl ChipSelectActivePolarity for ActiveHigh {
    open spec fn spec_polarity() -> Polarity {
        Polarity::High
    }

    fn polarity() -> (r: Polarity) {
        Polarity::High
    }
}

/// Turns a pin into a chip select of polarity `POLARITY`.
pub trait IntoChipSelect<T, POLARITY> {
    /// The chip select.
    fn into_cs(self) -> T;
}

/// A pin used as chip select, with the level that selects the device.
pub struct ChipSelectPolar<'a, P: Output> {
    /// The pin.
    pub pin: &'a P,
    /// The level that selects the device.
    pub polarity: Polarity,
}

impl<'a, P: Output> Clone for ChipSelectPolar<'a, P> {
    fn clone(&self) -> (r: Self)
        ensures
            r == *self,
    {
        ChipSelectPolar { pin: self.pin, polarity: self.polarity }
    }
}

impl<'a, P: Output> Copy for ChipSelectPolar<'a, P> {

}

impl<'a, P: Output, A: ChipSelectActivePolarity> IntoChipSelect<ChipSelectPolar<'a, P>, A> for &'a P {
    fn into_cs(self) -> ChipSelectPolar<'a, P> {
        ChipSelectPolar { pin: self, polarity: A::polarity() }
    }
}

impl<'a, P: Output> ChipSelectPolar<'a, P> {
    /// Deselects the device: sets the pin to the level opposite to its
    /// polarity.
    pub fn deactivate(&self) {
        match self.polarity {
            Polarity::Low => self.pin.set(),
            Polarity::High => self.pin.clear(),
        }
    }

    /// Selects the device: sets the pin to the level of its polarity.
    pub fn activate(&self) {
        match self.polarity {
            Polarity::Low => self.pin.clear(),
            Polarity::High => self.pin.set(),
        }
    }
}

} // verus!
