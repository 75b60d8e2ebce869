//! Interfaces for SPI controllers and peripherals.

pub mod cs;

use crate::errorcode::ErrorCode;
use vstd::prelude::*;

verus! {

/// The order in which the bits of a byte are sent.
#[derive(Clone, Copy, PartialEq, Eq, Structural, Debug)]
pub enum DataOrder {
    /// The most significant bit first.
    MSBFirst,
    /// The least significant bit first.
    LSBFirst,
}

/// The level of the clock when idle.
#[derive(Clone, Copy, PartialEq, Eq, Structural, Debug)]
pub enum ClockPolarity {
    IdleLow,
    IdleHigh,
}

/// The clock edge on which data is sampled.
#[derive(Clone, Copy, PartialEq, Eq, Structural, Debug)]
pub enum ClockPhase {
    SampleLeading,
    SampleTrailing,
}

/// Handles the completion of SPI transfers of a controller.
pub trait SpiMasterClient {
    /// A transfer completed; `status` holds the number of bytes transferred
    /// or the error.
    fn read_write_done(
        &self,
        write_buffer: &'static mut [u8],
        read_buffer: Option<&'static mut [u8]>,
        status: Result<usize, ErrorCode>,
    );
}

/// An SPI controller.
pub trait SpiMaster<'a> {
    /// The chip select of a device on the bus.
    type ChipSelect: Copy;

    /// Initializes the controller.
    fn init(&self) -> Result<(), ErrorCode>;

    /// Sets the client of transfers.
    fn set_client(&self, client: &'a dyn SpiMasterClient);

    /// Whether a transfer is in progress.
    fn is_busy(&self) -> bool;

    /// Writes the write buffer and, if given, reads into the read buffer;
    /// on failure the buffers are given back.
    fn read_write_bytes(
        &self,
        write_buffer: &'static mut [u8],
        read_buffer: Option<&'static mut [u8]>,
    ) -> Result<(), (ErrorCode, &'static mut [u8], Option<&'static mut [u8]>)>;

    /// Writes one byte.
    fn write_byte(&self, val: u8) -> Result<(), ErrorCode>;

    /// Reads one byte.
    fn read_byte(&self) -> Result<u8, ErrorCode>;

    /// Writes one byte and reads one.
    fn read_write_byte(&self, val: u8) -> Result<u8, ErrorCode>;

    /// Selects the device to talk to.
    fn specify_chip_select(&self, cs: Self::ChipSelect) -> Result<(), ErrorCode>;

    /// Sets the clock rate and returns the rate actually set.
    fn set_rate(&self, rate: u32) -> Result<u32, ErrorCode>;

    /// The clock rate.
    fn get_rate(&self) -> u32;

    /// Sets the clock polarity.
    fn set_polarity(&self, polarity: ClockPolarity) -> Result<(), ErrorCode>;

    /// The clock polarity.
    fn get_polarity(&self) -> ClockPolarity;

    /// Sets the clock phase.
    fn set_phase(&self, phase: ClockPhase) -> Result<(), ErrorCode>;

    /// The clock phase.
    fn get_phase(&self) -> ClockPhase;

    /// Holds the chip select low between transfers.
    fn hold_low(&self);

    /// Releases the chip select between transfers.
    fn release_low(&self);
}

/// One device on an SPI bus, as seen by its driver.
pub trait SpiMasterDevice<'a> {
    /// Sets the client of transfers.
    fn set_client(&self, client: &'a dyn SpiMasterClient);

    /// Configures the bus for this device.
    fn configure(&self, cpol: ClockPolarity, cpal: ClockPhase, rate: u32) -> Result<(), ErrorCode>;

    /// Writes the write buffer and, if given, reads into the read buffer;
    /// on failure the buffers are given back.
    fn read_write_bytes(
        &self,
        write_buffer: &'static mut [u8],
        read_buffer: Option<&'static mut [u8]>,
    ) -> Result<(), (ErrorCode, &'static mut [u8], Option<&'static mut [u8]>)>;

    /// Sets the clock rate.
    fn set_rate(&self, rate: u32) -> Result<(), ErrorCode>;

    /// The clock rate.
    fn get_rate(&self) -> u32;

    /// Sets the clock polarity.
    fn set_polarity(&self, polarity: ClockPolarity) -> Result<(), ErrorCode>;

    /// The clock polarity.
    fn get_polarity(&self) -> ClockPolarity;

    /// Sets the clock phase.
    fn set_phase(&self, phase: ClockPhase) -> Result<(), ErrorCode>;

    /// The clock phase.
    fn get_phase(&self) -> ClockPhase;
}

/// Handles the events of an SPI peripheral.
pub trait SpiSlaveClient {
    /// The chip select was asserted.
    fn chip_selected(&self);

    /// A transfer of `len` bytes completed.
    fn read_write_done(
        &self,
        write_buffer: Option<&'static mut [u8]>,
        read_buffer: Option<&'static mut [u8]>,
        len: usize,
        status: Result<(), ErrorCode>,
    );
}

/// An SPI peripheral.
pub trait SpiSlave<'a> {
    /// Initializes the peripheral.
    fn init(&self) -> Result<(), ErrorCode>;

    /// Whether a client is set.
    fn has_client(&self) -> bool;

    /// Sets or removes the client.
    fn set_client(&self, client: Option<&'a dyn SpiSlaveClient>);

    /// Sets the byte written when no buffer is given.
    fn set_write_byte(&self, write_byte: u8);

    /// Transfers `len` bytes; on failure the buffers are given back.
    fn read_write_bytes(
        &self,
        write_buffer: Option<&'static mut [u8]>,
        read_buffer: Option<&'static mut [u8]>,
        len: usize,
    ) -> Result<(), (ErrorCode, Option<&'static mut [u8]>, Option<&'static mut [u8]>)>;

    /// Sets the clock polarity.
    fn set_polarity(&self, polarity: ClockPolarity) -> Result<(), ErrorCode>;

    /// The clock polarity.
    fn get_polarity(&self) -> ClockPolarity;

    /// Sets the clock phase.
    fn set_phase(&self, phase: ClockPhase) -> Result<(), ErrorCode>;

    /// The clock phase.
    fn get_phase(&self) -> ClockPhase;
}

/// An SPI peripheral, as seen by its driver.
pub trait SpiSlaveDevice<'a> {
    /// Sets the client.
    fn set_client(&self, client: &'a dyn SpiSlaveClient);

    /// Configures the clock.
    fn configure(&self, cpol: ClockPolarity, cpal: ClockPhase) -> Result<(), ErrorCode>;

    /// Transfers `len` bytes; on failure the buffers are given back.
    fn read_write_bytes(
        &self,
        write_buffer: Option<&'static mut [u8]>,
        read_buffer: Option<&'static mut [u8]>,
        len: usize,
    ) -> Result<(), (ErrorCode, Option<&'static mut [u8]>, Option<&'static mut [u8]>)>;

    /// Sets the clock polarity.
    fn set_polarity(&self, polarity: ClockPolarity) -> Result<(), ErrorCode>;

    /// The clock polarity.
    fn get_polarity(&self) -> ClockPolarity;

    /// Sets the clock phase.
    fn set_phase(&self, phase: ClockPhase) -> Result<(), ErrorCode>;

    /// The clock phase.
    fn get_phase(&self) -> ClockPhase;
}

} // verus!
