//! Interfaces for UART communication.

use crate::errorcode::ErrorCode;
use vstd::prelude::*;

verus! {

/// Number of stop bits.
#[derive(Clone, Copy, PartialEq, Eq, Structural, Debug)]
pub enum StopBits {
    One,
    Two,
}

/// Parity bit configuration.
#[derive(Clone, Copy, PartialEq, Eq, Structural, Debug)]
pub enum Parity {
    /// No parity bit.
    NONE,
    Odd,
    Even,
}

/// Number of data bits in a character.
#[derive(Clone, Copy, PartialEq, Eq, Structural, Debug)]
pub enum Width {
    Six,
    Seven,
    Eight,
}

/// UART parameters for configuring the bus.
#[derive(Clone, Copy, PartialEq, Eq, Structural, Debug)]
pub struct Parameters {
    pub baud_rate: u32,
    pub width: Width,
    pub parity: Parity,
    pub stop_bits: StopBits,
    pub hw_flow_control: bool,
}

/// UART hardware errors.
#[derive(Clone, Copy, PartialEq, Eq, Structural, Debug)]
pub enum Error {
    /// No error occurred and the command completed successfully.
    NONE,
    /// Parity error during receive.
    ParityError,
    /// Framing error during receive.
    FramingError,
    /// Overrun error during receive.
    OverrunError,
    /// A request was made while a previous one was still in progress.
    RepeatCallError,
    /// The UART was reset while a request was in progress.
    ResetError,
    /// A break condition was detected.
    BreakError,
    /// The request was aborted.
    Aborted,
}

/// A UART that can be configured, transmit and receive.
pub trait Uart<'a>: Configure + Transmit<'a> + Receive<'a> {

}

/// A UART that can transmit and receive.
pub trait UartData<'a>: Transmit<'a> + Receive<'a> {

}

/// A UART that can be configured, transmit and receive with a timeout.
pub trait UartAdvanced<'a>: Configure + Transmit<'a> + ReceiveAdvanced<'a> {

}

/// A client of both transmission and reception.
pub trait Client: ReceiveClient + TransmitClient {

}

impl<'a, T: Configure + Transmit<'a> + Receive<'a>> Uart<'a> for T {

}

impl<'a, T: Transmit<'a> + Receive<'a>> UartData<'a> for T {

}

impl<'a, T: Configure + Transmit<'a> + ReceiveAdvanced<'a>> UartAdvanced<'a> for T {

}

impl<T: ReceiveClient + TransmitClient> Client for T {

}

/// Configuration of the bus.
pub trait Configure {
    /// Configures the UART; fails with `OFF`, `INVAL` or `FAIL`.
    fn configure(&self, params: Parameters) -> Result<(), ErrorCode>;
}

/// Transmission.
pub trait Transmit<'a> {
    /// Sets the client of transmissions.
    fn set_transmit_client(&self, client: &'a dyn TransmitClient);

    /// Transmits the first `tx_len` bytes of the buffer; on failure the
    /// buffer is given back.
    fn transmit_buffer(&self, tx_buffer: &'static mut [u8], tx_len: usize) -> Result<
        (),
        (ErrorCode, &'static mut [u8]),
    >;

    /// Transmits one word.
    fn transmit_word(&self, word: u32) -> Result<(), ErrorCode>;

    /// Aborts an ongoing transmission.
    fn transmit_abort(&self) -> Result<(), ErrorCode>;
}

/// Reception.
pub trait Receive<'a> {
    /// Sets the client of receptions.
    fn set_receive_client(&self, client: &'a dyn ReceiveClient);

    /// Receives `rx_len` bytes into the buffer; on failure the buffer is
    /// given back.
    fn receive_buffer(&self, rx_buffer: &'static mut [u8], rx_len: usize) -> Result<
        (),
        (ErrorCode, &'static mut [u8]),
    >;

    /// Receives one word.
    fn receive_word(&self) -> Result<(), ErrorCode>;

    /// Aborts an ongoing reception.
    fn receive_abort(&self) -> Result<(), ErrorCode>;
}

/// Handles the completion of transmissions.
pub trait TransmitClient {
    /// A word was transmitted.
    fn transmitted_word(&self, rval: Result<(), ErrorCode>) {
    }

    /// A buffer was transmitted.
    fn transmitted_buffer(&self, tx_buffer: &'static mut [u8], tx_len: usize, rval: Result<(), ErrorCode>);
}

/// Handles the completion of receptions.
pub trait ReceiveClient {
    /// A word was received.
    fn received_word(&self, word: u32, rval: Result<(), ErrorCode>, error: Error) {
    }

    /// A buffer was received.
    fn received_buffer(
        &self,
        rx_buffer: &'static mut [u8],
        rx_len: usize,
        rval: Result<(), ErrorCode>,
        error: Error,
    );
}

/// Reception that completes after a timeout between bytes.
pub trait ReceiveAdvanced<'a>: Receive<'a> {
    /// Receives into the buffer until `rx_len` bytes arrived or no byte
    /// arrived for `interbyte_timeout` bit periods.
    fn receive_automatic(
        &self,
        rx_buffer: &'static mut [u8],
        rx_len: usize,
        interbyte_timeout: u8,
    ) -> Result<(), (ErrorCode, &'static mut [u8])>;
}

} // verus!
