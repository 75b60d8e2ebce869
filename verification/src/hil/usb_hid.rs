//! Interface for USB human interface devices.

use crate::errorcode::ErrorCode;
use vstd::prelude::*;

verus! {

/// The buffer of a report.
pub trait UsbHidType: Copy + Clone + Sized {

}

impl UsbHidType for [u8; 64] {

}

impl UsbHidType for [u8; 32] {

}

impl UsbHidType for [u8; 16] {

}

impl UsbHidType for [u8; 8] {

}

/// Handles the completion of reports.
pub trait Client<'a, T: UsbHidType> {
    /// A report was received.
    fn packet_received(&'a self, result: Result<(), ErrorCode>, buffer: &'static mut T, endpoint: usize);

    /// A report was transmitted.
    fn packet_transmitted(&'a self, result: Result<(), ErrorCode>, buffer: &'static mut T, endpoint: usize);
}

/// A human interface device.
pub trait UsbHid<'a, T: UsbHidType> {
    /// Sends a report; on failure the buffer is given back.
    fn send_buffer(&'a self, send: &'static mut T) -> Result<usize, (ErrorCode, &'static mut T)>;

    /// Cancels a send and gives the buffer back.
    fn send_cancel(&'a self) -> Result<&'static mut T, ErrorCode>;

    /// Receives a report; on failure the buffer is given back.
    fn receive_buffer(&'a self, recv: &'static mut T) -> Result<(), (ErrorCode, &'static mut T)>;

    /// Cancels a reception and gives the buffer back.
    fn receive_cancel(&'a self) -> Result<&'static mut T, ErrorCode>;
}

} // verus!
