//! Interface for 6LoWPAN link addresses and clients.

use crate::returncode::ReturnCode;
use vstd::prelude::*;

verus! {

/// Handles the completion of a transmission.
pub trait TxClient {
    /// A frame was sent, acknowledged or not.
    fn send_done(&self, buf: &'static mut [u8], acked: bool, result: ReturnCode);
}

/// Handles the reception of frames.
pub trait RxClient {
    /// A frame of `len` bytes was received.
    fn receive(&self, buf: &'static mut [u8], len: u8, result: ReturnCode);
}

/// Handles the completion of a configuration.
pub trait ConfigClient {
    /// The configuration was committed.
    fn config_done(&self, result: ReturnCode);
}

/// A link-layer address: short or long.
#[derive(Clone, Copy, Debug)]
pub enum LinkAddress {
    ShortAddress(u16),
    LongAddress([u8; 8]),
}

} // verus!
