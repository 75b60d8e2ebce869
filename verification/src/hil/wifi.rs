//! Interfaces for WiFi controllers.

use crate::errorcode::ErrorCode;
use vstd::prelude::*;

verus! {

/// The security of a network.
#[derive(Clone, Copy, PartialEq, Eq, Structural, Debug)]
pub enum Security {
    Wep,
    Wpa,
    Wpa2,
    Wpa3,
}

/// The state of the connection.
#[derive(Clone, Copy, Debug)]
pub enum Status {
    Connected(Network),
    Connecting(Network),
    Disconnected,
    Disconnecting,
}

/// A network.
#[derive(Clone, Copy, Debug)]
pub struct Network {
    pub ssid: [u8; 32],
    pub rssi: u32,
    pub security: Option<Security>,
}

/// Connects to networks.
pub trait Controller {
    /// Connects to a network.
    fn connect(&self, network: Network) -> Result<(), ErrorCode>;

    /// Disconnects.
    fn disconnect(&self) -> Result<(), ErrorCode>;

    /// The state of the connection.
    fn get_status(&self) -> Status;
}

/// Scans for networks.
pub trait Scanner<'a> {
    /// Starts a scan.
    fn scan(&self) -> Result<(), (ErrorCode, &'a [Network])>;
}

/// Handles the completion of connections.
pub trait ControllerClient {
    /// A command completed.
    fn command_complete(&self, network: Network, status: Result<(), ErrorCode>);
}

/// Handles the completion of scans.
pub trait ScannerClient {
    /// A scan found `len` networks.
    fn scan_done(&self, networks: &[Network], len: usize, status: Result<(), ErrorCode>);
}

} // verus!
