//! Interfaces for the CYW43 WiFi chips.

use crate::errorcode::ErrorCode;
use vstd::prelude::*;

verus! {

/// Handles the start of an access point.
pub trait AccessPointClient {
    /// The access point started, or failed to.
    fn started_ap(&self, err: Result<(), ErrorCode>);
}

/// Handles the initialization of the chip.
pub trait WifiCtrlClient {
    /// Initialization completed, with the MAC address of the chip.
    fn init_done(&self, err: Result<[u8; 6], ErrorCode>);
}

/// Handles joining networks.
pub trait StationClient {
    /// Joining completed, or failed.
    fn join_done(&self, err: Result<(), ErrorCode>);
}

/// The security of a network.
#[derive(Clone, Copy, PartialEq, Eq, Structural, Debug)]
pub enum Security {
    Wpa,
    Wpa2,
    Wpa3,
    Wpa2Wpa3,
}

impl Default for Security {
    fn default() -> (r: Self)
        ensures
            r == Security::Wpa2Wpa3,
    {
        Security::Wpa2Wpa3
    }
}

/// The largest size of an SSID.
pub const SSID_SIZE: usize = 32;

/// The largest size of a passphrase.
pub const PS_SIZE: usize = 63;

/// The name of a network: the first `len` bytes of `buf`.
#[derive(Clone, Copy, Debug)]
pub struct Ssid {
    pub buf: [u8; 32],
    pub len: u8,
}

impl Default for Ssid {
    fn default() -> (r: Self)
        ensures
            r.len == 0,
            forall|i: int| 0 <= i < 32 ==> r.buf@[i] == 0u8,
    {
        Ssid { buf: [0u8; 32], len: 0 }
    }
}

/// A passphrase: the first `len` bytes of `buf`.
#[derive(Clone, Copy, Debug)]
pub struct Passphrase {
    pub buf: [u8; 63],
    pub len: u8,
}

impl Default for Passphrase {
    fn default() -> (r: Self)
        ensures
            r.len == 0,
            forall|i: int| 0 <= i < 63 ==> r.buf@[i] == 0u8,
    {
        Passphrase { buf: [0u8; 63], len: 0 }
    }
}

/// Joins networks.
pub trait Station<'a> {
    /// Sets the client.
    fn set_client(&self, client: &'a dyn StationClient);

    /// Joins a network.
    fn join(&self, ssid: Ssid, security: Option<(Security, Passphrase)>) -> Result<(), ErrorCode>;

    /// Leaves the network.
    fn leave(&self) -> Result<(), ErrorCode>;
}

/// Scans for networks.
pub trait Scanner<'a> {
    /// Sets the client.
    fn set_client(&self, client: &'a dyn ScannerClient);

    /// Starts a scan.
    fn start_scan(&self) -> Result<(), ErrorCode>;

    /// Stops the scan.
    fn stop_scan(&self) -> Result<(), ErrorCode>;
}

/// Handles scans.
pub trait ScannerClient {
    /// A network was found.
    fn scanned_network(&self, ssid: Ssid);

    /// The scan completed.
    fn scan_done(&self, err: Result<(), ErrorCode>);
}

/// Runs an access point.
pub trait AccessPoint<'a> {
    /// Sets the client.
    fn set_client(&self, client: &'a dyn AccessPointClient);

    /// Starts an access point.
    fn start_ap(&self, ssid: Ssid, security: Option<(Security, Passphrase)>, channel: u8) -> Result<
        (),
        ErrorCode,
    >;

    /// Stops the access point.
    fn stop_ap(&self) -> Result<(), ErrorCode>;
}

/// Controls the chip.
pub trait WifiCtrl<'a> {
    /// Initializes the chip.
    fn init(&self) -> Result<(), ErrorCode>;
}

} // verus!
