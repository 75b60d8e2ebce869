//! Interfaces for WiFiNINA modules.

use crate::errorcode::ErrorCode;
use vstd::prelude::*;

verus! {

/// The security of a network.
#[derive(Clone, Copy, PartialEq, Eq, Structural, Debug)]
pub enum Security {
    Wep,
    Wpa,
    Wpa2,
    Wpa3,
}

/// The state of the station.
#[derive(Clone, Copy, Debug)]
pub enum StationStatus {
    Off,
    Connected(Network),
    Connecting(Network),
    Disconnected,
    Disconnecting,
}

/// The state of the access point.
#[derive(Clone, Copy, Debug)]
pub enum AccessPointStatus {
    Off,
    NoConfiguration,
    Starting(Network),
    Started(Network),
    Stopped,
    Stopping,
}

/// The name of a network: the first `len` bytes of `value`.
#[derive(Clone, Copy, Debug)]
pub struct Ssid {
    pub value: [u8; 32],
    pub len: u8,
}

impl Default for Ssid {
    fn default() -> (r: Self)
        ensures
            r.len == 0,
            forall|i: int| 0 <= i < 32 ==> r.value@[i] == 0u8,
    {
        Ssid { value: [0u8; 32], len: 0 }
    }
}

/// A pre-shared key: the first `len` bytes of `value`.
#[derive(Clone, Copy, Debug)]
pub struct Psk {
    pub value: [u8; 63],
    pub len: u8,
}

impl Default for Psk {
    fn default() -> (r: Self)
        ensures
            r.len == 0,
            forall|i: int| 0 <= i < 63 ==> r.value@[i] == 0u8,
    {
        Psk { value: [0u8; 63], len: 0 }
    }
}

/// A network.
#[derive(Clone, Copy, Debug)]
pub struct Network {
    pub ssid: Ssid,
    pub rssi: u8,
    pub security: Option<Security>,
}

impl Default for Network {
    fn default() -> (r: Self)
        ensures
            r.ssid.len == 0,
            forall|i: int| 0 <= i < 32 ==> r.ssid.value@[i] == 0u8,
            r.rssi == 0,
            r.security is None,
    {
        Network { ssid: Ssid::default(), rssi: 0, security: None }
    }
}

/// Connects to networks.
pub trait Station<'a> {
    /// Connects to a network.
    fn connect(&self, ssid: Ssid, psk: Option<Psk>) -> Result<(), ErrorCode>;

    /// Disconnects.
    fn disconnect(&self) -> Result<(), ErrorCode>;

    /// Asks for the state of the station.
    fn get_status(&self) -> Result<(), ErrorCode>;

    /// Sets the client.
    fn set_client(&self, client: &'a dyn StationClient);
}

/// Scans for networks.
pub trait Scanner<'a> {
    /// Starts a scan.
    fn scan(&self) -> Result<(), ErrorCode>;

    /// Sets the client.
    fn set_client(&self, client: &'a dyn ScannerClient);
}

/// Runs an access point.
pub trait AccessPoint {
    /// Configures the access point.
    fn configure(&self, ssid: Ssid, security: Security) -> Result<(), ErrorCode>;

    /// Starts the access point.
    fn start(&self) -> Result<(), ErrorCode>;

    /// Stops the access point.
    fn stop(&self) -> Result<(), ErrorCode>;

    /// The state of the access point.
    fn get_status(&self) -> AccessPointStatus;
}

/// Handles the commands of the station.
pub trait StationClient {
    /// A command completed.
    fn command_complete(&self, status: Result<StationStatus, ErrorCode>);
}

/// Handles scans.
pub trait ScannerClient {
    /// A scan completed.
    fn scan_done<'a>(&self, status: Result<&'a [Network], ErrorCode>);
}

/// Handles the commands of the access point.
pub trait AccessPointClient {
    /// A command completed.
    fn command_complete(&self, status: Result<Network, ErrorCode>);
}

} // verus!
