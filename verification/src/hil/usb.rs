//! Interface for USB controllers.

use vstd::prelude::*;

verus! {

/// A USB device controller.
pub trait UsbController<'a> {
    /// Sets the buffer of the control endpoint.
    fn endpoint_set_ctrl_buffer(&self, buf: &'a [u8]);

    /// Sets the buffer of an IN endpoint.
    fn endpoint_set_in_buffer(&self, endpoint: usize, buf: &'a [u8]);

    /// Sets the buffer of an OUT endpoint.
    fn endpoint_set_out_buffer(&self, endpoint: usize, buf: &'a [u8]);

    /// Enables the controller as a device of the given speed.
    fn enable_as_device(&self, speed: DeviceSpeed);

    /// Attaches to the bus.
    fn attach(&self);

    /// Detaches from the bus.
    fn detach(&self);

    /// Sets the address of the device.
    fn set_address(&self, addr: u16);

    /// Enables the address set.
    fn enable_address(&self);

    /// Enables an IN endpoint.
    fn endpoint_in_enable(&self, transfer_type: TransferType, endpoint: usize);

    /// Enables an OUT endpoint.
    fn endpoint_out_enable(&self, transfer_type: TransferType, endpoint: usize);

    /// Enables an endpoint in both directions.
    fn endpoint_in_out_enable(&self, transfer_type: TransferType, endpoint: usize);

    /// Resumes an IN endpoint.
    fn endpoint_resume_in(&self, endpoint: usize);

    /// Resumes an OUT endpoint.
    fn endpoint_resume_out(&self, endpoint: usize);

    /// Sets the configuration value.
    fn set_config(&self, configuration_value: u8);

    /// Resets an IN endpoint.
    fn endpoint_in_reset(&self, endpoint: usize);

    /// Resets an OUT endpoint.
    fn endpoint_out_reset(&self, endpoint: usize);
}

/// The type of a transfer.
#[derive(Clone, Copy, PartialEq, Eq, Structural, Debug)]
pub enum TransferType {
    Control,
    Isochronous,
    Bulk,
    Interrupt,
}

/// The speed of a device.
#[derive(Clone, Copy, PartialEq, Eq, Structural, Debug)]
pub enum DeviceSpeed {
    Full,
    Low,
}

/// Handles the events of a USB controller.
pub trait Client<'a> {
    /// The controller was enabled.
    fn enable(&'a self);

    /// The device was attached.
    fn attach(&'a self);

    /// The bus was reset.
    fn bus_reset(&'a self);

    /// A setup packet arrived on a control endpoint.
    fn ctrl_setup(&'a self, endpoint: usize) -> CtrlSetupResult;

    /// The host requests data on a control endpoint.
    fn ctrl_in(&'a self, endpoint: usize) -> CtrlInResult;

    /// Data arrived on a control endpoint.
    fn ctrl_out(&'a self, endpoint: usize, packet_bytes: u32) -> CtrlOutResult;

    /// The status stage of a control transfer.
    fn ctrl_status(&'a self, endpoint: usize);

    /// The status stage completed.
    fn ctrl_status_complete(&'a self, endpoint: usize);

    /// The host requests a packet.
    fn packet_in(&'a self, transfer_type: TransferType, endpoint: usize) -> InResult;

    /// A packet arrived.
    fn packet_out(&'a self, transfer_type: TransferType, endpoint: usize, packet_bytes: u32) -> OutResult;

    /// A packet was transmitted.
    fn packet_transmitted(&'a self, endpoint: usize);
}

/// The outcome of a setup packet.
#[derive(Clone, Copy, PartialEq, Eq, Structural, Debug)]
pub enum CtrlSetupResult {
    OK,
    OkSetAddress,
    ErrBadLength,
    ErrNoParse,
    ErrNonstandardRequest,
    ErrUnrecognizedDescriptorType,
    ErrUnrecognizedRequestType,
    ErrNoDeviceQualifier,
    ErrInvalidDeviceIndex,
    ErrInvalidConfigurationIndex,
    ErrInvalidInterfaceIndex,
    ErrInvalidStringIndex,
    ErrGeneric,
}

/// The outcome of a request for control data.
#[derive(Clone, Copy, PartialEq, Eq, Structural, Debug)]
pub enum CtrlInResult {
    /// A packet of this size is ready; whether it is the last.
    Packet(usize, bool),
    Delay,
    Error,
}

/// The outcome of control data.
#[derive(Clone, Copy, PartialEq, Eq, Structural, Debug)]
pub enum CtrlOutResult {
    OK,
    Delay,
    Halted,
}

/// The outcome of a request for a packet.
#[derive(Clone, Copy, PartialEq, Eq, Structural, Debug)]
pub enum InResult {
    /// A packet of this size is ready.
    Packet(usize),
    Delay,
    Error,
}

/// The outcome of a packet.
#[derive(Clone, Copy, PartialEq, Eq, Structural, Debug)]
pub enum OutResult {
    OK,
    Delay,
    Error,
}

} // verus!
