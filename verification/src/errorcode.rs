//! Standard errors in the kernel.

use vstd::prelude::*;

verus! {

/// Standard errors in the kernel, as returned to userspace.
#[derive(Clone, Copy, PartialEq, Eq, Structural, Debug)]
pub enum ErrorCode {
    /// Generic failure condition.
    FAIL,
    /// Underlying system is busy; retry.
    BUSY,
    /// The state requested is already set.
    ALREADY,
    /// The component is powered down.
    OFF,
    /// Reservation required before use.
    RESERVE,
    /// An invalid parameter was passed.
    INVAL,
    /// Parameter passed was too large.
    SIZE,
    /// Operation canceled by a call.
    CANCEL,
    /// Memory required not available.
    NOMEM,
    /// Operation is not supported.
    NOSUPPORT,
    /// Device is not available.
    NODEVICE,
    /// Device is not physically installed.
    UNINSTALLED,
    /// Packet transmission not acknowledged.
    NOACK,
}

} // verus!
