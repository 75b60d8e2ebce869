//! Return codes of the older kernel interfaces.

use vstd::prelude::*;

verus! {

/// Standard return codes of the older kernel interfaces.
#[derive(Clone, Copy, PartialEq, Eq, Structural, Debug)]
pub enum ReturnCode {
    /// Success value must be positive.
    SuccessWithValue { value: usize },
    /// Operation completed successfully.
    SUCCESS,
    /// Generic failure condition.
    FAIL,
    /// Underlying system is busy; retry.
    EBUSY,
    /// The state requested is already set.
    EALREADY,
    /// The component is powered down.
    EOFF,
    /// Reservation required before use.
    ERESERVE,
    /// An invalid parameter was passed.
    EINVAL,
    /// Parameter passed was too large.
    ESIZE,
    /// Operation canceled by a call.
    ECANCEL,
    /// Memory required not available.
    ENOMEM,
    /// Operation is not supported.
    ENOSUPPORT,
    /// Device does not exist.
    ENODEVICE,
    /// Device is not physically installed.
    EUNINSTALLED,
    /// Packet transmission not acknowledged.
    ENOACK,
}

} // verus!
