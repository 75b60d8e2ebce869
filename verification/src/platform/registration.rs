//! Filtering of the registrations of processes.

use crate::errorcode::ErrorCode;
use crate::process::ProcessId;
use vstd::prelude::*;

verus! {

/// Decides whether a process may register an identifier.
pub trait RegistrationFilter {
    /// The identifier that processes register.
    type RegistrationIdentifier;

    /// Whether `processid` may register `registrationid`.
    fn filter_registration(
        &self,
        processid: ProcessId,
        registrationid: &Self::RegistrationIdentifier,
    ) -> Result<(), ErrorCode>;
}

} // verus!
