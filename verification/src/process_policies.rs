//! Policies that boards choose for their processes.

use crate::process::{FaultAction, ProcessInfo};
use vstd::prelude::*;

verus! {

/// Decides what the kernel does when a process faults.
pub trait ProcessFaultPolicy {
    /// The action to take for the faulting process.
    fn action(&self, process: &ProcessInfo) -> FaultAction;
}

} // verus!
