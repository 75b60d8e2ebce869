//! Hooks that a board gives the kernel.

use crate::errorcode::ErrorCode;
use crate::process::ProcessInfo;
use crate::syscall::Syscall;
use crate::upcall::UpcallId;
use vstd::prelude::*;

verus! {

/// Decides whether a process may make a system call.
pub trait SyscallFilter {
    /// Whether the process may make the system call; by default every call
    /// is allowed.
    fn filter_syscall(&self, process: &ProcessInfo, syscall: &Syscall) -> (r: Result<(), ErrorCode>)
        default_ensures
            r is Ok,
    {
        Ok(())
    }
}

/// The filter that allows every system call.
impl SyscallFilter for () {

}

/// Handles the faults of processes on the board.
pub trait ProcessFault {
    /// Tries to recover from the fault of the process; by default it does
    /// not.
    fn process_fault_hook(&self, process: &ProcessInfo) -> (r: Result<(), ()>)
        default_ensures
            r is Err,
    {
        Err(())
    }
}

/// Handling that never recovers a process.
impl ProcessFault for () {

}

/// Called before each switch to a process.
pub trait ContextSwitchCallback {
    /// The kernel is about to switch to the process.
    fn context_switch_hook(&self, process: &ProcessInfo);
}

/// A hook that does nothing.
impl ContextSwitchCallback for () {
    fn context_switch_hook(&self, process: &ProcessInfo) {
    }
}

/// Checks the arguments of upcalls before they are delivered.
pub trait UpcallVerifier {
    /// What to do with the arguments of an upcall.
    fn on_upcall(&self, upcall_id: UpcallId, r0: usize, r1: usize, r2: usize) -> UpcallAction;
}

/// What to do with the arguments of an upcall.
#[derive(Clone, Copy, PartialEq, Eq, Structural, Debug)]
pub enum UpcallAction {
    /// Deliver them as they are.
    Proceed,
    /// Deliver these instead.
    Overwrite { r0: usize, r1: usize, r2: usize },
}

/// A verifier that lets every upcall through.
impl UpcallVerifier for () {
    fn on_upcall(&self, upcall_id: UpcallId, r0: usize, r1: usize, r2: usize) -> (r: UpcallAction)
        ensures
            r == UpcallAction::Proceed,
    {
        UpcallAction::Proceed
    }
}

} // verus!
