//! Values returned to processes by system calls.

use crate::errorcode::ErrorCode;
use crate::metaptr::MetaPtr;
use vstd::prelude::*;

verus! {

/// A system call a process makes, with its arguments.
#[derive(Clone, Copy, PartialEq, Eq, Structural, Debug)]
pub enum Syscall {
    /// Yield the processor.
    Yield { which: usize, param_a: usize, param_b: usize },
    /// Register an upcall with a driver.
    Subscribe { driver_number: usize, subdriver_number: usize, upcall_ptr: usize, appdata: usize },
    /// Send a command to a driver.
    Command { driver_number: usize, subdriver_number: usize, arg0: usize, arg1: usize },
    /// Share a read-write buffer with a driver.
    ReadWriteAllow {
        driver_number: usize,
        subdriver_number: usize,
        allow_address: usize,
        allow_size: usize,
    },
    /// Share a buffer that the process may read while the driver writes it.
    UserspaceReadableAllow {
        driver_number: usize,
        subdriver_number: usize,
        allow_address: usize,
        allow_size: usize,
    },
    /// Share a read-only buffer with a driver.
    ReadOnlyAllow {
        driver_number: usize,
        subdriver_number: usize,
        allow_address: usize,
        allow_size: usize,
    },
    /// A memory operation.
    Memop { operand: usize, arg0: usize },
    /// End or restart the process.
    Exit { which: usize, completion_code: usize },
}

/// What a system call returns to the process.
#[derive(Clone, Copy, PartialEq, Eq, Structural, Debug)]
pub enum SyscallReturn {
    /// Generic error case.
    Failure(ErrorCode),
    /// Generic success case.
    Success,
    /// Success with a 32 bit value.
    SuccessU32(u32),
    /// Success with an address.
    SuccessAddr(usize),
    /// Success with a pointer.
    SuccessPtr(MetaPtr),
}

/// What a driver's command returns to the process.
#[derive(Clone, Copy, PartialEq, Eq, Structural, Debug)]
pub struct CommandReturn(SyscallReturn);

impl CommandReturn {
    /// The system call return value.
    pub closed spec fn spec_value(self) -> SyscallReturn {
        self.0
    }

    /// Command success.
    pub fn success() -> (r: Self)
        ensures
            r.spec_value() == SyscallReturn::Success,
    {
        CommandReturn(SyscallReturn::Success)
    }

    /// Command success with a 32 bit value.
    pub fn success_u32(value: u32) -> (r: Self)
        ensures
            r.spec_value() == SyscallReturn::SuccessU32(value),
    {
        CommandReturn(SyscallReturn::SuccessU32(value))
    }

    /// Command failure with an error code.
    pub fn failure(error: ErrorCode) -> (r: Self)
        ensures
            r.spec_value() == SyscallReturn::Failure(error),
    {
        CommandReturn(SyscallReturn::Failure(error))
    }

    /// The system call return value.
    pub fn into_inner(self) -> (r: SyscallReturn)
        ensures
            r == self.spec_value(),
    {
        self.0
    }
}

} // verus!
