//! Types for processes: identifiers, states, tasks and memory layout.

use crate::errorcode::ErrorCode;
use crate::ipc::IPCUpcallType;
use crate::process_array::{process_at, process_at_exec, ProcessSlot};
use crate::upcall::UpcallId;
use vstd::prelude::*;

verus! {

/// Userspace process identifier: the index of the process in the kernel's
/// process table and the unique identifier of the process.
///
/// Two identifiers are equal when their unique identifiers are; whether the
/// process still exists is decided against the process table (see
/// [`crate::process_array::process_at`]).
#[derive(Clone, Copy, Debug)]
pub struct ProcessId {
    index: usize,
    identifier: usize,
}

impl PartialEq for ProcessId {
    fn eq(&self, other: &ProcessId) -> (r: bool) {
        self.identifier == other.identifier
    }
}

impl vstd::std_specs::cmp::PartialEqSpecImpl for ProcessId {
    open spec fn obeys_eq_spec() -> bool {
        true
    }

    open spec fn eq_spec(&self, other: &ProcessId) -> bool {
        self.spec_id() == other.spec_id()
    }
}

impl Eq for ProcessId {}

impl ProcessId {
    /// The index of the process in the process table.
    pub closed spec fn spec_index(self) -> usize {
        self.index
    }

    /// The unique identifier of the process.
    pub closed spec fn spec_id(self) -> usize {
        self.identifier
    }

    /// Creates an identifier from the unique identifier of a process and its
    /// index in the process table.
    pub(crate) fn new(identifier: usize, index: usize) -> (r: ProcessId)
        ensures
            r.spec_id() == identifier,
            r.spec_index() == index,
    {
        ProcessId { index, identifier }
    }

    /// Creates an identifier from the unique identifier of a process and its
    /// index in the process table, for implementations of processes outside
    /// this crate.
    pub fn new_external(identifier: usize, index: usize) -> (r: ProcessId)
        ensures
            r.spec_id() == identifier,
            r.spec_index() == index,
    {
        ProcessId { index, identifier }
    }

    /// The unique identifier of the process. This stays the same even after
    /// the process has ended, so it says nothing of whether it still exists.
    pub fn id(&self) -> (r: usize)
        ensures
            r == self.spec_id(),
    {
        self.identifier
    }

    /// The index of the process in the process table, if the process still
    /// exists there.
    pub fn index(&self, processes: &[ProcessSlot]) -> (r: Option<usize>)
        ensures
            r == if process_at(processes@, *self) is Some {
                Some(self.spec_index())
            } else {
                None::<usize>
            },
    {
        match process_at_exec(processes, *self) {
            Some(_) => Some(self.index),
            None => None,
        }
    }

    /// The short identifier of the application the process runs, or
    /// `LocallyUnique` if the process no longer exists.
    pub fn short_app_id(&self, processes: &[ProcessSlot]) -> (r: ShortId)
        ensures
            r == match process_at(processes@, *self) {
                Some(p) => p.short_app_id,
                None => ShortId::LocallyUnique,
            },
    {
        match process_at_exec(processes, *self) {
            Some(process) => process.short_app_id,
            None => ShortId::LocallyUnique,
        }
    }

    /// The start and end of the flash region that the process owns and can
    /// write to, or `(0, 0)` if the process no longer exists.
    pub fn get_editable_flash_range(&self, processes: &[ProcessSlot]) -> (r: (usize, usize))
        ensures
            r == match process_at(processes@, *self) {
                Some(p) => (p.addresses.flash_non_protected_start, p.addresses.flash_end),
                None => (0usize, 0usize),
            },
    {
        match process_at_exec(processes, *self) {
            Some(process) => (
                process.addresses.flash_non_protected_start,
                process.addresses.flash_end,
            ),
            None => (0, 0),
        }
    }

    /// The index of the process in the process table, without checking that
    /// the process is still there.
    pub(crate) fn raw_index(&self) -> (r: usize)
        ensures
            r == self.spec_index(),
    {
        self.index
    }
}

/// A compressed form of an application identifier, unique among the running
/// processes of a board.
///
/// `LocallyUnique` is an abstract identifier that equals no identifier, not
/// even itself. `Fixed` holds a number, never zero.
#[derive(Clone, Copy, Debug)]
pub enum ShortId {
    /// An identifier that is unique without holding a value.
    LocallyUnique,
    /// A fixed, non-zero 32 bit identifier.
    Fixed(u32),
}

impl PartialEq for ShortId {
    fn eq(&self, other: &Self) -> (r: bool) {
        match (self, other) {
            (ShortId::Fixed(a), ShortId::Fixed(b)) => *a == *b,
            _ => false,
        }
    }
}

impl vstd::std_specs::cmp::PartialEqSpecImpl for ShortId {
    open spec fn obeys_eq_spec() -> bool {
        true
    }

    open spec fn eq_spec(&self, other: &ShortId) -> bool {
        short_ids_match(*self, *other)
    }
}

/// Two short identifiers are equal exactly when both are fixed and hold the
/// same number.
pub open spec fn short_ids_match(a: ShortId, b: ShortId) -> bool {
    match (a, b) {
        (ShortId::Fixed(x), ShortId::Fixed(y)) => x == y,
        _ => false,
    }
}

impl Eq for ShortId {}

impl From<Option<u32>> for ShortId {
    fn from(id: Option<u32>) -> (r: ShortId) {
        match id {
            Some(fixed) => {
                if fixed == 0 {
                    ShortId::LocallyUnique
                } else {
                    ShortId::Fixed(fixed)
                }
            },
            None => ShortId::LocallyUnique,
        }
    }
}

impl vstd::std_specs::convert::FromSpecImpl<Option<u32>> for ShortId {
    open spec fn obeys_from_spec() -> bool {
        true
    }

    open spec fn from_spec(id: Option<u32>) -> ShortId {
        match id {
            Some(fixed) => if fixed == 0 {
                ShortId::LocallyUnique
            } else {
                ShortId::Fixed(fixed)
            },
            None => ShortId::LocallyUnique,
        }
    }
}

/// Why a process stopped executing.
#[derive(Clone, Copy, PartialEq, Eq, Structural, Debug)]
pub enum StoppedExecutingReason {
    /// The process is no longer ready to run.
    NoWorkLeft,
    /// The process faulted and was not restarted.
    StoppedFaulted,
    /// The kernel stopped the process.
    Stopped,
    /// The timeslice of the process expired.
    TimesliceExpired,
    /// The kernel preempted the process.
    KernelPreemption,
}

/// The version of a binary, never zero.
#[derive(PartialEq, Eq, PartialOrd, Ord, Debug)]
pub struct BinaryVersion(u32);

impl BinaryVersion {
    #[verifier::type_invariant]
    spec fn non_zero(self) -> bool {
        self.0 != 0
    }

    /// The version number.
    pub closed spec fn spec_value(self) -> u32 {
        self.0
    }

    /// Creates a binary version.
    pub fn new(value: u32) -> (r: Self)
        requires
            value != 0,
        ensures
            r.spec_value() == value,
    {
        BinaryVersion(value)
    }
}

/// Errors related to processes.
#[derive(Clone, Copy, PartialEq, Eq, Structural, Debug)]
pub enum Error {
    /// The process has been removed and no longer exists.
    NoSuchApp,
    /// The process does not have enough memory for the operation.
    OutOfMemory,
    /// The address is not accessible or not valid for the process.
    AddressOutOfBounds,
    /// The process is inactive and the operation is invalid.
    InactiveApp,
    /// Some kernel state is inconsistent.
    KernelError,
    /// Some process data, such as a grant, is already borrowed.
    AlreadyInUse,
}

/// The error code that each process error is reported as.
pub open spec fn error_code_of(err: Error) -> ErrorCode {
    match err {
        Error::OutOfMemory => ErrorCode::NOMEM,
        Error::AddressOutOfBounds => ErrorCode::INVAL,
        Error::NoSuchApp => ErrorCode::INVAL,
        Error::InactiveApp => ErrorCode::FAIL,
        Error::KernelError => ErrorCode::FAIL,
        Error::AlreadyInUse => ErrorCode::FAIL,
    }
}

impl From<Error> for ErrorCode {
    fn from(err: Error) -> (r: ErrorCode) {
        match err {
            Error::OutOfMemory => ErrorCode::NOMEM,
            Error::AddressOutOfBounds => ErrorCode::INVAL,
            Error::NoSuchApp => ErrorCode::INVAL,
            Error::InactiveApp => ErrorCode::FAIL,
            Error::KernelError => ErrorCode::FAIL,
            Error::AlreadyInUse => ErrorCode::FAIL,
        }
    }
}

impl vstd::std_specs::convert::FromSpecImpl<Error> for ErrorCode {
    open spec fn obeys_from_spec() -> bool {
        true
    }

    open spec fn from_spec(err: Error) -> ErrorCode {
        error_code_of(err)
    }
}

/// States a process can be in.
#[derive(Clone, Copy, PartialEq, Eq, Structural, Debug)]
pub enum State {
    /// The process expects to be running code.
    Running,
    /// The process called `yield`.
    Yielded,
    /// The process waits for the given upcall.
    YieldedFor(UpcallId),
    /// The kernel stopped the process, which was in the given state.
    Stopped(StoppedState),
    /// The process faulted and is no longer runnable.
    Faulted,
    /// The process is not running and can be run again.
    Terminated,
}

/// States a process can have been in when it was stopped.
#[derive(Clone, Copy, PartialEq, Eq, Structural, Debug)]
pub enum StoppedState {
    /// The process was running.
    Running,
    /// The process had yielded.
    Yielded,
    /// The process waited for the given upcall.
    YieldedFor(UpcallId),
}

/// The action the kernel takes when a process faults.
#[derive(Clone, Copy, PartialEq, Eq, Structural, Debug)]
pub enum FaultAction {
    /// Crash the whole system.
    Panic,
    /// Clean up and restart the process.
    Restart,
    /// Stop scheduling the process.
    Stop,
}

/// Tasks that can be enqueued for a process.
#[derive(Clone, Copy, Debug)]
pub enum Task {
    /// A function of the process to execute.
    FunctionCall(FunctionCall),
    /// Values to return to a suspended process.
    ReturnValue(ReturnArguments),
    /// An inter-process communication that needs its memory access set up.
    IPC((ProcessId, IPCUpcallType)),
}

/// Whether a function call for a process comes from the kernel or from an
/// upcall of a driver.
#[derive(Clone, Copy, PartialEq, Eq, Structural, Debug)]
pub enum FunctionCallSource {
    /// A function the kernel calls directly, such as the entry point.
    Kernel,
    /// An upcall of a driver.
    Driver(UpcallId),
}

/// A function call to pass to a process, with its four arguments.
#[derive(Clone, Copy, PartialEq, Eq, Structural, Debug)]
pub struct FunctionCall {
    /// Whether the kernel called this directly or this is an upcall.
    pub source: FunctionCallSource,
    /// The first argument.
    pub argument0: usize,
    /// The second argument.
    pub argument1: usize,
    /// The third argument.
    pub argument2: usize,
    /// The fourth argument.
    pub argument3: usize,
    /// The address of the function to execute.
    pub pc: usize,
}

/// Values returned to a process for an upcall without a function.
#[derive(Clone, Copy, PartialEq, Eq, Structural, Debug)]
pub struct ReturnArguments {
    /// The upcall that generated this event.
    pub upcall_id: UpcallId,
    /// The first argument to return.
    pub argument0: usize,
    /// The second argument to return.
    pub argument1: usize,
    /// The third argument to return.
    pub argument2: usize,
}

/// Opaque identifier of a custom grant in the grant region of a process.
#[derive(Clone, Copy, Debug)]
pub struct ProcessCustomGrantIdentifier {
    pub(crate) offset: usize,
}

/// The addresses of the parts of the memory of a process.
#[derive(Clone, Copy, PartialEq, Eq, Structural, Debug)]
pub struct ProcessAddresses {
    /// The start of the region of the process in nonvolatile memory.
    pub flash_start: usize,
    /// The start of the part of that region the process may access.
    pub flash_non_protected_start: usize,
    /// The address right after the part of the binary covered by integrity.
    pub flash_integrity_end: usize,
    /// The address right after the region of the process in nonvolatile
    /// memory.
    pub flash_end: usize,
    /// The start of the region of the process in memory.
    pub sram_start: usize,
    /// The application break: right after the memory the process may access.
    pub sram_app_brk: usize,
    /// The lowest address of any allocated grant.
    pub sram_grant_start: usize,
    /// The address right after the region of the process in memory.
    pub sram_end: usize,
    /// The start of the heap of the process, if the process told.
    pub sram_heap_start: Option<usize>,
    /// The top of the stack of the process, if the process told.
    pub sram_stack_top: Option<usize>,
    /// The lowest stack pointer seen at a system call, if any.
    pub sram_stack_bottom: Option<usize>,
}

/// The sizes of the structures the kernel keeps for a process.
#[derive(Clone, Copy, PartialEq, Eq, Structural, Debug)]
pub struct ProcessSizes {
    /// Bytes used for the grant pointer table.
    pub grant_pointers: usize,
    /// Bytes used for the pending upcall queue.
    pub upcall_list: usize,
    /// Bytes used for the process control block.
    pub process_control_block: usize,
}

/// What the kernel reads of a loaded process.
#[derive(Clone, Debug)]
pub struct ProcessInfo {
    /// The identifier of the process.
    pub processid: ProcessId,
    /// The short identifier of the application the process runs.
    pub short_app_id: ShortId,
    /// The state of the process.
    pub state: State,
    /// The name of the process, as bytes.
    pub name: Vec<u8>,
    /// The memory layout of the process.
    pub addresses: ProcessAddresses,
    /// How many times the process was restarted.
    pub restart_count: usize,
    /// How many system calls the process made.
    pub syscall_count: usize,
    /// How many upcalls of the process were dropped.
    pub dropped_upcall_count: usize,
    /// How many times the timeslice of the process expired.
    pub timeslice_expiration_count: usize,
    /// The writeable flash regions of the header of the process: offset from
    /// the start of its flash, and size.
    pub writeable_flash_regions: Vec<(u32, u32)>,
}

/// The offset and size of a writeable flash region of a process, or `(0, 0)`
/// if it has no region of that index.
pub open spec fn writeable_region(p: ProcessInfo, region_index: usize) -> (u32, u32) {
    if region_index < p.writeable_flash_regions@.len() {
        p.writeable_flash_regions@[region_index as int]
    } else {
        (0u32, 0u32)
    }
}

impl ProcessInfo {
    /// How many writeable flash regions the header of the process defines.
    pub fn number_writeable_flash_regions(&self) -> (r: usize)
        ensures
            r == self.writeable_flash_regions@.len(),
    {
        self.writeable_flash_regions.len()
    }

    /// The offset from the start of flash and the size of a writeable flash
    /// region, or `(0, 0)` if there is no region of that index.
    pub fn get_writeable_flash_region(&self, region_index: usize) -> (r: (u32, u32))
        ensures
            r == writeable_region(*self, region_index),
    {
        if region_index < self.writeable_flash_regions.len() {
            self.writeable_flash_regions[region_index]
        } else {
            (0, 0)
        }
    }
}

} // verus!
