//! Buffers of process memory shared with the kernel.
//!
//! A process shares read-write buffers from its memory and read-only
//! buffers from its memory or flash with the `allow` system calls. A buffer
//! is its start address, its length and the process that shared it; a
//! default buffer belongs to no process. The length of a buffer reads as 0
//! once the process that shared it no longer exists.

use crate::process::ProcessId;
use crate::process_array::{process_at, process_at_exec, ProcessSlot};
use vstd::prelude::*;

verus! {

/// The length a buffer reads as: its length while the process that shared
/// it exists, else 0.
pub open spec fn live_len(processes: Seq<ProcessSlot>, process_id: Option<ProcessId>, len: usize) -> usize {
    match process_id {
        Some(pid) => if process_at(processes, pid) is Some {
            len
        } else {
            0
        },
        None => 0,
    }
}

/// The address a buffer reports: 0 for an empty buffer, whatever address
/// the process gave.
pub open spec fn reported_ptr(ptr: usize, len: usize) -> usize {
    if len == 0 {
        0
    } else {
        ptr
    }
}

fn live_len_exec(processes: &[ProcessSlot], process_id: Option<ProcessId>, len: usize) -> (r: usize)
    ensures
        r == live_len(processes@, process_id, len),
{
    match process_id {
        Some(pid) => match process_at_exec(processes, pid) {
            Some(_) => len,
            None => 0,
        },
        None => 0,
    }
}

/// A readable region of process memory.
pub trait Read {
    /// The length of the region, 0 once the process no longer exists.
    fn len(&self, processes: &[ProcessSlot]) -> usize;

    /// The address of the first byte of the region, 0 for an empty region.
    fn ptr(&self) -> usize;
}

/// A readable and writable region of process memory.
pub trait ReadWrite: Read {

}

/// A buffer of process memory that the process shared for reading and
/// writing.
#[derive(Debug)]
pub struct ReadWriteAppSlice {
    ptr: usize,
    len: usize,
    process_id: Option<ProcessId>,
}

impl ReadWriteAppSlice {
    /// The start address the process gave.
    pub closed spec fn spec_ptr(self) -> usize {
        self.ptr
    }

    /// The length the process gave.
    pub closed spec fn spec_len(self) -> usize {
        self.len
    }

    /// The process that shared the buffer, if any.
    pub closed spec fn spec_process_id(self) -> Option<ProcessId> {
        self.process_id
    }

    /// A buffer that a process shared.
    pub(crate) fn new(ptr: usize, len: usize, process_id: ProcessId) -> (r: Self)
        ensures
            r.spec_ptr() == ptr,
            r.spec_len() == len,
            r.spec_process_id() == Some(process_id),
    {
        ReadWriteAppSlice { ptr, len, process_id: Some(process_id) }
    }

    /// A buffer that a process shared, for implementations of processes
    /// outside this crate.
    pub fn new_external(ptr: usize, len: usize, process_id: ProcessId) -> (r: Self)
        ensures
            r.spec_ptr() == ptr,
            r.spec_len() == len,
            r.spec_process_id() == Some(process_id),
    {
        Self::new(ptr, len, process_id)
    }

    /// The start address and length of the buffer.
    pub(crate) fn consume(self) -> (r: (usize, usize))
        ensures
            r == (self.spec_ptr(), self.spec_len()),
    {
        (self.ptr, self.len)
    }

    /// The empty buffer of no process.
    pub fn const_default() -> (r: Self)
        ensures
            r.spec_ptr() == 0,
            r.spec_len() == 0,
            r.spec_process_id() is None,
    {
        ReadWriteAppSlice { ptr: 0, len: 0, process_id: None }
    }
}

impl Default for ReadWriteAppSlice {
    fn default() -> (r: Self)
        ensures
            r.spec_ptr() == 0,
            r.spec_len() == 0,
            r.spec_process_id() is None,
    {
        Self::const_default()
    }
}

impl Read for ReadWriteAppSlice {
    fn len(&self, processes: &[ProcessSlot]) -> (r: usize)
        ensures
            r == live_len(processes@, self.spec_process_id(), self.spec_len()),
    {
        live_len_exec(processes, self.process_id, self.len)
    }

    fn ptr(&self) -> (r: usize)
        ensures
            r == reported_ptr(self.spec_ptr(), self.spec_len()),
    {
        if self.len == 0 {
            0
        } else {
            self.ptr
        }
    }
}

impl ReadWrite for ReadWriteAppSlice {

}

/// A buffer of process memory or flash that the process shared for reading.
#[derive(Debug)]
pub struct ReadOnlyAppSlice {
    ptr: usize,
    len: usize,
    process_id: Option<ProcessId>,
}

impl ReadOnlyAppSlice {
    /// The start address the process gave.
    pub closed spec fn spec_ptr(self) -> usize {
        self.ptr
    }

    /// The length the process gave.
    pub closed spec fn spec_len(self) -> usize {
        self.len
    }

    /// The process that shared the buffer, if any.
    pub closed spec fn spec_process_id(self) -> Option<ProcessId> {
        self.process_id
    }

    /// The process that shared the buffer, if any.
    pub(crate) fn process_id(&self) -> (r: Option<ProcessId>)
        ensures
            r == self.spec_process_id(),
    {
        self.process_id
    }

    /// A buffer that a process shared.
    pub(crate) fn new(ptr: usize, len: usize, process_id: ProcessId) -> (r: Self)
        ensures
            r.spec_ptr() == ptr,
            r.spec_len() == len,
            r.spec_process_id() == Some(process_id),
    {
        ReadOnlyAppSlice { ptr, len, process_id: Some(process_id) }
    }

    /// A buffer that a process shared, for implementations of processes
    /// outside this crate.
    pub fn new_external(ptr: usize, len: usize, process_id: ProcessId) -> (r: Self)
        ensures
            r.spec_ptr() == ptr,
            r.spec_len() == len,
            r.spec_process_id() == Some(process_id),
    {
        Self::new(ptr, len, process_id)
    }

    /// The start address and length of the buffer.
    pub(crate) fn consume(self) -> (r: (usize, usize))
        ensures
            r == (self.spec_ptr(), self.spec_len()),
    {
        (self.ptr, self.len)
    }
}

impl Default for ReadOnlyAppSlice {
    fn default() -> (r: Self)
        ensures
            r.spec_ptr() == 0,
            r.spec_len() == 0,
            r.spec_process_id() is None,
    {
        ReadOnlyAppSlice { ptr: 0, len: 0, process_id: None }
    }
}

impl Read for ReadOnlyAppSlice {
    fn len(&self, processes: &[ProcessSlot]) -> (r: usize)
        ensures
            r == live_len(processes@, self.spec_process_id(), self.spec_len()),
    {
        live_len_exec(processes, self.process_id, self.len)
    }

    fn ptr(&self) -> (r: usize)
        ensures
            r == reported_ptr(self.spec_ptr(), self.spec_len()),
    {
        if self.len == 0 {
            0
        } else {
            self.ptr
        }
    }
}

} // verus!
