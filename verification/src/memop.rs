//! The memop family of system calls.
//!
//! A memop call either reads the memory layout of the calling process or
//! asks the process to change it. The decision is a function from the call
//! and the process to a [`MemopAction`]: a value to return, or a change that
//! the process makes before a value is returned.

use crate::errorcode::ErrorCode;
use crate::metaptr::{MetaPermissions, MetaPtr};
use crate::process::{writeable_region, Error, ProcessInfo};
use crate::syscall::SyscallReturn;
use vstd::prelude::*;

verus! {

/// What the kernel does for a memop call.
#[derive(Clone, Copy, PartialEq, Eq, Structural, Debug)]
pub enum MemopAction {
    /// Return this value to the process.
    Return(SyscallReturn),
    /// Move the program break of the process to this address; what is
    /// returned is [`brk_return`] of the outcome.
    Brk(usize),
    /// Move the program break of the process by this many bytes; what is
    /// returned is [`sbrk_return`] of the outcome.
    Sbrk(isize),
    /// Record where the stack of the process starts, then return `Success`.
    UpdateStackStart(usize),
    /// Record where the heap of the process starts, then return `Success`.
    UpdateHeapStart(usize),
}

/// The pointer a memop call returns for an address.
pub open spec fn ptr_return(address: usize) -> SyscallReturn {
    SyscallReturn::SuccessPtr(MetaPtr::spec_new(address))
}

/// What the kernel does for memop call `op_type` with argument `r1` from
/// process `p`.
pub open spec fn memop_action(p: ProcessInfo, op_type: usize, r1: usize) -> MemopAction {
    let a = p.addresses;
    let region = writeable_region(p, r1);
    if op_type == 0 {
        MemopAction::Brk(r1)
    } else if op_type == 1 {
        MemopAction::Sbrk(r1 as isize)
    } else if op_type == 2 {
        MemopAction::Return(ptr_return(a.sram_start))
    } else if op_type == 3 {
        MemopAction::Return(ptr_return(a.sram_end))
    } else if op_type == 4 {
        MemopAction::Return(ptr_return(a.flash_start))
    } else if op_type == 5 {
        MemopAction::Return(ptr_return(a.flash_end))
    } else if op_type == 6 {
        MemopAction::Return(SyscallReturn::SuccessAddr(a.sram_grant_start))
    } else if op_type == 7 {
        MemopAction::Return(SyscallReturn::SuccessU32(p.writeable_flash_regions@.len() as u32))
    } else if op_type == 8 || op_type == 9 {
        if region.1 == 0 {
            MemopAction::Return(SyscallReturn::Failure(ErrorCode::FAIL))
        } else if op_type == 8 {
            MemopAction::Return(ptr_return((a.flash_start + region.0) as usize))
        } else {
            MemopAction::Return(ptr_return((a.flash_start + region.0 + region.1) as usize))
        }
    } else if op_type == 10 {
        MemopAction::UpdateStackStart(r1)
    } else if op_type == 11 {
        MemopAction::UpdateHeapStart(r1)
    } else {
        MemopAction::Return(SyscallReturn::Failure(ErrorCode::NOSUPPORT))
    }
}

/// Whether the memory layout of the process is ordered as the memop calls
/// that report it expect: its memory and flash regions do not end before
/// they start, and its break lies in its memory.
pub open spec fn layout_ordered(p: ProcessInfo) -> bool {
    &&& p.addresses.sram_start <= p.addresses.sram_app_brk <= p.addresses.sram_end
    &&& p.addresses.flash_start <= p.addresses.flash_end
}

/// Handles memop call `op_type` with argument `r1` from process `process`.
///
/// - `0`: move the program break to `r1`.
/// - `1`: move the program break by `r1` bytes and return the previous one.
/// - `2`, `3`: the start and the end of the memory of the process.
/// - `4`, `5`: the start and the end of the flash of the process.
/// - `6`: the lowest address of the grant region.
/// - `7`: the number of writeable flash regions.
/// - `8`, `9`: the start and the end of writeable flash region `r1`, or a
///   failure if there is none.
/// - `10`, `11`: record where the stack and the heap start.
/// - anything else is not supported.
pub fn memop(process: &ProcessInfo, op_type: usize, r1: usize) -> (r: MemopAction)
    requires
        2 <= op_type <= 5 ==> layout_ordered(*process),
        (op_type == 8 || op_type == 9) ==> process.addresses.flash_start + writeable_region(
            *process,
            r1,
        ).0 + writeable_region(*process, r1).1 <= usize::MAX,
    ensures
        r == memop_action(*process, op_type, r1),
{
    let addresses = process.addresses;
    match op_type {
        0 => MemopAction::Brk(r1),
        1 => MemopAction::Sbrk(r1 as isize),
        2 => MemopAction::Return(
            SyscallReturn::SuccessPtr(
                MetaPtr::new_with_metadata(
                    addresses.sram_start,
                    addresses.sram_start,
                    addresses.sram_app_brk - addresses.sram_start,
                    MetaPermissions::ReadWrite,
                ),
            ),
        ),
        3 => MemopAction::Return(
            SyscallReturn::SuccessPtr(
                MetaPtr::new_with_metadata(
                    addresses.sram_end,
                    addresses.sram_start,
                    addresses.sram_end - addresses.sram_start,
                    MetaPermissions::ReadWrite,
                ),
            ),
        ),
        4 => MemopAction::Return(
            SyscallReturn::SuccessPtr(
                MetaPtr::new_with_metadata(
                    addresses.flash_start,
                    addresses.flash_start,
                    addresses.flash_end - addresses.flash_start,
                    MetaPermissions::Execute,
                ),
            ),
        ),
        5 => MemopAction::Return(
            SyscallReturn::SuccessPtr(
                MetaPtr::new_with_metadata(
                    addresses.flash_end,
                    addresses.flash_start,
                    addresses.flash_end - addresses.flash_start,
                    MetaPermissions::Execute,
                ),
            ),
        ),
        6 => MemopAction::Return(SyscallReturn::SuccessAddr(addresses.sram_grant_start)),
        7 => MemopAction::Return(
            SyscallReturn::SuccessU32(process.number_writeable_flash_regions() as u32),
        ),
        8 => {
            let flash_start: usize = addresses.flash_start;
            let (offset, size) = process.get_writeable_flash_region(r1);
            if size == 0 {
                MemopAction::Return(SyscallReturn::Failure(ErrorCode::FAIL))
            } else {
                let start: usize = flash_start + offset as usize;
                MemopAction::Return(
                    SyscallReturn::SuccessPtr(
                        MetaPtr::new_with_metadata(
                            start,
                            start,
                            size as usize,
                            MetaPermissions::ReadWrite,
                        ),
                    ),
                )
            }
        },
        9 => {
            let flash_start: usize = addresses.flash_start;
            let (offset, size) = process.get_writeable_flash_region(r1);
            if size == 0 {
                MemopAction::Return(SyscallReturn::Failure(ErrorCode::FAIL))
            } else {
                let start: usize = flash_start + offset as usize;
                MemopAction::Return(
                    SyscallReturn::SuccessPtr(
                        MetaPtr::new_with_metadata(
                            start + size as usize,
                            start,
                            size as usize,
                            MetaPermissions::ReadWrite,
                        ),
                    ),
                )
            }
        },
        10 => MemopAction::UpdateStackStart(r1),
        11 => MemopAction::UpdateHeapStart(r1),
        _ => MemopAction::Return(SyscallReturn::Failure(ErrorCode::NOSUPPORT)),
    }
}

/// What a memop call that moves the program break returns, given whether
/// the process moved it.
pub fn brk_return(outcome: Result<usize, Error>) -> (r: SyscallReturn)
    ensures
        r == match outcome {
            Ok(_) => SyscallReturn::Success,
            Err(_) => SyscallReturn::Failure(ErrorCode::NOMEM),
        },
{
    match outcome {
        Ok(_) => SyscallReturn::Success,
        Err(_) => SyscallReturn::Failure(ErrorCode::NOMEM),
    }
}

/// What a memop call that moves the program break by an increment returns,
/// given the previous break or the failure of the process.
pub fn sbrk_return(outcome: Result<usize, Error>) -> (r: SyscallReturn)
    ensures
        r == match outcome {
            Ok(previous) => ptr_return(previous),
            Err(_) => SyscallReturn::Failure(ErrorCode::NOMEM),
        },
{
    match outcome {
        Ok(previous) => SyscallReturn::SuccessPtr(MetaPtr::from(previous)),
        Err(_) => SyscallReturn::Failure(ErrorCode::NOMEM),
    }
}

} // verus!
