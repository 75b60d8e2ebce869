//! Core data structures and decision logic of the Tock kernel, with
//! machine-checked contracts.

pub mod errorcode;
pub mod hil;
pub mod introspection;
pub mod ikc;
pub mod ipc;
pub mod mem;
pub mod memory_management;
pub mod memory_manager;
pub mod memop;
pub mod metaptr;
pub mod net;
pub mod platform;
pub mod process;
pub mod process_array;
pub mod process_binary;
pub mod process_checker;
pub mod process_load_utilities;
pub mod process_loading;
pub mod process_policies;
pub mod process_printer;
pub mod returncode;
pub mod syscall;
pub mod upcall;

use vstd::prelude::*;

verus! {

/// The major version of this kernel.
pub const KERNEL_MAJOR_VERSION: u16 = 2;

/// The minor version of this kernel.
pub const KERNEL_MINOR_VERSION: u16 = 1;

} // verus!
