//! Printing the state of processes in chunks.

use vstd::prelude::*;

verus! {

/// Where a print that did not fit in one go goes on: the byte of the whole
/// message that comes next.
#[derive(Clone, Copy, PartialEq, Eq, Structural, Debug)]
pub struct ProcessPrinterContext {
    /// The offset of the next byte to print.
    pub offset: usize,
}

} // verus!
