//! Memory allocator trait.

use super::super::granules::Granule as GranuleLike;
use super::super::slices::MutablePhysicalSlice;
use vstd::prelude::*;

verus! {

/// Memory allocator trait.
pub trait Allocator<Granule: GranuleLike> {
    /// Allocate `count` granules of memory.
    fn allocate(&mut self, count: usize) -> (r: Result<MutablePhysicalSlice<Granule>, ()>)
        requires
            count > 0,
    ;
}

} // verus!
