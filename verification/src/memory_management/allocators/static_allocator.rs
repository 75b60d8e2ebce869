//! Static allocator.

use super::super::granules::Granule as GranuleLike;
use super::super::slices::MutablePhysicalSlice;
use super::allocator::Allocator;
use vstd::prelude::*;

verus! {

/// The run of granules `(start, length)` that a slice covers.
pub open spec fn slice_span<Granule: GranuleLike>(slice: MutablePhysicalSlice<Granule>) -> (nat, nat) {
    (slice.spec_start(), slice.spec_length())
}

/// A static allocator, i.e. an allocator that allocates memory without freeing it ever:
/// it hands out the memory it holds from its start.
pub struct StaticAllocator<Granule: GranuleLike>(Option<MutablePhysicalSlice<Granule>>);

impl<Granule: GranuleLike> StaticAllocator<Granule> {
    /// The memory not yet handed out, if any is left.
    pub closed spec fn spec_memory(self) -> Option<(nat, nat)> {
        match self.0 {
            Some(slice) => Some(slice_span(slice)),
            None => None,
        }
    }

    /// An allocator that hands out `memory`.
    pub fn new(memory: MutablePhysicalSlice<Granule>) -> (r: Self)
        ensures
            r.spec_memory() == Some(slice_span(memory)),
    {
        Self(Some(memory))
    }

    fn take(&mut self) -> (r: Result<MutablePhysicalSlice<Granule>, ()>)
        ensures
            r is Err <==> old(self).spec_memory() is None,
            r matches Ok(memory) ==> old(self).spec_memory() == Some(slice_span(memory)),
            final(self).spec_memory() is None,
    {
        match self.0.take() {
            None => Err(()),
            Some(memory) => Ok(memory),
        }
    }

    fn split_at_mut_checked(&mut self, memory: MutablePhysicalSlice<Granule>, mid: usize) -> (r: Result<
        (MutablePhysicalSlice<Granule>, Option<MutablePhysicalSlice<Granule>>),
        (),
    >)
        requires
            mid > 0,
            old(self).spec_memory() is None,
        ensures
            r is Err <==> mid > memory.spec_length(),
            r is Err ==> final(self).spec_memory() == Some(slice_span(memory)),
            r is Ok ==> final(self).spec_memory() is None,
            r matches Ok((left, right)) ==> {
                &&& left.spec_start() == memory.spec_start()
                &&& left.spec_length() == mid
                &&& (right is None <==> mid == memory.spec_length())
                &&& (right matches Some(right) ==> {
                    &&& right.spec_start() == memory.spec_start() + mid * Granule::spec_size_u8()
                    &&& right.spec_length() == memory.spec_length() - mid
                })
            },
    {
        match memory.split_at_checked(mid) {
            Err(memory) => {
                self.0 = Some(memory);
                Err(())
            },
            Ok(parts) => Ok(parts),
        }
    }
}

impl<Granule: GranuleLike> Allocator<Granule> for StaticAllocator<Granule> {
    /// Hands out the first `count` granules of the memory left; fails,
    /// changing nothing, if less than that is left.
    fn allocate(&mut self, count: usize) -> (r: Result<MutablePhysicalSlice<Granule>, ()>)
        ensures
            r is Ok <==> (old(self).spec_memory() matches Some((start, length)) && count <= length),
            r is Err ==> final(self).spec_memory() == old(self).spec_memory(),
            r matches Ok(allocation) ==> {
                let (start, length) = old(self).spec_memory()->0;
                &&& allocation.spec_start() == start
                &&& allocation.spec_length() == count
                &&& final(self).spec_memory() == if count == length {
                    None
                } else {
                    Some(((start + count * Granule::spec_size_u8()) as nat, (length - count) as nat))
                }
            },
    {
        let memory = match self.take() {
            Err(()) => return Err(()),
            Ok(memory) => memory,
        };
        let (left_subslice, right_subslice) = match self.split_at_mut_checked(memory, count) {
            Err(()) => return Err(()),
            Ok(parts) => parts,
        };
        self.0 = right_subslice;
        Ok(left_subslice)
    }
}

/// An allocation of `count` granules from the memory `(start, length)`
/// ends where the memory left begins, and it is not empty: every later
/// allocation, which is taken from the memory left, starts after all the
/// bytes this one handed out.
pub proof fn lemma_allocations_do_not_overlap(start: nat, length: nat, count: nat, size: nat, later: nat)
    requires
        0 < count < length,
        size > 0,
        later >= start + count * size,
    ensures
        start < start + count * size,
        start + count * size <= later,
{
    assert(count * size > 0) by (nonlinear_arith)
        requires
            count > 0,
            size > 0,
    {
    }
}

} // verus!
