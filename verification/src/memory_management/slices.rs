//! Slices of memories from the perspective of the memory management system.
//!
//! A slice is a non-empty run of granules that does not wrap around the end of
//! the address space: it is modelled by its starting address and its length in
//! granules.

use super::granules::Granule;
use super::pointers::{Pointer, ValidVirtualPointer};
use vstd::prelude::*;

verus! {

/// A run of `length` granules of `size` bytes from `start` that is not empty
/// and ends at or before the last address.
pub open spec fn fits_address_space(start: nat, length: nat, size: nat) -> bool {
    &&& length > 0
    &&& start + length * size <= usize::MAX
}

/// A non-empty slice of memory from the perspective of the memory management system.
pub struct Slice<const IS_VIRTUAL: bool, const IS_MUTABLE: bool, T: Granule> {
    starting_pointer: Pointer<IS_VIRTUAL, IS_MUTABLE, T>,
    length: usize,
}

/// A non-empty slice of physical memory.
pub type PhysicalSlice<const IS_MUTABLE: bool, T> = Slice<false, IS_MUTABLE, T>;

/// A non-empty slice of immutable physical memory.
pub type ImmutablePhysicalSlice<T> = PhysicalSlice<false, T>;

/// A non-empty slice of mutable physical memory.
pub type MutablePhysicalSlice<T> = PhysicalSlice<true, T>;

/// A non-empty slice of virtual memory.
pub type VirtualSlice<const IS_MUTABLE: bool, T> = Slice<true, IS_MUTABLE, T>;

/// A non-empty slice of immutable virtual memory.
pub type ImmutableVirtualSlice<T> = VirtualSlice<false, T>;

/// A non-empty slice of mutable virtual memory.
pub type MutableVirtualSlice<T> = VirtualSlice<true, T>;

impl<const IS_VIRTUAL: bool, const IS_MUTABLE: bool, T: Granule> Slice<IS_VIRTUAL, IS_MUTABLE, T> {
    /// The address of the first granule.
    pub closed spec fn spec_start(self) -> nat {
        self.starting_pointer.spec_address()
    }

    /// The number of granules.
    pub closed spec fn spec_length(self) -> nat {
        self.length as nat
    }

    #[verifier::type_invariant]
    closed spec fn is_valid(self) -> bool {
        fits_address_space(self.starting_pointer.spec_address(), self.length as nat, T::spec_size_u8())
    }

    /// The slice of `length` granules that starts at `pointer`. The caller
    /// vouches that no one else holds this memory.
    pub fn from_raw_parts(pointer: Pointer<IS_VIRTUAL, IS_MUTABLE, T>, length: usize) -> (r: Self)
        requires
            fits_address_space(pointer.spec_address(), length as nat, T::spec_size_u8()),
        ensures
            r.spec_start() == pointer.spec_address(),
            r.spec_length() == length,
    {
        Slice { starting_pointer: pointer, length }
    }

    /// The slice from `starting_pointer` up to, and not including,
    /// `ending_pointer`.
    pub fn new_start_end(
        starting_pointer: Pointer<IS_VIRTUAL, IS_MUTABLE, T>,
        ending_pointer: Pointer<IS_VIRTUAL, IS_MUTABLE, T>,
    ) -> (r: Self)
        requires
            starting_pointer.spec_address() < ending_pointer.spec_address(),
        ensures
            r.spec_start() == starting_pointer.spec_address(),
            r.spec_start() + r.spec_length() * T::spec_size_u8() == ending_pointer.spec_address(),
    {
        let length: usize = ending_pointer.distance_from_origin(&starting_pointer);
        let ending_address: usize = ending_pointer.get_address();
        Slice { starting_pointer, length }
    }

    pub fn get_starting_pointer(&self) -> (r: Pointer<IS_VIRTUAL, IS_MUTABLE, T>)
        ensures
            r.spec_address() == self.spec_start(),
    {
        self.starting_pointer
    }

    /// The pointer just past the last granule.
    pub fn get_ending_pointer(&self) -> (r: Pointer<IS_VIRTUAL, IS_MUTABLE, T>)
        ensures
            r.spec_address() == self.spec_start() + self.spec_length() * T::spec_size_u8(),
    {
        proof {
            use_type_invariant(self);
        }
        match self.starting_pointer.checked_add(self.length) {
            Ok(pointer) => pointer,
            Err(()) => {
                proof {
                    assert(false);
                }
                self.starting_pointer
            },
        }
    }

    pub fn get_length(&self) -> (r: usize)
        ensures
            r == self.spec_length(),
            r > 0,
            self.spec_start() + r * T::spec_size_u8() <= usize::MAX,
    {
        proof {
            use_type_invariant(self);
        }
        self.length
    }

    /// The pointers to the first granule and just past the last one.
    pub fn into_pointers(self) -> (r: (Pointer<IS_VIRTUAL, IS_MUTABLE, T>, Pointer<IS_VIRTUAL, IS_MUTABLE, T>))
        ensures
            r.0.spec_address() == self.spec_start(),
            r.1.spec_address() == self.spec_start() + self.spec_length() * T::spec_size_u8(),
            r.0.spec_address() < r.1.spec_address(),
    {
        proof {
            use_type_invariant(&self);
            T::lemma_size_bounds();
            assert(self.length * T::spec_size_u8() > 0) by (nonlinear_arith)
                requires
                    self.length > 0,
                    T::spec_size_u8() > 0,
            {
            }
        }
        let ending_pointer = self.get_ending_pointer();
        (self.starting_pointer, ending_pointer)
    }

    /// Splits the slice after its first `mid` granules. Fails, handing the
    /// slice back, if it is shorter than `mid`; the right part is `None` when
    /// the slice is exactly `mid` granules long.
    pub fn split_at_checked(self, mid: usize) -> (r: Result<(Self, Option<Self>), Self>)
        requires
            mid > 0,
        ensures
            r is Err <==> mid > self.spec_length(),
            r matches Err(slice) ==> slice == self,
            r matches Ok((left, right)) ==> {
                &&& left.spec_start() == self.spec_start()
                &&& left.spec_length() == mid
                &&& (right is None <==> mid == self.spec_length())
                &&& (right matches Some(right) ==> {
                    &&& right.spec_start() == self.spec_start() + mid * T::spec_size_u8()
                    &&& right.spec_length() == self.spec_length() - mid
                })
            },
    {
        proof {
            use_type_invariant(&self);
            T::lemma_size_bounds();
        }
        if mid > self.length {
            return Err(self);
        }
        proof {
            assert(self.starting_pointer.spec_address() + mid * T::spec_size_u8()
                <= self.starting_pointer.spec_address() + self.length * T::spec_size_u8())
                by (nonlinear_arith)
                requires
                    mid <= self.length,
                    T::spec_size_u8() > 0,
            {
            }
        }
        let left = Slice { starting_pointer: self.starting_pointer, length: mid };
        if mid == self.length {
            return Ok((left, None));
        }
        let right_start = match self.starting_pointer.checked_add(mid) {
            Ok(pointer) => pointer,
            Err(()) => {
                proof {
                    assert(false);
                }
                return Err(self);
            },
        };
        proof {
            assert(right_start.spec_address() + (self.length - mid) * T::spec_size_u8()
                == self.starting_pointer.spec_address() + self.length * T::spec_size_u8())
                by (nonlinear_arith)
                requires
                    right_start.spec_address() == self.starting_pointer.spec_address() + mid
                        * T::spec_size_u8(),
            {
            }
        }
        let right = Slice { starting_pointer: right_start, length: self.length - mid };
        Ok((left, Some(right)))
    }
}

/// A valid non-empty slice of virtual memory, that is, it belongs to either the kernel or a
/// process.
pub struct ValidVirtualSlice<const IS_USER: bool, const IS_MUTABLE: bool, T: Granule>(
    VirtualSlice<IS_MUTABLE, T>,
);

/// A non-empty slice of user virtual memory.
pub type UserVirtualSlice<const IS_MUTABLE: bool, T> = ValidVirtualSlice<true, IS_MUTABLE, T>;

/// A non-empty slice of user immutable virtual memory.
pub type ImmutableUserVirtualSlice<T> = UserVirtualSlice<false, T>;

/// A non-empty slice of user mutable virtual memory.
pub type MutableUserVirtualSlice<T> = UserVirtualSlice<true, T>;

/// A non-empty slice of kernel virtual memory.
pub type KernelVirtualSlice<const IS_MUTABLE: bool, T> = ValidVirtualSlice<false, IS_MUTABLE, T>;

impl<const IS_USER: bool, const IS_MUTABLE: bool, T: Granule> ValidVirtualSlice<
    IS_USER,
    IS_MUTABLE,
    T,
> {
    /// The address of the first granule.
    pub closed spec fn spec_start(self) -> nat {
        self.0.spec_start()
    }

    /// The number of granules.
    pub closed spec fn spec_length(self) -> nat {
        self.0.spec_length()
    }

    /// The slice of `length` granules that starts at `pointer`.
    pub fn from_raw_parts(pointer: ValidVirtualPointer<IS_USER, IS_MUTABLE, T>, length: usize) -> (r:
        Self)
        requires
            fits_address_space(pointer.spec_address(), length as nat, T::spec_size_u8()),
        ensures
            r.spec_start() == pointer.spec_address(),
            r.spec_length() == length,
    {
        ValidVirtualSlice(Slice::from_raw_parts(pointer.to_virtual_pointer(), length))
    }

    pub fn get_starting_pointer(&self) -> (r: ValidVirtualPointer<IS_USER, IS_MUTABLE, T>)
        ensures
            r.spec_address() == self.spec_start(),
    {
        ValidVirtualPointer::new(self.0.get_starting_pointer())
    }

    /// The pointer just past the last granule.
    pub fn get_ending_pointer(&self) -> (r: ValidVirtualPointer<IS_USER, IS_MUTABLE, T>)
        ensures
            r.spec_address() == self.spec_start() + self.spec_length() * T::spec_size_u8(),
    {
        ValidVirtualPointer::new(self.0.get_ending_pointer())
    }

    pub fn get_length(&self) -> (r: usize)
        ensures
            r == self.spec_length(),
            r > 0,
    {
        self.0.get_length()
    }

    /// Splits the slice after its first `mid` granules, as
    /// [`Slice::split_at_checked`] does.
    pub fn split_at_checked(self, mid: usize) -> (r: Result<(Self, Option<Self>), Self>)
        requires
            mid > 0,
        ensures
            r is Err <==> mid > self.spec_length(),
            r matches Err(slice) ==> slice == self,
            r matches Ok((left, right)) ==> {
                &&& left.spec_start() == self.spec_start()
                &&& left.spec_length() == mid
                &&& (right is None <==> mid == self.spec_length())
                &&& (right matches Some(right) ==> {
                    &&& right.spec_start() == self.spec_start() + mid * T::spec_size_u8()
                    &&& right.spec_length() == self.spec_length() - mid
                })
            },
    {
        match self.0.split_at_checked(mid) {
            Err(slice) => Err(ValidVirtualSlice(slice)),
            Ok((left, None)) => Ok((ValidVirtualSlice(left), None)),
            Ok((left, Some(right))) => Ok((ValidVirtualSlice(left), Some(ValidVirtualSlice(right)))),
        }
    }
}

} // verus!
