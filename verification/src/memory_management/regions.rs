//! Regions of memory.
//!
//! A region is a run of granules; an allocated region may be protected by
//! memory permissions over a prefix of it, and mapped to a range of virtual
//! addresses. Translating an address between the physical and the virtual
//! view moves it by the offset between the two starting addresses.

use super::granules::{AlwaysAligned, Granule};
use super::permissions::Permissions;
use super::pointers::{
    ImmutablePointer, ImmutableVirtualPointer, MutablePhysicalPointer, MutablePointer,
    PhysicalPointer, Pointer, ValidImmutableVirtualPointer, ValidMutableVirtualPointer,
    ValidVirtualPointer, valid_address,
};
use super::slices::{MutablePhysicalSlice, Slice};
use vstd::prelude::*;

verus! {

/// The address `address` seen from another range: if it lies within the
/// `byte_count` bytes that start at `from_start`, the address at the same
/// offset from `to_start`.
pub open spec fn translate_address(address: int, from_start: int, to_start: int, byte_count: int) -> Option<int> {
    if from_start <= address < from_start + byte_count {
        Some(to_start + (address - from_start))
    } else {
        None
    }
}

/// The half-open ranges `[a_start, a_end)` and `[b_start, b_end)` share an address.
pub open spec fn ranges_overlap(a_start: int, a_end: int, b_start: int, b_end: int) -> bool {
    a_start < b_end && b_start < a_end
}

/// `count` granules of `size` bytes, in bytes.
pub open spec fn bytes_of(count: nat, size: nat) -> nat {
    count * size
}

/// A memory region: the granules from a starting pointer up to, and not
/// including, an ending pointer.
pub struct Region<const IS_VIRTUAL: bool, const IS_MUTABLE: bool, T: Granule> {
    starting_pointer: Pointer<IS_VIRTUAL, IS_MUTABLE, T>,
    ending_pointer: Pointer<IS_VIRTUAL, IS_MUTABLE, T>,
}

/// A region of immutable memory.
pub type ImmutableRegion<const IS_VIRTUAL: bool, T> = Region<IS_VIRTUAL, false, T>;

/// A region of mutable memory.
pub type MutableRegion<const IS_VIRTUAL: bool, T> = Region<IS_VIRTUAL, true, T>;

/// A region of physical memory.
pub type PhysicalRegion<const IS_MUTABLE: bool, T> = Region<false, IS_MUTABLE, T>;

/// A region of mutable physical memory.
pub type MutablePhysicalRegion<T> = PhysicalRegion<true, T>;

/// A region of virtual memory.
pub type VirtualRegion<const IS_MUTABLE: bool, T> = Region<true, IS_MUTABLE, T>;

impl<const IS_VIRTUAL: bool, const IS_MUTABLE: bool, T: Granule> Region<IS_VIRTUAL, IS_MUTABLE, T> {
    /// The address of the first granule.
    pub closed spec fn spec_start(self) -> nat {
        self.starting_pointer.spec_address()
    }

    /// The address just past the last granule.
    pub closed spec fn spec_end(self) -> nat {
        self.ending_pointer.spec_address()
    }

    #[verifier::type_invariant]
    closed spec fn is_valid(self) -> bool {
        self.starting_pointer.spec_address() < self.ending_pointer.spec_address()
    }

    /// The region covered by a slice.
    pub fn new(slice: Slice<IS_VIRTUAL, IS_MUTABLE, T>) -> (r: Self)
        ensures
            r.spec_start() == slice.spec_start(),
            r.spec_end() == slice.spec_start() + slice.spec_length() * T::spec_size_u8(),
    {
        let (starting_pointer, ending_pointer) = slice.into_pointers();
        Region { starting_pointer, ending_pointer }
    }

    fn get_starting_pointer(&self) -> (r: Pointer<IS_VIRTUAL, IS_MUTABLE, T>)
        ensures
            r.spec_address() == self.spec_start(),
    {
        self.starting_pointer
    }

    fn get_ending_pointer(&self) -> (r: Pointer<IS_VIRTUAL, IS_MUTABLE, T>)
        ensures
            r.spec_address() == self.spec_end(),
    {
        self.ending_pointer
    }

    /// The number of granules of the region.
    fn get_length(&self) -> (r: usize)
        ensures
            r > 0,
            r * T::spec_size_u8() == self.spec_end() - self.spec_start(),
    {
        proof {
            use_type_invariant(self);
        }
        self.ending_pointer.distance_from_origin(&self.starting_pointer)
    }

    /// The region holds the address, or starts at it.
    fn is_intersecting_pointer(&self, pointer: &Pointer<IS_VIRTUAL, false, T>) -> (r: bool)
        ensures
            r == (self.spec_start() <= pointer.spec_address() < self.spec_end()),
    {
        let address: usize = pointer.get_address();
        self.starting_pointer.get_address() <= address && address < self.ending_pointer.get_address()
    }

    /// The address lies strictly inside the region.
    fn is_containing_pointer(&self, pointer: &Pointer<IS_VIRTUAL, false, T>) -> (r: bool)
        ensures
            r == (self.spec_start() < pointer.spec_address() < self.spec_end()),
    {
        let address: usize = pointer.get_address();
        self.starting_pointer.get_address() < address && address < self.ending_pointer.get_address()
    }

    /// The two regions share at least one address.
    pub fn is_intersecting_region(&self, region: &ImmutableRegion<IS_VIRTUAL, T>) -> (r: bool)
        ensures
            r == ranges_overlap(
                self.spec_start() as int,
                self.spec_end() as int,
                region.spec_start() as int,
                region.spec_end() as int,
            ),
    {
        proof {
            use_type_invariant(self);
            use_type_invariant(region);
        }
        let self_starting_pointer = self.starting_pointer.to_immutable();
        let starting_pointer = region.starting_pointer;
        let ending_pointer = region.ending_pointer;
        self.is_intersecting_pointer(&starting_pointer) || self.is_containing_pointer(&ending_pointer)
            || region.is_intersecting_pointer(&self_starting_pointer)
    }
}

/// A region of allocated memory.
pub struct AllocatedRegion<const IS_VIRTUAL: bool, T: Granule> {
    region: MutableRegion<IS_VIRTUAL, T>,
}

/// A region of allocated physical memory.
pub type PhysicalAllocatedRegion<T> = AllocatedRegion<false, T>;

impl<const IS_VIRTUAL: bool, T: Granule> AllocatedRegion<IS_VIRTUAL, T> {
    /// The address of the first granule.
    pub closed spec fn spec_start(self) -> nat {
        self.region.spec_start()
    }

    /// The number of granules of the region.
    pub closed spec fn spec_length(self) -> nat {
        ((self.region.spec_end() - self.region.spec_start()) / (T::spec_size_u8() as int)) as nat
    }

    fn get_starting_pointer(&self) -> (r: MutablePointer<IS_VIRTUAL, T>)
        ensures
            r.spec_address() == self.spec_start(),
    {
        self.region.get_starting_pointer()
    }

    fn get_ending_pointer(&self) -> (r: MutablePointer<IS_VIRTUAL, T>)
        ensures
            r.spec_address() == self.spec_start() + self.spec_length() * T::spec_size_u8(),
    {
        let length: usize = self.region.get_length();
        proof {
            T::lemma_size_bounds();
            length_of_region(self.region.spec_start(), self.region.spec_end(), length as nat, T::spec_size_u8());
        }
        self.region.get_ending_pointer()
    }

    /// The number of granules of the region.
    pub fn get_length(&self) -> (r: usize)
        ensures
            r == self.spec_length(),
            r > 0,
            self.spec_start() + r * T::spec_size_u8() <= usize::MAX,
    {
        let length: usize = self.region.get_length();
        let ending_address: usize = self.region.get_ending_pointer().get_address();
        proof {
            T::lemma_size_bounds();
            length_of_region(self.region.spec_start(), self.region.spec_end(), length as nat, T::spec_size_u8());
        }
        length
    }

    /// The size of the region in bytes.
    pub fn get_length_bytes(&self) -> (r: usize)
        ensures
            r == self.spec_length() * T::spec_size_u8(),
            r > 0,
    {
        let length: usize = self.get_length();
        let size: usize = T::size_u8();
        proof {
            assert(length * size >= length) by (nonlinear_arith)
                requires
                    size >= 1,
            {
            }
        }
        length * size
    }
}

/// A region whose two ends are `length` granules apart has that length.
proof fn length_of_region(start: nat, end: nat, length: nat, size: nat)
    requires
        size > 0,
        length * size == end - start,
    ensures
        ((end - start) / (size as int)) as nat == length,
{
    vstd::arithmetic::div_mod::lemma_div_multiples_vanish(length as int, size as int);
    assert(size * length == length * size) by (nonlinear_arith);
}

impl<T: Granule> AllocatedRegion<false, T> {
    /// The region covered by an allocated slice of physical memory.
    pub fn new(slice: MutablePhysicalSlice<T>) -> (r: Self)
        ensures
            r.spec_start() == slice.spec_start(),
            r.spec_length() == slice.spec_length(),
    {
        let length: usize = slice.get_length();
        let region = MutablePhysicalRegion::new(slice);
        proof {
            T::lemma_size_bounds();
            length_of_region(region.spec_start(), region.spec_end(), length as nat, T::spec_size_u8());
        }
        AllocatedRegion { region }
    }
}


/// A region of allocated memory associated with memory permissions, which
/// apply to its first `protected_length` granules.
pub struct ProtectedAllocatedRegion<const IS_VIRTUAL: bool, T: Granule> {
    allocated_region: AllocatedRegion<IS_VIRTUAL, T>,
    protected_length: usize,
    permissions: Permissions,
}

/// A region of allocated physical memory associated with memory permissions.
pub type PhysicalProtectedAllocatedRegion<T> = ProtectedAllocatedRegion<false, T>;

/// A region of allocated virtual memory associated with memory permissions.
pub type VirtualProtectedAllocatedRegion<T> = ProtectedAllocatedRegion<true, T>;

impl<const IS_VIRTUAL: bool, T: Granule> ProtectedAllocatedRegion<IS_VIRTUAL, T> {
    /// The address of the first granule.
    pub closed spec fn spec_start(self) -> nat {
        self.allocated_region.spec_start()
    }

    /// The number of allocated granules.
    pub closed spec fn spec_allocated_length(self) -> nat {
        self.allocated_region.spec_length()
    }

    /// The number of protected granules.
    pub closed spec fn spec_protected_length(self) -> nat {
        self.protected_length as nat
    }

    /// The permissions of the protected granules.
    pub closed spec fn spec_permissions(self) -> Permissions {
        self.permissions
    }

    #[verifier::type_invariant]
    closed spec fn is_valid(self) -> bool {
        0 < self.protected_length <= self.allocated_region.spec_length()
    }

    /// The whole allocated region, protected with `permissions`.
    fn new_protect_entirely(allocated_region: AllocatedRegion<IS_VIRTUAL, T>, permissions: Permissions) -> (r: Self)
        ensures
            r.spec_start() == allocated_region.spec_start(),
            r.spec_allocated_length() == allocated_region.spec_length(),
            r.spec_protected_length() == allocated_region.spec_length(),
            r.spec_permissions() == permissions,
    {
        let protected_length: usize = allocated_region.get_length();
        ProtectedAllocatedRegion { allocated_region, protected_length, permissions }
    }

    /// The allocated region with its first `protected_length` granules
    /// protected with `permissions`; fails if the region is shorter than that.
    pub fn new(
        allocated_region: AllocatedRegion<IS_VIRTUAL, T>,
        protected_length: usize,
        permissions: Permissions,
    ) -> (r: Result<Self, ()>)
        requires
            protected_length > 0,
        ensures
            r is Ok <==> protected_length <= allocated_region.spec_length(),
            r matches Ok(region) ==> {
                &&& region.spec_start() == allocated_region.spec_start()
                &&& region.spec_allocated_length() == allocated_region.spec_length()
                &&& region.spec_protected_length() == protected_length
                &&& region.spec_permissions() == permissions
            },
    {
        if protected_length > allocated_region.get_length() {
            return Err(());
        }
        Ok(ProtectedAllocatedRegion { allocated_region, protected_length, permissions })
    }

    pub fn get_starting_pointer(&self) -> (r: MutablePointer<IS_VIRTUAL, T>)
        ensures
            r.spec_address() == self.spec_start(),
    {
        self.allocated_region.get_starting_pointer()
    }

    fn get_allocated_ending_pointer(&self) -> (r: MutablePointer<IS_VIRTUAL, T>)
        ensures
            r.spec_address() == self.spec_start() + self.spec_allocated_length() * T::spec_size_u8(),
    {
        self.allocated_region.get_ending_pointer()
    }

    /// The pointer just past the last protected granule.
    pub fn get_protected_ending_pointer(&self) -> (r: MutablePointer<IS_VIRTUAL, T>)
        ensures
            r.spec_address() == self.spec_start() + self.spec_protected_length() * T::spec_size_u8(),
    {
        proof {
            use_type_invariant(self);
        }
        let allocated_length: usize = self.allocated_region.get_length();
        proof {
            T::lemma_size_bounds();
            assert(self.protected_length * T::spec_size_u8() <= allocated_length * T::spec_size_u8())
                by (nonlinear_arith)
                requires
                    self.protected_length <= allocated_length,
            {
            }
        }
        match self.get_starting_pointer().checked_add(self.protected_length) {
            Ok(pointer) => pointer,
            Err(()) => {
                proof {
                    assert(false);
                }
                self.get_starting_pointer()
            },
        }
    }

    pub fn get_protected_length(&self) -> (r: usize)
        ensures
            r == self.spec_protected_length(),
            0 < r <= self.spec_allocated_length(),
    {
        proof {
            use_type_invariant(self);
        }
        self.protected_length
    }

    pub fn get_allocated_length(&self) -> (r: usize)
        ensures
            r == self.spec_allocated_length(),
            r > 0,
            self.spec_start() + r * T::spec_size_u8() <= usize::MAX,
    {
        self.allocated_region.get_length()
    }

    /// The number of protected bytes.
    pub fn get_protected_length_bytes(&self) -> (r: usize)
        ensures
            r == self.spec_protected_length() * T::spec_size_u8(),
    {
        proof {
            use_type_invariant(self);
        }
        let allocated_length: usize = self.allocated_region.get_length();
        let size: usize = T::size_u8();
        proof {
            assert(self.protected_length * size <= allocated_length * size) by (nonlinear_arith)
                requires
                    self.protected_length <= allocated_length,
            {
            }
        }
        self.protected_length * size
    }

    pub fn get_permissions(&self) -> (r: Permissions)
        ensures
            r == self.spec_permissions(),
    {
        self.permissions
    }

    /// Protects the first `length` granules instead; fails, changing
    /// nothing, if the region is shorter than that.
    pub fn resize(&mut self, length: usize) -> (r: Result<(), ()>)
        requires
            length > 0,
        ensures
            r is Ok <==> length <= old(self).spec_allocated_length(),
            final(self).spec_start() == old(self).spec_start(),
            final(self).spec_allocated_length() == old(self).spec_allocated_length(),
            final(self).spec_permissions() == old(self).spec_permissions(),
            final(self).spec_protected_length() == if r is Ok {
                length as nat
            } else {
                old(self).spec_protected_length()
            },
    {
        if length > self.get_allocated_length() {
            return Err(());
        }
        self.protected_length = length;
        Ok(())
    }
}

/// A region of virtual memory mapped to allocated physical memory.
pub struct MappedAllocatedRegion<const IS_USER: bool, T: Granule> {
    allocated_region: PhysicalAllocatedRegion<T>,
    starting_virtual_pointer: ValidMutableVirtualPointer<IS_USER, T>,
}

/// A region of kernel virtual memory mapped to allocated physical memory.
pub type KernelMappedAllocatedRegion<T> = MappedAllocatedRegion<false, T>;

impl<const IS_USER: bool, T: Granule> MappedAllocatedRegion<IS_USER, T> {
    /// The physical address of the first granule.
    pub closed spec fn spec_physical_start(self) -> nat {
        self.allocated_region.spec_start()
    }

    /// The virtual address of the first granule.
    pub closed spec fn spec_virtual_start(self) -> nat {
        self.starting_virtual_pointer.spec_address()
    }

    /// The number of granules.
    pub closed spec fn spec_length(self) -> nat {
        self.allocated_region.spec_length()
    }

    #[verifier::type_invariant]
    closed spec fn is_valid(self) -> bool {
        self.starting_virtual_pointer.spec_address() + self.allocated_region.spec_length()
            * T::spec_size_u8() <= usize::MAX
    }

    /// Maps the allocated region to the virtual addresses from
    /// `starting_virtual_pointer`; fails if they would run past the end of
    /// the address space.
    pub fn new(
        allocated_region: PhysicalAllocatedRegion<T>,
        starting_virtual_pointer: ValidMutableVirtualPointer<IS_USER, T>,
    ) -> (r: Result<Self, ()>)
        ensures
            r is Ok <==> starting_virtual_pointer.spec_address() + allocated_region.spec_length()
                * T::spec_size_u8() <= usize::MAX,
            r matches Ok(region) ==> {
                &&& region.spec_physical_start() == allocated_region.spec_start()
                &&& region.spec_virtual_start() == starting_virtual_pointer.spec_address()
                &&& region.spec_length() == allocated_region.spec_length()
            },
    {
        let allocated_length: usize = allocated_region.get_length();
        if starting_virtual_pointer.checked_add(allocated_length).is_err() {
            return Err(());
        }
        Ok(MappedAllocatedRegion { allocated_region, starting_virtual_pointer })
    }

    /// Maps the allocated region to the virtual addresses equal to its
    /// physical addresses.
    pub fn new_flat(allocated_region: PhysicalAllocatedRegion<T>) -> (r: Self)
        ensures
            r.spec_physical_start() == allocated_region.spec_start(),
            r.spec_virtual_start() == allocated_region.spec_start(),
            r.spec_length() == allocated_region.spec_length(),
    {
        let allocated_length: usize = allocated_region.get_length();
        let starting_physical_pointer = allocated_region.get_starting_pointer();
        let starting_virtual_pointer = ValidVirtualPointer::new(
            starting_physical_pointer.to_virtual_pointer(),
        );
        MappedAllocatedRegion { allocated_region, starting_virtual_pointer }
    }

    fn consume(self) -> (r: (PhysicalAllocatedRegion<T>, ValidMutableVirtualPointer<IS_USER, T>))
        ensures
            r.0.spec_start() == self.spec_physical_start(),
            r.0.spec_length() == self.spec_length(),
            r.1.spec_address() == self.spec_virtual_start(),
            r.1.spec_address() + r.0.spec_length() * T::spec_size_u8() <= usize::MAX,
    {
        proof {
            use_type_invariant(&self);
        }
        (self.allocated_region, self.starting_virtual_pointer)
    }
}


/// `address`, taken from the `byte_count` bytes that start at `from_start`,
/// moved to the same offset from `to_start`.
fn translate(address: usize, from_start: usize, to_start: usize, byte_count: usize) -> (r: Option<usize>)
    requires
        from_start + byte_count <= usize::MAX,
        to_start + byte_count <= usize::MAX,
    ensures
        r matches Some(translated) ==> Some(translated as int) == translate_address(
            address as int,
            from_start as int,
            to_start as int,
            byte_count as int,
        ),
        r is None ==> translate_address(
            address as int,
            from_start as int,
            to_start as int,
            byte_count as int,
        ) is None,
{
    if from_start <= address && address < from_start + byte_count {
        Some(to_start + (address - from_start))
    } else {
        None
    }
}

/// A region of virtual memory mapped to allocated physical memory protected by memory permissions.
pub struct MappedProtectedAllocatedRegion<const IS_USER: bool, T: Granule> {
    physical_protected_allocated_region: PhysicalProtectedAllocatedRegion<T>,
    starting_virtual_pointer: ValidMutableVirtualPointer<IS_USER, T>,
}

/// A region of user virtual memory mapped to allocated physical memory protected by memory
/// permissions.
pub type UserMappedProtectedAllocatedRegion<T> = MappedProtectedAllocatedRegion<true, T>;

/// A region of kernel virtual memory mapped to allocated physical memory protected by memory
/// permissions.
pub type KernelMappedProtectedAllocatedRegion<T> = MappedProtectedAllocatedRegion<false, T>;

impl<const IS_USER: bool, T: Granule> MappedProtectedAllocatedRegion<IS_USER, T> {
    /// The physical address of the first granule.
    pub closed spec fn spec_physical_start(self) -> nat {
        self.physical_protected_allocated_region.spec_start()
    }

    /// The virtual address of the first granule.
    pub closed spec fn spec_virtual_start(self) -> nat {
        self.starting_virtual_pointer.spec_address()
    }

    /// The number of allocated granules.
    pub closed spec fn spec_allocated_length(self) -> nat {
        self.physical_protected_allocated_region.spec_allocated_length()
    }

    /// The number of protected granules.
    pub closed spec fn spec_protected_length(self) -> nat {
        self.physical_protected_allocated_region.spec_protected_length()
    }

    /// The permissions of the protected granules.
    pub closed spec fn spec_permissions(self) -> Permissions {
        self.physical_protected_allocated_region.spec_permissions()
    }

    /// The number of allocated bytes.
    pub open spec fn spec_allocated_bytes(self) -> int {
        bytes_of(self.spec_allocated_length(), T::spec_size_u8()) as int
    }

    /// The number of protected bytes.
    pub open spec fn spec_protected_bytes(self) -> int {
        bytes_of(self.spec_protected_length(), T::spec_size_u8()) as int
    }

    /// The virtual address of a physical address within the allocated granules.
    pub open spec fn allocated_virtual_of_physical(self, address: int) -> Option<int> {
        translate_address(address, self.spec_physical_start() as int, self.spec_virtual_start() as int, self.spec_allocated_bytes())
    }

    /// The virtual address of a physical address within the protected granules.
    pub open spec fn protected_virtual_of_physical(self, address: int) -> Option<int> {
        translate_address(address, self.spec_physical_start() as int, self.spec_virtual_start() as int, self.spec_protected_bytes())
    }

    /// The physical address of a virtual address within the allocated granules.
    pub open spec fn allocated_physical_of_virtual(self, address: int) -> Option<int> {
        translate_address(address, self.spec_virtual_start() as int, self.spec_physical_start() as int, self.spec_allocated_bytes())
    }

    /// The physical address of a virtual address within the protected granules.
    pub open spec fn protected_physical_of_virtual(self, address: int) -> Option<int> {
        translate_address(address, self.spec_virtual_start() as int, self.spec_physical_start() as int, self.spec_protected_bytes())
    }

    #[verifier::type_invariant]
    closed spec fn is_valid(self) -> bool {
        self.starting_virtual_pointer.spec_address() + self.physical_protected_allocated_region.spec_allocated_length()
            * T::spec_size_u8() <= usize::MAX
    }

    /// Every mapped protected region is protected over a non-empty prefix of
    /// its allocated granules, and both its ranges end within the address space.
    pub fn get_bounds(&self) -> (r: (usize, usize, usize, usize))
        ensures
            r.0 == self.spec_physical_start(),
            r.1 == self.spec_virtual_start(),
            r.2 == self.spec_allocated_bytes(),
            r.3 == self.spec_protected_bytes(),
            0 < r.3 <= r.2,
            r.0 + r.2 <= usize::MAX,
            r.1 + r.2 <= usize::MAX,
            r.0 > 0,
            r.1 > 0,
    {
        proof {
            use_type_invariant(self);
            T::lemma_size_bounds();
        }
        let region = &self.physical_protected_allocated_region;
        let physical_start: usize = region.get_starting_pointer().get_address();
        let virtual_start: usize = self.starting_virtual_pointer.get_address();
        let allocated_length: usize = region.get_allocated_length();
        let protected_length: usize = region.get_protected_length();
        let size: usize = T::size_u8();
        proof {
            assert(0 < protected_length * size <= allocated_length * size) by (nonlinear_arith)
                requires
                    0 < protected_length <= allocated_length,
                    size > 0,
            {
            }
        }
        (physical_start, virtual_start, allocated_length * size, protected_length * size)
    }

    /// Maps the protected region to the virtual addresses from
    /// `starting_virtual_pointer`; fails if they would run past the end of
    /// the address space.
    pub fn new_from_protected(
        physical_protected_allocated_region: PhysicalProtectedAllocatedRegion<T>,
        starting_virtual_pointer: ValidMutableVirtualPointer<IS_USER, T>,
    ) -> (r: Result<Self, ()>)
        ensures
            r is Ok <==> starting_virtual_pointer.spec_address()
                + physical_protected_allocated_region.spec_allocated_length() * T::spec_size_u8()
                <= usize::MAX,
            r matches Ok(region) ==> {
                &&& region.spec_physical_start() == physical_protected_allocated_region.spec_start()
                &&& region.spec_virtual_start() == starting_virtual_pointer.spec_address()
                &&& region.spec_allocated_length()
                    == physical_protected_allocated_region.spec_allocated_length()
                &&& region.spec_protected_length()
                    == physical_protected_allocated_region.spec_protected_length()
                &&& region.spec_permissions() == physical_protected_allocated_region.spec_permissions()
            },
    {
        let allocated_length: usize = physical_protected_allocated_region.get_allocated_length();
        if starting_virtual_pointer.checked_add(allocated_length).is_err() {
            return Err(());
        }
        Ok(MappedProtectedAllocatedRegion { physical_protected_allocated_region, starting_virtual_pointer })
    }

    /// Protects the whole of a mapped region with `permissions`.
    pub fn new_from_mapped(mapped_allocated_region: MappedAllocatedRegion<IS_USER, T>, permissions: Permissions) -> (r: Self)
        ensures
            r.spec_physical_start() == mapped_allocated_region.spec_physical_start(),
            r.spec_virtual_start() == mapped_allocated_region.spec_virtual_start(),
            r.spec_allocated_length() == mapped_allocated_region.spec_length(),
            r.spec_protected_length() == mapped_allocated_region.spec_length(),
            r.spec_permissions() == permissions,
    {
        let (allocated_region, starting_virtual_pointer) = mapped_allocated_region.consume();
        let physical_protected_allocated_region = PhysicalProtectedAllocatedRegion::new_protect_entirely(
            allocated_region,
            permissions,
        );
        MappedProtectedAllocatedRegion { physical_protected_allocated_region, starting_virtual_pointer }
    }

    pub fn as_physical_protected_allocated_region(&self) -> (r: &PhysicalProtectedAllocatedRegion<T>)
        ensures
            r.spec_start() == self.spec_physical_start(),
            r.spec_allocated_length() == self.spec_allocated_length(),
            r.spec_protected_length() == self.spec_protected_length(),
            r.spec_permissions() == self.spec_permissions(),
    {
        &self.physical_protected_allocated_region
    }

    pub fn get_starting_physical_pointer(&self) -> (r: MutablePhysicalPointer<T>)
        ensures
            r.spec_address() == self.spec_physical_start(),
    {
        self.physical_protected_allocated_region.get_starting_pointer()
    }

    pub fn get_starting_virtual_pointer(&self) -> (r: ValidMutableVirtualPointer<IS_USER, T>)
        ensures
            r.spec_address() == self.spec_virtual_start(),
    {
        self.starting_virtual_pointer.duplicate()
    }

    pub fn get_protected_length(&self) -> (r: usize)
        ensures
            r == self.spec_protected_length(),
            0 < r <= self.spec_allocated_length(),
    {
        self.physical_protected_allocated_region.get_protected_length()
    }

    pub fn get_allocated_length(&self) -> (r: usize)
        ensures
            r == self.spec_allocated_length(),
            r > 0,
    {
        self.physical_protected_allocated_region.get_allocated_length()
    }

    pub fn get_permissions(&self) -> (r: Permissions)
        ensures
            r == self.spec_permissions(),
    {
        self.physical_protected_allocated_region.get_permissions()
    }

    /// The pointer just past the last protected granule, in virtual memory.
    pub fn get_protected_ending_virtual_pointer(&self) -> (r: ValidMutableVirtualPointer<IS_USER, T>)
        ensures
            r.spec_address() == self.spec_virtual_start() + self.spec_protected_bytes(),
    {
        let (_, virtual_start, allocated_bytes, protected_bytes) = self.get_bounds();
        let protected_length: usize = self.get_protected_length();
        match self.starting_virtual_pointer.checked_add(protected_length) {
            Ok(pointer) => pointer,
            Err(()) => {
                proof {
                    assert(false);
                }
                self.starting_virtual_pointer.duplicate()
            },
        }
    }

    /// The pointer just past the last allocated granule, in virtual memory.
    pub fn get_allocated_ending_virtual_pointer(&self) -> (r: ValidMutableVirtualPointer<IS_USER, T>)
        ensures
            r.spec_address() == self.spec_virtual_start() + self.spec_allocated_bytes(),
    {
        let (_, virtual_start, allocated_bytes, protected_bytes) = self.get_bounds();
        let allocated_length: usize = self.get_allocated_length();
        match self.starting_virtual_pointer.checked_add(allocated_length) {
            Ok(pointer) => pointer,
            Err(()) => {
                proof {
                    assert(false);
                }
                self.starting_virtual_pointer.duplicate()
            },
        }
    }

    /// The byte lies in the protected part of the region, in virtual memory.
    pub fn is_containing_protected_virtual_byte(&self, virtual_byte: &ValidImmutableVirtualPointer<IS_USER, u8>) -> (r: bool)
        ensures
            r == (self.spec_virtual_start() <= virtual_byte.spec_address() < self.spec_virtual_start()
                + self.spec_protected_bytes()),
    {
        let (_, virtual_start, _, protected_bytes) = self.get_bounds();
        let address: usize = virtual_byte.get_address();
        virtual_start <= address && address < virtual_start + protected_bytes
    }

    /// The pointer lies in the allocated part of the region, in virtual memory.
    pub fn is_intersecting_virtual_pointer(&self, virtual_pointer: &ImmutableVirtualPointer<T>) -> (r: bool)
        ensures
            r == (self.spec_virtual_start() <= virtual_pointer.spec_address() < self.spec_virtual_start()
                + self.spec_allocated_bytes()),
    {
        let (_, virtual_start, allocated_bytes, _) = self.get_bounds();
        let address: usize = virtual_pointer.get_address();
        virtual_start <= address && address < virtual_start + allocated_bytes
    }

    /// The pointer lies strictly after the start of the allocated part of the
    /// region, and before its end, in virtual memory.
    fn is_containing_virtual_pointer(&self, virtual_pointer: &ImmutableVirtualPointer<T>) -> (r: bool)
        ensures
            r == (self.spec_virtual_start() < virtual_pointer.spec_address() < self.spec_virtual_start()
                + self.spec_allocated_bytes()),
    {
        let (_, virtual_start, allocated_bytes, _) = self.get_bounds();
        let address: usize = virtual_pointer.get_address();
        virtual_start < address && address < virtual_start + allocated_bytes
    }

    /// The allocated parts of the two regions share a virtual address.
    pub fn is_intersecting_virtually<const OTHER_IS_USER: bool>(&self, other: &MappedProtectedAllocatedRegion<OTHER_IS_USER, T>) -> (r: bool)
        ensures
            r == ranges_overlap(
                self.spec_virtual_start() as int,
                self.spec_virtual_start() + self.spec_allocated_bytes(),
                other.spec_virtual_start() as int,
                other.spec_virtual_start() + other.spec_allocated_bytes(),
            ),
    {
        let (_, _, allocated_bytes, _) = self.get_bounds();
        let (_, _, other_allocated_bytes, _) = other.get_bounds();
        let other_start = other.get_starting_virtual_pointer().to_virtual_pointer().to_immutable();
        let other_end = other.get_allocated_ending_virtual_pointer().to_virtual_pointer().to_immutable();
        let self_start = self.get_starting_virtual_pointer().to_virtual_pointer().to_immutable();
        self.is_intersecting_virtual_pointer(&other_start) || self.is_containing_virtual_pointer(&other_end)
            || other.is_containing_virtual_pointer(&self_start)
    }

    /// Protects the first `length` allocated granules instead; fails,
    /// changing nothing, if the region is shorter than that.
    pub fn resize(&mut self, length: usize) -> (r: Result<(), ()>)
        requires
            length > 0,
        ensures
            r is Ok <==> length <= old(self).spec_allocated_length(),
            final(self).spec_physical_start() == old(self).spec_physical_start(),
            final(self).spec_virtual_start() == old(self).spec_virtual_start(),
            final(self).spec_allocated_length() == old(self).spec_allocated_length(),
            final(self).spec_permissions() == old(self).spec_permissions(),
            final(self).spec_protected_length() == if r is Ok {
                length as nat
            } else {
                old(self).spec_protected_length()
            },
    {
        proof {
            use_type_invariant(&*self);
        }
        if length > self.get_allocated_length() {
            return Err(());
        }
        self.physical_protected_allocated_region.protected_length = length;
        Ok(())
    }

    /// The virtual pointer to a physical byte within the allocated granules,
    /// or the physical pointer back if it lies outside them.
    pub fn translate_allocated_physical_pointer_byte<const IS_MUTABLE: bool, U: AlwaysAligned>(
        &self,
        physical_pointer: PhysicalPointer<IS_MUTABLE, U>,
    ) -> (r: Result<ValidVirtualPointer<IS_USER, IS_MUTABLE, U>, PhysicalPointer<IS_MUTABLE, U>>)
        ensures
            r is Ok <==> self.allocated_virtual_of_physical(physical_pointer.spec_address() as int) is Some,
            r matches Ok(pointer) ==> self.allocated_virtual_of_physical(physical_pointer.spec_address() as int)
                == Some(pointer.spec_address() as int),
            r matches Err(pointer) ==> pointer == physical_pointer,
    {
        let (physical_start, virtual_start, allocated_bytes, _) = self.get_bounds();
        let address: usize = physical_pointer.get_address();
        match translate(address, physical_start, virtual_start, allocated_bytes) {
            None => Err(physical_pointer),
            Some(translated) => {
                proof {
                    U::lemma_single_byte();
                }
                match ValidVirtualPointer::new_from_address(translated) {
                    Ok(pointer) => Ok(pointer),
                    Err(()) => Err(physical_pointer),
                }
            },
        }
    }

    /// The virtual pointer to a physical byte within the protected granules,
    /// or the physical pointer back if it lies outside them.
    pub fn translate_protected_physical_pointer_byte<const IS_MUTABLE: bool, U: AlwaysAligned>(
        &self,
        physical_pointer: PhysicalPointer<IS_MUTABLE, U>,
    ) -> (r: Result<ValidVirtualPointer<IS_USER, IS_MUTABLE, U>, PhysicalPointer<IS_MUTABLE, U>>)
        ensures
            r is Ok <==> self.protected_virtual_of_physical(physical_pointer.spec_address() as int) is Some,
            r matches Ok(pointer) ==> self.protected_virtual_of_physical(physical_pointer.spec_address() as int)
                == Some(pointer.spec_address() as int),
            r matches Err(pointer) ==> pointer == physical_pointer,
    {
        let (physical_start, virtual_start, _, protected_bytes) = self.get_bounds();
        let address: usize = physical_pointer.get_address();
        match translate(address, physical_start, virtual_start, protected_bytes) {
            None => Err(physical_pointer),
            Some(translated) => {
                proof {
                    U::lemma_single_byte();
                }
                match ValidVirtualPointer::new_from_address(translated) {
                    Ok(pointer) => Ok(pointer),
                    Err(()) => Err(physical_pointer),
                }
            },
        }
    }

    /// The physical pointer to a virtual byte within the protected granules,
    /// or the virtual pointer back if it lies outside them.
    pub fn translate_protected_virtual_pointer_byte<const IS_MUTABLE: bool, U: AlwaysAligned>(
        &self,
        virtual_pointer: ValidVirtualPointer<IS_USER, IS_MUTABLE, U>,
    ) -> (r: Result<PhysicalPointer<IS_MUTABLE, U>, ValidVirtualPointer<IS_USER, IS_MUTABLE, U>>)
        ensures
            r is Ok <==> self.protected_physical_of_virtual(virtual_pointer.spec_address() as int) is Some,
            r matches Ok(pointer) ==> self.protected_physical_of_virtual(virtual_pointer.spec_address() as int)
                == Some(pointer.spec_address() as int),
            r matches Err(pointer) ==> pointer == virtual_pointer,
    {
        let (physical_start, virtual_start, _, protected_bytes) = self.get_bounds();
        let address: usize = virtual_pointer.get_address();
        match translate(address, virtual_start, physical_start, protected_bytes) {
            None => Err(virtual_pointer),
            Some(translated) => {
                proof {
                    U::lemma_single_byte();
                }
                match Pointer::new(translated) {
                    Ok(pointer) => Ok(pointer),
                    Err(()) => Err(virtual_pointer),
                }
            },
        }
    }

    /// The physical pointer to a virtual byte within the allocated granules,
    /// or the virtual pointer back if it lies outside them.
    pub fn translate_allocated_virtual_pointer_byte<const IS_MUTABLE: bool, U: AlwaysAligned>(
        &self,
        virtual_pointer: ValidVirtualPointer<IS_USER, IS_MUTABLE, U>,
    ) -> (r: Result<PhysicalPointer<IS_MUTABLE, U>, ValidVirtualPointer<IS_USER, IS_MUTABLE, U>>)
        ensures
            r is Ok <==> self.allocated_physical_of_virtual(virtual_pointer.spec_address() as int) is Some,
            r matches Ok(pointer) ==> self.allocated_physical_of_virtual(virtual_pointer.spec_address() as int)
                == Some(pointer.spec_address() as int),
            r matches Err(pointer) ==> pointer == virtual_pointer,
    {
        let (physical_start, virtual_start, allocated_bytes, _) = self.get_bounds();
        let address: usize = virtual_pointer.get_address();
        match translate(address, virtual_start, physical_start, allocated_bytes) {
            None => Err(virtual_pointer),
            Some(translated) => {
                proof {
                    U::lemma_single_byte();
                }
                match Pointer::new(translated) {
                    Ok(pointer) => Ok(pointer),
                    Err(()) => Err(virtual_pointer),
                }
            },
        }
    }
}


/// A mapped protected region with a dirty flag, raised whenever its
/// protection changes and cleared once the hardware has been updated.
pub struct DirtyMappedProtectedAllocatedRegion<const IS_USER: bool, T: Granule> {
    mapped_protected_allocated_region: MappedProtectedAllocatedRegion<IS_USER, T>,
    is_dirty: bool,
}

/// A user mapped protected region with a dirty flag.
pub type UserDirtyMappedProtectedAllocatedRegion<T> = DirtyMappedProtectedAllocatedRegion<true, T>;

/// A kernel mapped protected region with a dirty flag.
pub type KernelDirtyMappedProtectedAllocatedRegion<T> = DirtyMappedProtectedAllocatedRegion<false, T>;

impl<const IS_USER: bool, T: Granule> DirtyMappedProtectedAllocatedRegion<IS_USER, T> {
    /// The region.
    pub closed spec fn spec_region(self) -> MappedProtectedAllocatedRegion<IS_USER, T> {
        self.mapped_protected_allocated_region
    }

    /// Whether the hardware may not reflect the region yet.
    pub closed spec fn spec_is_dirty(self) -> bool {
        self.is_dirty
    }

    /// A new region is dirty: the hardware has not seen it yet.
    pub fn new(mapped_protected_allocated_region: MappedProtectedAllocatedRegion<IS_USER, T>) -> (r: Self)
        ensures
            r.spec_region() == mapped_protected_allocated_region,
            r.spec_is_dirty(),
    {
        DirtyMappedProtectedAllocatedRegion { mapped_protected_allocated_region, is_dirty: true }
    }

    pub fn as_mapped_protected_allocated_region(&self) -> (r: &MappedProtectedAllocatedRegion<IS_USER, T>)
        ensures
            *r == self.spec_region(),
    {
        &self.mapped_protected_allocated_region
    }

    pub fn is_dirty(&self) -> (r: bool)
        ensures
            r == self.spec_is_dirty(),
    {
        self.is_dirty
    }

    pub fn clear_dirty(&mut self)
        ensures
            final(self).spec_region() == old(self).spec_region(),
            !final(self).spec_is_dirty(),
    {
        self.is_dirty = false;
    }

    fn set_dirty(&mut self)
        ensures
            final(self).spec_region() == old(self).spec_region(),
            final(self).spec_is_dirty(),
    {
        self.is_dirty = true;
    }

    /// Protects the first `length` allocated granules instead, and marks the
    /// region dirty; fails, changing nothing, if the region is shorter than that.
    pub fn resize(&mut self, length: usize) -> (r: Result<(), ()>)
        requires
            length > 0,
        ensures
            r is Ok <==> length <= old(self).spec_region().spec_allocated_length(),
            final(self).spec_region().spec_physical_start() == old(self).spec_region().spec_physical_start(),
            final(self).spec_region().spec_virtual_start() == old(self).spec_region().spec_virtual_start(),
            final(self).spec_region().spec_allocated_length() == old(self).spec_region().spec_allocated_length(),
            final(self).spec_region().spec_permissions() == old(self).spec_region().spec_permissions(),
            final(self).spec_region().spec_protected_length() == if r is Ok {
                length as nat
            } else {
                old(self).spec_region().spec_protected_length()
            },
            final(self).spec_is_dirty() == (old(self).spec_is_dirty() || r is Ok),
    {
        let result = self.mapped_protected_allocated_region.resize(length);
        if result.is_ok() {
            self.set_dirty();
        }
        result
    }

    pub fn translate_allocated_physical_pointer_byte<const IS_MUTABLE: bool, U: AlwaysAligned>(
        &self,
        physical_pointer: PhysicalPointer<IS_MUTABLE, U>,
    ) -> (r: Result<ValidVirtualPointer<IS_USER, IS_MUTABLE, U>, PhysicalPointer<IS_MUTABLE, U>>)
        ensures
            r is Ok <==> self.spec_region().allocated_virtual_of_physical(physical_pointer.spec_address() as int) is Some,
            r matches Ok(pointer) ==> self.spec_region().allocated_virtual_of_physical(physical_pointer.spec_address() as int)
                == Some(pointer.spec_address() as int),
            r matches Err(pointer) ==> pointer == physical_pointer,
    {
        self.mapped_protected_allocated_region.translate_allocated_physical_pointer_byte(physical_pointer)
    }

    pub fn translate_protected_physical_pointer_byte<const IS_MUTABLE: bool, U: AlwaysAligned>(
        &self,
        physical_pointer: PhysicalPointer<IS_MUTABLE, U>,
    ) -> (r: Result<ValidVirtualPointer<IS_USER, IS_MUTABLE, U>, PhysicalPointer<IS_MUTABLE, U>>)
        ensures
            r is Ok <==> self.spec_region().protected_virtual_of_physical(physical_pointer.spec_address() as int) is Some,
            r matches Ok(pointer) ==> self.spec_region().protected_virtual_of_physical(physical_pointer.spec_address() as int)
                == Some(pointer.spec_address() as int),
            r matches Err(pointer) ==> pointer == physical_pointer,
    {
        self.mapped_protected_allocated_region.translate_protected_physical_pointer_byte(physical_pointer)
    }

    pub fn translate_protected_virtual_pointer_byte<const IS_MUTABLE: bool, U: AlwaysAligned>(
        &self,
        virtual_pointer: ValidVirtualPointer<IS_USER, IS_MUTABLE, U>,
    ) -> (r: Result<PhysicalPointer<IS_MUTABLE, U>, ValidVirtualPointer<IS_USER, IS_MUTABLE, U>>)
        ensures
            r is Ok <==> self.spec_region().protected_physical_of_virtual(virtual_pointer.spec_address() as int) is Some,
            r matches Ok(pointer) ==> self.spec_region().protected_physical_of_virtual(virtual_pointer.spec_address() as int)
                == Some(pointer.spec_address() as int),
            r matches Err(pointer) ==> pointer == virtual_pointer,
    {
        self.mapped_protected_allocated_region.translate_protected_virtual_pointer_byte(virtual_pointer)
    }

    pub fn translate_allocated_virtual_pointer_byte<const IS_MUTABLE: bool, U: AlwaysAligned>(
        &self,
        virtual_pointer: ValidVirtualPointer<IS_USER, IS_MUTABLE, U>,
    ) -> (r: Result<PhysicalPointer<IS_MUTABLE, U>, ValidVirtualPointer<IS_USER, IS_MUTABLE, U>>)
        ensures
            r is Ok <==> self.spec_region().allocated_physical_of_virtual(virtual_pointer.spec_address() as int) is Some,
            r matches Ok(pointer) ==> self.spec_region().allocated_physical_of_virtual(virtual_pointer.spec_address() as int)
                == Some(pointer.spec_address() as int),
            r matches Err(pointer) ==> pointer == virtual_pointer,
    {
        self.mapped_protected_allocated_region.translate_allocated_virtual_pointer_byte(virtual_pointer)
    }
}

/// Translating an address into a range and back gives the address again.
pub proof fn lemma_translation_round_trip(address: int, from_start: int, to_start: int, byte_count: int)
    requires
        translate_address(address, from_start, to_start, byte_count) is Some,
    ensures
        translate_address(
            translate_address(address, from_start, to_start, byte_count)->0,
            to_start,
            from_start,
            byte_count,
        ) == Some(address),
{
}

/// A physical byte of a mapped region and its virtual address are each
/// other's translation: mapping physical to virtual and back is the identity,
/// for the allocated and for the protected granules alike.
pub proof fn lemma_region_translation_round_trip<const IS_USER: bool, T: Granule>(
    region: MappedProtectedAllocatedRegion<IS_USER, T>,
    physical_address: int,
    virtual_address: int,
)
    ensures
        region.allocated_virtual_of_physical(physical_address) == Some(virtual_address)
            <==> region.allocated_physical_of_virtual(virtual_address) == Some(physical_address),
        region.protected_virtual_of_physical(physical_address) == Some(virtual_address)
            <==> region.protected_physical_of_virtual(virtual_address) == Some(physical_address),
{
}

/// A byte that is protected is also allocated, and both translations agree on it.
pub proof fn lemma_protected_within_allocated<const IS_USER: bool, T: Granule>(
    region: MappedProtectedAllocatedRegion<IS_USER, T>,
    address: int,
)
    requires
        region.spec_protected_length() <= region.spec_allocated_length(),
    ensures
        region.protected_virtual_of_physical(address) is Some ==> region.allocated_virtual_of_physical(address)
            == region.protected_virtual_of_physical(address),
        region.protected_physical_of_virtual(address) is Some ==> region.allocated_physical_of_virtual(address)
            == region.protected_physical_of_virtual(address),
{
    assert(region.spec_protected_bytes() <= region.spec_allocated_bytes()) by (nonlinear_arith)
        requires
            region.spec_protected_length() <= region.spec_allocated_length(),
            region.spec_protected_bytes() == region.spec_protected_length() * T::spec_size_u8(),
            region.spec_allocated_bytes() == region.spec_allocated_length() * T::spec_size_u8(),
    {
    }
}

/// Overlap of ranges does not depend on the order in which they are given.
pub proof fn lemma_overlap_symmetric(a_start: int, a_end: int, b_start: int, b_end: int)
    ensures
        ranges_overlap(a_start, a_end, b_start, b_end) == ranges_overlap(b_start, b_end, a_start, a_end),
{
}

} // verus!
