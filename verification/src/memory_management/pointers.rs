//! Physical and virtual pointers.
//!
//! A pointer is modelled by its address: a non-zero integer that is a multiple
//! of the size of the granule it points to. The const parameters record
//! whether the address is virtual or physical and whether the memory behind
//! it may be written; they take no part in the arithmetic.

use super::granules::{AlwaysAligned, Granule};
use core::marker::PhantomData;
use vstd::prelude::*;

verus! {

/// `address` is a valid address of a granule of `size` bytes: non-null and aligned.
pub open spec fn valid_address(address: int, size: nat) -> bool {
    &&& 0 < address <= usize::MAX
    &&& size > 0
    &&& address % (size as int) == 0
}

/// Moving an aligned address by whole granules keeps it aligned.
pub proof fn lemma_aligned_shift(address: int, count: int, size: nat)
    requires
        size > 0,
        address % (size as int) == 0,
    ensures
        (address + count * size) % (size as int) == 0,
        (address - count * size) % (size as int) == 0,
{
    vstd::arithmetic::div_mod::lemma_mod_multiples_vanish(count, address, size as int);
    vstd::arithmetic::div_mod::lemma_mod_multiples_vanish(-count, address, size as int);
    assert(size * count + address == address + count * size) by (nonlinear_arith);
    assert(size * (-count) + address == address - count * size) by (nonlinear_arith);
}

/// `count * size` in machine arithmetic, or `None` on overflow.
fn checked_byte_count(count: usize, size: usize) -> (r: Option<usize>)
    ensures
        r is Some <==> count * size <= usize::MAX,
        r matches Some(bytes) ==> bytes == count * size,
{
    count.checked_mul(size)
}

/// A pointer from the perspective of the memory management system.
pub struct Pointer<const IS_VIRTUAL: bool, const IS_MUTABLE: bool, T: Granule> {
    address: usize,
    granule: PhantomData<T>,
}

/// An immutable pointer from the perspective of the memory management system.
pub type ImmutablePointer<const IS_VIRTUAL: bool, T> = Pointer<IS_VIRTUAL, false, T>;

/// A mutable pointer from the perspective of the memory management system.
pub type MutablePointer<const IS_VIRTUAL: bool, T> = Pointer<IS_VIRTUAL, true, T>;

/// A physical pointer.
pub type PhysicalPointer<const IS_MUTABLE: bool, T> = Pointer<false, IS_MUTABLE, T>;

/// An immutable physical pointer.
pub type ImmutablePhysicalPointer<T> = PhysicalPointer<false, T>;

/// A mutable physical pointer.
pub type MutablePhysicalPointer<T> = PhysicalPointer<true, T>;

/// A virtual pointer.
pub type VirtualPointer<const IS_MUTABLE: bool, T> = Pointer<true, IS_MUTABLE, T>;

/// An immutable virtual pointer.
pub type ImmutableVirtualPointer<T> = VirtualPointer<false, T>;

/// A mutable virtual pointer.
pub type MutableVirtualPointer<T> = VirtualPointer<true, T>;

impl<const IS_VIRTUAL: bool, const IS_MUTABLE: bool, T: Granule> Clone for Pointer<
    IS_VIRTUAL,
    IS_MUTABLE,
    T,
> {
    fn clone(&self) -> (r: Self)
        ensures
            r == *self,
    {
        proof {
            use_type_invariant(self);
        }
        Pointer { address: self.address, granule: PhantomData }
    }
}

impl<const IS_VIRTUAL: bool, const IS_MUTABLE: bool, T: Granule> Copy for Pointer<
    IS_VIRTUAL,
    IS_MUTABLE,
    T,
> {

}

impl<const IS_VIRTUAL: bool, const IS_MUTABLE: bool, T: Granule> Pointer<IS_VIRTUAL, IS_MUTABLE, T> {
    /// The address the pointer holds.
    pub closed spec fn spec_address(self) -> nat {
        self.address as nat
    }

    #[verifier::type_invariant]
    closed spec fn is_valid(self) -> bool {
        valid_address(self.address as int, T::spec_size_u8())
    }

    /// Every pointer holds a valid address.
    pub fn get_address(&self) -> (r: usize)
        ensures
            r == self.spec_address(),
            valid_address(r as int, T::spec_size_u8()),
    {
        proof {
            use_type_invariant(self);
        }
        self.address
    }

    /// Creates a pointer to `address`, which must be non-null and aligned.
    pub fn new(address: usize) -> (r: Result<Self, ()>)
        ensures
            r is Ok <==> valid_address(address as int, T::spec_size_u8()),
            r matches Ok(pointer) ==> pointer.spec_address() == address,
    {
        let size: usize = T::size_u8();
        if address == 0 || address % size != 0 {
            Err(())
        } else {
            Ok(Pointer { address, granule: PhantomData })
        }
    }

    /// A copy of the pointer.
    pub fn duplicate(&self) -> (r: Self)
        ensures
            r.spec_address() == self.spec_address(),
    {
        proof {
            use_type_invariant(self);
        }
        Pointer { address: self.address, granule: PhantomData }
    }

    pub fn to_nullable(self) -> (r: NullablePointer<IS_VIRTUAL, IS_MUTABLE, T>)
        ensures
            r == NullablePointer::NonNull(self),
    {
        NullablePointer::new_non_null(self)
    }

    /// The same address, without the permission to write.
    pub fn to_immutable(self) -> (r: Pointer<IS_VIRTUAL, false, T>)
        ensures
            r.spec_address() == self.spec_address(),
    {
        proof {
            use_type_invariant(self);
        }
        Pointer { address: self.address, granule: PhantomData }
    }

    /// The same address, without the permission to write.
    pub fn as_immutable(&self) -> (r: Pointer<IS_VIRTUAL, false, T>)
        ensures
            r.spec_address() == self.spec_address(),
    {
        proof {
            use_type_invariant(self);
        }
        Pointer { address: self.address, granule: PhantomData }
    }

    /// The same address, seen as a pointer to a granule that is aligned on
    /// every address.
    pub fn infallible_cast<U: AlwaysAligned>(self) -> (r: Pointer<IS_VIRTUAL, IS_MUTABLE, U>)
        ensures
            r.spec_address() == self.spec_address(),
    {
        proof {
            use_type_invariant(self);
            U::lemma_single_byte();
        }
        Pointer { address: self.address, granule: PhantomData }
    }

    /// The same address, seen as a pointer to a granule that is aligned on
    /// every address.
    pub fn infallible_cast_ref<U: AlwaysAligned>(&self) -> (r: Pointer<IS_VIRTUAL, IS_MUTABLE, U>)
        ensures
            r.spec_address() == self.spec_address(),
    {
        proof {
            use_type_invariant(self);
            U::lemma_single_byte();
        }
        Pointer { address: self.address, granule: PhantomData }
    }

    /// The pointer `count` granules after this one, or `Err` if that address
    /// does not fit in a `usize`.
    pub fn checked_add(&self, count: usize) -> (r: Result<Self, ()>)
        requires
            count > 0,
        ensures
            r is Ok <==> self.spec_address() + count * T::spec_size_u8() <= usize::MAX,
            r matches Ok(pointer) ==> pointer.spec_address() == self.spec_address() + count
                * T::spec_size_u8(),
    {
        proof {
            use_type_invariant(self);
        }
        let size: usize = T::size_u8();
        let byte_count: usize = match checked_byte_count(count, size) {
            None => {
                assert(self.address + count * size > usize::MAX) by (nonlinear_arith)
                    requires
                        count * size > usize::MAX,
                        self.address > 0,
                {
                }
                return Err(());
            },
            Some(byte_count) => byte_count,
        };
        match self.address.checked_add(byte_count) {
            None => Err(()),
            Some(address) => {
                proof {
                    lemma_aligned_shift(self.address as int, count as int, T::spec_size_u8());
                }
                Ok(Pointer { address, granule: PhantomData })
            },
        }
    }

    /// The pointer `count` granules before this one, or `Err` if that address
    /// would be null or below zero.
    pub fn checked_sub(&self, count: usize) -> (r: Result<Self, ()>)
        requires
            count > 0,
        ensures
            r is Ok <==> self.spec_address() - count * T::spec_size_u8() > 0,
            r matches Ok(pointer) ==> pointer.spec_address() == self.spec_address() - count
                * T::spec_size_u8(),
    {
        proof {
            use_type_invariant(self);
        }
        let size: usize = T::size_u8();
        let byte_count: usize = match checked_byte_count(count, size) {
            None => {
                return Err(());
            },
            Some(byte_count) => byte_count,
        };
        if byte_count >= self.address {
            Err(())
        } else {
            proof {
                lemma_aligned_shift(self.address as int, count as int, T::spec_size_u8());
            }
            Ok(Pointer { address: self.address - byte_count, granule: PhantomData })
        }
    }

    /// The pointer `count` granules away from this one (backwards when
    /// `count` is negative), or `Err` if that address would be null or would
    /// not fit in a `usize`.
    pub fn checked_offset(&self, count: isize) -> (r: Result<Self, ()>)
        requires
            count != 0,
        ensures
            r is Ok <==> 0 < self.spec_address() + count * T::spec_size_u8() <= usize::MAX,
            r matches Ok(pointer) ==> pointer.spec_address() == self.spec_address() + count
                * T::spec_size_u8(),
    {
        proof {
            use_type_invariant(self);
        }
        if count > 0 {
            self.checked_add(count as usize)
        } else {
            let magnitude: usize = (-(count as i128)) as usize;
            assert(magnitude * T::spec_size_u8() == -(count * T::spec_size_u8())) by (nonlinear_arith)
                requires
                    magnitude == -count,
            {
            }
            self.checked_sub(magnitude)
        }
    }

    pub fn checked_add_zero(&self, count: usize) -> (r: Result<Self, ()>)
        ensures
            r is Ok <==> self.spec_address() + count * T::spec_size_u8() <= usize::MAX,
            r matches Ok(pointer) ==> pointer.spec_address() == self.spec_address() + count
                * T::spec_size_u8(),
    {
        if count == 0 {
            proof {
                use_type_invariant(self);
                assert(count * T::spec_size_u8() == 0) by (nonlinear_arith)
                    requires
                        count == 0,
                {
                }
            }
            Ok(self.duplicate())
        } else {
            self.checked_add(count)
        }
    }

    /// Like `checked_add_zero`: a non-zero count moves the pointer forward.
    pub fn checked_sub_zero(&self, count: usize) -> (r: Result<Self, ()>)
        ensures
            r is Ok <==> self.spec_address() + count * T::spec_size_u8() <= usize::MAX,
            r matches Ok(pointer) ==> pointer.spec_address() == self.spec_address() + count
                * T::spec_size_u8(),
    {
        if count == 0 {
            proof {
                use_type_invariant(self);
                assert(count * T::spec_size_u8() == 0) by (nonlinear_arith)
                    requires
                        count == 0,
                {
                }
            }
            Ok(self.duplicate())
        } else {
            self.checked_add(count)
        }
    }

    pub fn checked_offset_zero(&self, count: isize) -> (r: Result<Self, ()>)
        ensures
            r is Ok <==> 0 < self.spec_address() + count * T::spec_size_u8() <= usize::MAX,
            r matches Ok(pointer) ==> pointer.spec_address() == self.spec_address() + count
                * T::spec_size_u8(),
    {
        if count == 0 {
            proof {
                use_type_invariant(self);
                assert(count * T::spec_size_u8() == 0) by (nonlinear_arith)
                    requires
                        count == 0,
                {
                }
            }
            Ok(self.duplicate())
        } else {
            self.checked_offset(count)
        }
    }

    /// The number of granules from `origin` up to `self`, which lies after it.
    pub fn distance_from_origin(&self, origin: &Self) -> (r: usize)
        requires
            self.spec_address() > origin.spec_address(),
        ensures
            r > 0,
            r * T::spec_size_u8() == self.spec_address() - origin.spec_address(),
    {
        proof {
            use_type_invariant(self);
            use_type_invariant(origin);
        }
        let size: usize = T::size_u8();
        let difference: usize = self.address - origin.address;
        proof {
            granule_difference(self.address as int, origin.address as int, size as int);
            assert(difference / size > 0) by (nonlinear_arith)
                requires
                    (difference / size) * size == difference,
                    difference > 0,
            {
            }
        }
        difference / size
    }

    /// The signed number of granules from `origin` to `self`.
    pub fn offset_from(&self, origin: &Self) -> (r: isize)
        requires
            -isize::MAX <= self.spec_address() - origin.spec_address() <= isize::MAX,
        ensures
            r * T::spec_size_u8() == self.spec_address() - origin.spec_address(),
    {
        proof {
            use_type_invariant(self);
            use_type_invariant(origin);
        }
        let size: usize = T::size_u8();
        proof {
            T::lemma_size_bounds();
        }
        if self.address >= origin.address {
            let difference: usize = self.address - origin.address;
            proof {
                granule_difference(self.address as int, origin.address as int, size as int);
                assert(difference / size <= difference) by (nonlinear_arith)
                    requires
                        size >= 1,
                {
                }
            }
            (difference / size) as isize
        } else {
            let difference: usize = origin.address - self.address;
            proof {
                granule_difference(origin.address as int, self.address as int, size as int);
                assert(difference / size <= difference) by (nonlinear_arith)
                    requires
                        size >= 1,
                {
                }
            }
            let quotient: usize = difference / size;
            proof {
                assert((-quotient) * size == -(quotient * size)) by (nonlinear_arith);
            }
            -(quotient as isize)
        }
    }

    /// The same address as a pointer to another granule, or `Err(self)` if
    /// the address is not aligned to that granule.
    pub fn cast<U: Granule>(self) -> (r: Result<Pointer<IS_VIRTUAL, IS_MUTABLE, U>, Self>)
        ensures
            r is Ok <==> self.spec_address() % U::spec_size_u8() == 0,
            r matches Ok(pointer) ==> pointer.spec_address() == self.spec_address(),
            r matches Err(pointer) ==> pointer == self,
    {
        proof {
            use_type_invariant(self);
        }
        let size: usize = U::size_u8();
        if self.address % size == 0 {
            Ok(Pointer { address: self.address, granule: PhantomData })
        } else {
            Err(self)
        }
    }
}

/// Two aligned addresses are a whole number of granules apart.
proof fn granule_difference(high: int, low: int, size: int)
    requires
        size > 0,
        high % size == 0,
        low % size == 0,
        high >= low,
    ensures
        ((high - low) / size) * size == high - low,
{
    vstd::arithmetic::div_mod::lemma_fundamental_div_mod(high, size);
    vstd::arithmetic::div_mod::lemma_fundamental_div_mod(low, size);
    let qh = high / size;
    let ql = low / size;
    assert(high - low == size * (qh - ql)) by (nonlinear_arith)
        requires
            high == size * qh,
            low == size * ql,
    {
    }
    vstd::arithmetic::div_mod::lemma_div_multiples_vanish(qh - ql, size);
    assert(((high - low) / size) * size == high - low) by (nonlinear_arith)
        requires
            (high - low) / size == qh - ql,
            high - low == size * (qh - ql),
    {
    }
}

impl<const IS_MUTABLE: bool, T: Granule> Pointer<false, IS_MUTABLE, T> {
    /// The flat mapping of a physical pointer: the virtual pointer with the
    /// same address.
    pub fn to_virtual_pointer(self) -> (r: VirtualPointer<IS_MUTABLE, T>)
        ensures
            r.spec_address() == self.spec_address(),
    {
        proof {
            use_type_invariant(self);
        }
        Pointer { address: self.address, granule: PhantomData }
    }
}

impl<const IS_MUTABLE: bool, T: Granule> Pointer<true, IS_MUTABLE, T> {
    /// The flat mapping of a virtual pointer: the physical pointer with the
    /// same address. The caller vouches that the flat mapping is valid.
    pub fn to_physical_pointer(self) -> (r: PhysicalPointer<IS_MUTABLE, T>)
        ensures
            r.spec_address() == self.spec_address(),
    {
        proof {
            use_type_invariant(self);
        }
        Pointer { address: self.address, granule: PhantomData }
    }
}

impl<const IS_VIRTUAL: bool, T: Granule> Pointer<IS_VIRTUAL, true, T> {
    /// The same address, with mutability chosen by the caller.
    pub fn cast_mutability<const IS_MUTABLE: bool>(self) -> (r: Pointer<IS_VIRTUAL, IS_MUTABLE, T>)
        ensures
            r.spec_address() == self.spec_address(),
    {
        proof {
            use_type_invariant(self);
        }
        Pointer { address: self.address, granule: PhantomData }
    }
}

/// A valid virtual pointer, that is, a virtual pointer that belongs to the kernel or to a process.
pub struct ValidVirtualPointer<const IS_USER: bool, const IS_MUTABLE: bool, T: Granule>(
    Pointer<true, IS_MUTABLE, T>,
);

/// A valid immutable virtual pointer.
pub type ValidImmutableVirtualPointer<const IS_USER: bool, T> = ValidVirtualPointer<
    IS_USER,
    false,
    T,
>;

/// A valid mutable virtual pointer.
pub type ValidMutableVirtualPointer<const IS_USER: bool, T> = ValidVirtualPointer<IS_USER, true, T>;

/// A user virtual pointer.
pub type UserVirtualPointer<const IS_MUTABLE: bool, T> = ValidVirtualPointer<true, IS_MUTABLE, T>;

/// An immutable user virtual pointer.
pub type ImmutableUserVirtualPointer<T> = UserVirtualPointer<false, T>;

/// A mutable user virtual pointer.
pub type MutableUserVirtualPointer<T> = UserVirtualPointer<true, T>;

/// A kernel virtual pointer.
pub type KernelVirtualPointer<const IS_MUTABLE: bool, T> = ValidVirtualPointer<false, IS_MUTABLE, T>;

/// An immutable kernel virtual pointer.
pub type ImmutableKernelVirtualPointer<T> = KernelVirtualPointer<false, T>;

/// A mutable kernel virtual pointer.
pub type MutableKernelVirtualPointer<T> = KernelVirtualPointer<true, T>;

impl<const IS_USER: bool, const IS_MUTABLE: bool, T: Granule> ValidVirtualPointer<
    IS_USER,
    IS_MUTABLE,
    T,
> {
    /// The address the pointer holds.
    pub closed spec fn spec_address(self) -> nat {
        self.0.spec_address()
    }

    /// Marks a virtual pointer as belonging to a process (`IS_USER`) or to
    /// the kernel; the caller vouches for it.
    pub fn new(virtual_pointer: VirtualPointer<IS_MUTABLE, T>) -> (r: Self)
        ensures
            r.spec_address() == virtual_pointer.spec_address(),
    {
        ValidVirtualPointer(virtual_pointer)
    }

    /// Creates a valid virtual pointer to `address`, which must be non-null and aligned.
    pub fn new_from_address(address: usize) -> (r: Result<Self, ()>)
        ensures
            r is Ok <==> valid_address(address as int, T::spec_size_u8()),
            r matches Ok(pointer) ==> pointer.spec_address() == address,
    {
        match Pointer::new(address) {
            Ok(pointer) => Ok(ValidVirtualPointer(pointer)),
            Err(()) => Err(()),
        }
    }

    pub fn to_virtual_pointer(&self) -> (r: VirtualPointer<IS_MUTABLE, T>)
        ensures
            r.spec_address() == self.spec_address(),
    {
        self.0.duplicate()
    }

    pub fn to_nullable(self) -> (r: ValidNullableVirtualPointer<IS_USER, IS_MUTABLE, T>)
        ensures
            r == ValidNullableVirtualPointer::NonNull(self),
    {
        ValidNullableVirtualPointer::new_non_null(self)
    }

    pub fn get_address(&self) -> (r: usize)
        ensures
            r == self.spec_address(),
            valid_address(r as int, T::spec_size_u8()),
    {
        self.0.get_address()
    }

    /// The same address, without the permission to write.
    pub fn to_immutable(self) -> (r: ValidImmutableVirtualPointer<IS_USER, T>)
        ensures
            r.spec_address() == self.spec_address(),
    {
        ValidVirtualPointer(self.0.to_immutable())
    }

    pub fn infallible_cast<U: AlwaysAligned>(self) -> (r: ValidVirtualPointer<IS_USER, IS_MUTABLE, U>)
        ensures
            r.spec_address() == self.spec_address(),
    {
        ValidVirtualPointer(self.0.infallible_cast())
    }

    pub fn infallible_cast_ref<U: AlwaysAligned>(&self) -> (r: ValidVirtualPointer<
        IS_USER,
        IS_MUTABLE,
        U,
    >)
        ensures
            r.spec_address() == self.spec_address(),
    {
        ValidVirtualPointer(self.0.infallible_cast_ref())
    }

    pub fn checked_add(&self, count: usize) -> (r: Result<Self, ()>)
        requires
            count > 0,
        ensures
            r is Ok <==> self.spec_address() + count * T::spec_size_u8() <= usize::MAX,
            r matches Ok(pointer) ==> pointer.spec_address() == self.spec_address() + count
                * T::spec_size_u8(),
    {
        match self.0.checked_add(count) {
            Ok(pointer) => Ok(ValidVirtualPointer(pointer)),
            Err(()) => Err(()),
        }
    }

    pub fn checked_add_zero(&self, count: usize) -> (r: Result<Self, ()>)
        ensures
            r is Ok <==> self.spec_address() + count * T::spec_size_u8() <= usize::MAX,
            r matches Ok(pointer) ==> pointer.spec_address() == self.spec_address() + count
                * T::spec_size_u8(),
    {
        match self.0.checked_add_zero(count) {
            Ok(pointer) => Ok(ValidVirtualPointer(pointer)),
            Err(()) => Err(()),
        }
    }

    pub fn checked_offset(&self, count: isize) -> (r: Result<Self, ()>)
        requires
            count != 0,
        ensures
            r is Ok <==> 0 < self.spec_address() + count * T::spec_size_u8() <= usize::MAX,
            r matches Ok(pointer) ==> pointer.spec_address() == self.spec_address() + count
                * T::spec_size_u8(),
    {
        match self.0.checked_offset(count) {
            Ok(pointer) => Ok(ValidVirtualPointer(pointer)),
            Err(()) => Err(()),
        }
    }

    pub fn offset_from(&self, origin: &Self) -> (r: isize)
        requires
            -isize::MAX <= self.spec_address() - origin.spec_address() <= isize::MAX,
        ensures
            r * T::spec_size_u8() == self.spec_address() - origin.spec_address(),
    {
        self.0.offset_from(&origin.0)
    }

    pub fn cast<U: Granule>(self) -> (r: Result<ValidVirtualPointer<IS_USER, IS_MUTABLE, U>, Self>)
        ensures
            r is Ok <==> self.spec_address() % U::spec_size_u8() == 0,
            r matches Ok(pointer) ==> pointer.spec_address() == self.spec_address(),
            r matches Err(pointer) ==> pointer == self,
    {
        match self.0.cast() {
            Ok(pointer) => Ok(ValidVirtualPointer(pointer)),
            Err(pointer) => Err(ValidVirtualPointer(pointer)),
        }
    }

    /// A copy of the pointer.
    pub fn duplicate(&self) -> (r: Self)
        ensures
            r.spec_address() == self.spec_address(),
    {
        ValidVirtualPointer(self.0.duplicate())
    }
}

impl<const IS_USER: bool, T: Granule> ValidVirtualPointer<IS_USER, true, T> {
    pub fn cast_mutability<const IS_MUTABLE: bool>(self) -> (r: ValidVirtualPointer<
        IS_USER,
        IS_MUTABLE,
        T,
    >)
        ensures
            r.spec_address() == self.spec_address(),
    {
        ValidVirtualPointer(self.0.cast_mutability())
    }
}

/// A nullable pointer from the perspective of the memory management system.
pub enum NullablePointer<const IS_VIRTUAL: bool, const IS_MUTABLE: bool, T: Granule> {
    Null,
    NonNull(Pointer<IS_VIRTUAL, IS_MUTABLE, T>),
}

/// A nullable physical pointer.
pub type NullablePhysicalPointer<const IS_MUTABLE: bool, T> = NullablePointer<false, IS_MUTABLE, T>;

/// A nullable virtual pointer.
pub type NullableVirtualPointer<const IS_MUTABLE: bool, T> = NullablePointer<true, IS_MUTABLE, T>;

impl<const IS_VIRTUAL: bool, const IS_MUTABLE: bool, T: Granule> NullablePointer<
    IS_VIRTUAL,
    IS_MUTABLE,
    T,
> {
    /// The address the pointer holds, zero for the null pointer.
    pub open spec fn spec_address(self) -> nat {
        match self {
            NullablePointer::Null => 0,
            NullablePointer::NonNull(pointer) => pointer.spec_address(),
        }
    }

    pub fn new_null() -> (r: Self)
        ensures
            r is Null,
    {
        NullablePointer::Null
    }

    pub fn new_non_null(pointer: Pointer<IS_VIRTUAL, IS_MUTABLE, T>) -> (r: Self)
        ensures
            r == NullablePointer::NonNull(pointer),
    {
        NullablePointer::NonNull(pointer)
    }

    pub fn infallible_cast<U: AlwaysAligned>(self) -> (r: NullablePointer<IS_VIRTUAL, IS_MUTABLE, U>)
        ensures
            r is Null <==> self is Null,
            r.spec_address() == self.spec_address(),
    {
        match self {
            NullablePointer::Null => NullablePointer::new_null(),
            NullablePointer::NonNull(pointer) => NullablePointer::new_non_null(
                pointer.infallible_cast(),
            ),
        }
    }

    pub fn get_address(&self) -> (r: usize)
        ensures
            r == self.spec_address(),
    {
        match self {
            NullablePointer::Null => 0,
            NullablePointer::NonNull(pointer) => pointer.get_address(),
        }
    }

    /// The pointer `count` granules after this one (after address zero for
    /// the null pointer), or `Err` if that address does not fit in a `usize`.
    pub fn checked_add(self, count: usize) -> (r: Result<Pointer<IS_VIRTUAL, IS_MUTABLE, T>, ()>)
        requires
            count > 0,
        ensures
            r is Ok <==> self.spec_address() + count * T::spec_size_u8() <= usize::MAX,
            r matches Ok(pointer) ==> pointer.spec_address() == self.spec_address() + count
                * T::spec_size_u8(),
    {
        match self {
            NullablePointer::NonNull(pointer) => pointer.checked_add(count),
            NullablePointer::Null => {
                let size: usize = T::size_u8();
                match checked_byte_count(count, size) {
                    None => Err(()),
                    Some(byte_count) => {
                        proof {
                            assert(byte_count >= 1) by (nonlinear_arith)
                                requires
                                    byte_count == count * size,
                                    count >= 1,
                                    size >= 1,
                            {
                            }
                            vstd::arithmetic::div_mod::lemma_mod_multiples_basic(
                                count as int,
                                size as int,
                            );
                        }
                        Pointer::new(byte_count)
                    },
                }
            },
        }
    }
}

impl<const IS_MUTABLE: bool, T: Granule> NullablePointer<true, IS_MUTABLE, T> {
    /// The flat mapping of a nullable virtual pointer.
    pub fn to_physical_pointer(self) -> (r: NullablePhysicalPointer<IS_MUTABLE, T>)
        ensures
            r is Null <==> self is Null,
            r.spec_address() == self.spec_address(),
    {
        match self {
            NullablePointer::Null => NullablePointer::Null,
            NullablePointer::NonNull(pointer) => NullablePointer::NonNull(
                pointer.to_physical_pointer(),
            ),
        }
    }
}

/// A valid nullable virtual pointer, that is, a virtual pointer that belongs to the kernel or to a
/// process.
pub enum ValidNullableVirtualPointer<const IS_USER: bool, const IS_MUTABLE: bool, T: Granule> {
    Null,
    NonNull(ValidVirtualPointer<IS_USER, IS_MUTABLE, T>),
}

impl<const IS_USER: bool, const IS_MUTABLE: bool, T: Granule> ValidNullableVirtualPointer<
    IS_USER,
    IS_MUTABLE,
    T,
> {
    /// The address the pointer holds, zero for the null pointer.
    pub open spec fn spec_address(self) -> nat {
        match self {
            ValidNullableVirtualPointer::Null => 0,
            ValidNullableVirtualPointer::NonNull(pointer) => pointer.spec_address(),
        }
    }

    pub fn new_null() -> (r: Self)
        ensures
            r is Null,
    {
        ValidNullableVirtualPointer::Null
    }

    pub fn new_non_null(valid_virtual_pointer: ValidVirtualPointer<IS_USER, IS_MUTABLE, T>) -> (r:
        Self)
        ensures
            r == ValidNullableVirtualPointer::NonNull(valid_virtual_pointer),
    {
        ValidNullableVirtualPointer::NonNull(valid_virtual_pointer)
    }

    /// Forgets that the pointer belongs to a process or to the kernel.
    pub fn downgrade(self) -> (r: NullableVirtualPointer<IS_MUTABLE, T>)
        ensures
            r is Null <==> self is Null,
            r.spec_address() == self.spec_address(),
    {
        match self {
            ValidNullableVirtualPointer::Null => NullablePointer::new_null(),
            ValidNullableVirtualPointer::NonNull(valid_virtual_pointer) => {
                NullablePointer::new_non_null(valid_virtual_pointer.to_virtual_pointer())
            },
        }
    }

    pub fn get_address(&self) -> (r: usize)
        ensures
            r == self.spec_address(),
    {
        match self {
            ValidNullableVirtualPointer::Null => 0,
            ValidNullableVirtualPointer::NonNull(valid_virtual_pointer) => {
                valid_virtual_pointer.get_address()
            },
        }
    }
}

} // verus!
