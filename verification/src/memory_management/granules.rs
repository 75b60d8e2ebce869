//! Memory granules.

use vstd::prelude::*;

verus! {

/// The smallest number of whole granules of `size` bytes that hold `byte_count` bytes.
pub open spec fn granules_for_bytes(byte_count: nat, size: nat) -> nat {
    if byte_count % size == 0 {
        byte_count / size
    } else {
        byte_count / size + 1
    }
}

/// A memory granule: a unit of memory of a fixed size, to which every pointer
/// to it is aligned.
pub trait Granule: Sized {
    /// The size of the granule, in bytes.
    spec fn spec_size_u8() -> nat;

    /// A granule is never empty, and an address range of one granule never
    /// exceeds half the address space.
    proof fn lemma_size_bounds()
        ensures
            0 < Self::spec_size_u8() <= isize::MAX,
    ;

    /// The size of the granule, in bytes.
    fn size_u8() -> (r: usize)
        ensures
            r == Self::spec_size_u8(),
            r > 0,
    ;

    /// The number of granules needed to hold `byte_count` bytes, rounded up.
    fn ceil_from_byte_count(byte_count: usize) -> (r: usize)
        requires
            byte_count > 0,
        ensures
            r > 0,
            r == granules_for_bytes(byte_count as nat, Self::spec_size_u8()),
    {
        let size: usize = Self::size_u8();
        let quotient: usize = byte_count / size;
        let remainder: usize = byte_count % size;
        proof {
            vstd::arithmetic::div_mod::lemma_fundamental_div_mod(byte_count as int, size as int);
            if quotient == 0 {
                assert(byte_count == remainder) by (nonlinear_arith)
                    requires
                        quotient == 0,
                        byte_count == size * quotient + remainder,
                {
                }
            }
            if size == 1 {
                assert(remainder == 0) by (nonlinear_arith)
                    requires
                        size == 1,
                        remainder == byte_count % size,
                {
                }
            } else {
                assert(quotient < byte_count) by (nonlinear_arith)
                    requires
                        size > 1,
                        quotient == byte_count / size,
                        byte_count > 0,
                {
                }
            }
        }
        if remainder != 0 {
            quotient + 1
        } else {
            quotient
        }
    }
}

/// Granules that are aligned on every address (their size is one byte).
pub trait AlwaysAligned: Granule {
    proof fn lemma_single_byte()
        ensures
            Self::spec_size_u8() == 1,
    ;
}

impl Granule for u8 {
    open spec fn spec_size_u8() -> nat {
        1
    }

    proof fn lemma_size_bounds() {
    }

    fn size_u8() -> (r: usize) {
        1
    }
}

impl AlwaysAligned for u8 {
    proof fn lemma_single_byte() {
    }
}

} // verus!
