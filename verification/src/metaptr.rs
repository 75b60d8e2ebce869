//! Pointers that may carry target-specific metadata.
//!
//! On targets without such metadata a pointer is its address alone: the
//! base, length and permissions given at construction are not kept.

use vstd::prelude::*;

verus! {

/// A pointer with target-specific metadata, here its address alone.
#[derive(Clone, Copy, PartialEq, Eq, Structural, PartialOrd, Ord, Hash, Debug)]
pub struct MetaPtr {
    ptr: usize,
}

/// Permissions that the metadata of a pointer may grant.
#[derive(Clone, Copy, PartialEq, Eq, Structural, Debug)]
pub enum MetaPermissions {
    Any,
    Read,
    Write,
    ReadWrite,
    Execute,
}

impl Default for MetaPtr {
    fn default() -> (r: Self)
        ensures
            r.spec_address() == 0,
    {
        MetaPtr { ptr: 0 }
    }
}

impl From<MetaPtr> for usize {
    fn from(from: MetaPtr) -> (r: usize) {
        from.ptr
    }
}

impl vstd::std_specs::convert::FromSpecImpl<MetaPtr> for usize {
    open spec fn obeys_from_spec() -> bool {
        true
    }

    open spec fn from_spec(from: MetaPtr) -> usize {
        from.spec_address()
    }
}

impl From<usize> for MetaPtr {
    fn from(from: usize) -> (r: Self) {
        MetaPtr { ptr: from }
    }
}

impl vstd::std_specs::convert::FromSpecImpl<usize> for MetaPtr {
    open spec fn obeys_from_spec() -> bool {
        true
    }

    open spec fn from_spec(from: usize) -> MetaPtr {
        MetaPtr::spec_new(from)
    }
}

impl MetaPtr {
    /// The address the pointer points to.
    pub closed spec fn spec_address(self) -> usize {
        self.ptr
    }

    /// The pointer to an address.
    pub closed spec fn spec_new(address: usize) -> MetaPtr {
        MetaPtr { ptr: address }
    }

    /// The pointer to an address has that address.
    pub proof fn lemma_new_address(address: usize)
        ensures
            #[trigger] MetaPtr::spec_new(address).spec_address() == address,
    {
    }

    /// The address the pointer points to.
    pub fn as_ptr(&self) -> (r: usize)
        ensures
            r == self.spec_address(),
    {
        self.ptr
    }

    /// The address the pointer points to, if its metadata allows the given
    /// permissions over `length` bytes; without metadata it always does.
    pub fn as_ptr_checked(&self, length: usize, perms: MetaPermissions) -> (r: usize)
        ensures
            r == self.spec_address(),
    {
        self.ptr
    }

    /// A pointer to `ptr`, with authority over `length` bytes from `base`
    /// with the given permissions where the target keeps such metadata.
    pub fn new_with_metadata(ptr: usize, base: usize, length: usize, perms: MetaPermissions) -> (r: Self)
        ensures
            r == MetaPtr::spec_new(ptr),
            r.spec_address() == ptr,
    {
        MetaPtr { ptr }
    }

    /// `default` if the pointer is null, else `f` applied to the pointer.
    pub fn map_or<U, F>(&self, default: U, f: F) -> (r: U) where F: FnOnce(&Self) -> U
        requires
            self.spec_address() != 0 ==> f.requires((self,)),
        ensures
            self.spec_address() == 0 ==> r == default,
            self.spec_address() != 0 ==> f.ensures((self,), r),
    {
        if self.ptr == 0 {
            default
        } else {
            f(self)
        }
    }

    /// `default()` if the pointer is null, else `f` applied to the pointer.
    pub fn map_or_else<U, D, F>(&self, default: D, f: F) -> (r: U) where
        D: FnOnce() -> U,
        F: FnOnce(&Self) -> U,

        requires
            self.spec_address() == 0 ==> default.requires(()),
            self.spec_address() != 0 ==> f.requires((self,)),
        ensures
            self.spec_address() == 0 ==> default.ensures((), r),
            self.spec_address() != 0 ==> f.ensures((self,), r),
    {
        if self.ptr == 0 {
            default()
        } else {
            f(self)
        }
    }
}

} // verus!
