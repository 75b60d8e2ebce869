//! Interface for configuring the memory protection or management unit.

use crate::memory_management::granules::Granule as GranuleLike;
use crate::memory_management::regions::{
    PhysicalProtectedAllocatedRegion, UserMappedProtectedAllocatedRegion,
};
use vstd::prelude::*;

verus! {

/// Address space identifier.
#[derive(Clone, Copy, PartialEq, Eq, Structural, Debug)]
pub struct Asid(u16);

impl Asid {
    /// The identifier's value.
    pub closed spec fn spec_value(self) -> u16 {
        self.0
    }

    pub fn new(value: u16) -> (r: Self)
        ensures
            r.spec_value() == value,
    {
        Self(value)
    }

    pub fn to_u16(self) -> (r: u16)
        ensures
            r == self.spec_value(),
    {
        self.0
    }
}

/// Methods common to both MPUs and MMUs.
pub trait MpuMmuCommon {
    type Granule: GranuleLike;

    fn enable_user_protection(&self, asid: Asid);

    fn disable_user_protection(&self);
}

/// MPU support.
pub trait MPU: MpuMmuCommon {
    /// Applies the memory protections of the given region. Implementors may
    /// ignore an invalid request, and must ignore an invalid index.
    fn protect_user_region(
        &self,
        region_index: usize,
        protected_region: &PhysicalProtectedAllocatedRegion<Self::Granule>,
    );
}

/// MMU support.
pub trait MMU: MpuMmuCommon {
    /// Create a new ASID, unique at each call.
    fn create_asid(&self) -> Asid;

    /// Flush TLB entries with the given ASID.
    fn flush(&self, asid: Asid);

    /// Map and protect the given region. An invalid index must be ignored.
    fn map_user_region(
        &self,
        index: usize,
        mapped_protected_region: &UserMappedProtectedAllocatedRegion<Self::Granule>,
    );
}

/// An MMU made of an MPU: there are no address spaces, and mapping a region
/// only protects its physical memory.
impl<T: MPU> MMU for T {
    fn create_asid(&self) -> (r: Asid)
        ensures
            r.spec_value() == 0,
    {
        Asid::new(0)
    }

    fn flush(&self, asid: Asid) {
    }

    fn map_user_region(
        &self,
        index: usize,
        mapped_protected_region: &UserMappedProtectedAllocatedRegion<Self::Granule>,
    ) {
        let protected_region = mapped_protected_region.as_physical_protected_allocated_region();
        self.protect_user_region(index, protected_region);
    }
}

} // verus!
