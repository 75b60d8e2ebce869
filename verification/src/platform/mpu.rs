//! Interface for configuring the memory protection unit.

use vstd::prelude::*;

verus! {

/// User mode access permissions.
#[derive(Clone, Copy, PartialEq, Eq, Structural, Debug)]
pub enum Permissions {
    ReadWriteExecute,
    ReadWriteOnly,
    ReadExecuteOnly,
    ReadOnly,
    ExecuteOnly,
}

/// A contiguous range of memory protected by the MPU: its start address and
/// its size in bytes.
#[derive(Clone, Copy, PartialEq, Eq, Structural, Debug)]
pub struct Region {
    start_address: usize,
    size: usize,
}

impl Region {
    /// The address where the region starts.
    pub closed spec fn spec_start_address(self) -> usize {
        self.start_address
    }

    /// The number of bytes in the region.
    pub closed spec fn spec_size(self) -> usize {
        self.size
    }

    /// A region of `size` bytes from `start_address`.
    pub fn new(start_address: usize, size: usize) -> (r: Region)
        ensures
            r.spec_start_address() == start_address,
            r.spec_size() == size,
    {
        Region { start_address, size }
    }

    /// The address where the region starts.
    pub fn start_address(&self) -> (r: usize)
        ensures
            r == self.spec_start_address(),
    {
        self.start_address
    }

    /// The number of bytes in the region.
    pub fn size(&self) -> (r: usize)
        ensures
            r == self.spec_size(),
    {
        self.size
    }
}

/// The configuration of an MPU that has nothing to configure.
#[derive(Debug)]
pub struct MpuConfigDefault;

/// A memory protection unit.
///
/// The configuration holds all the state needed to configure the MPU for a
/// process.
pub trait MPU {
    /// The state that configures the MPU for one process.
    type MpuConfig;

    /// Enables the protection of the memory of processes.
    fn enable_app_mpu(&self);

    /// Disables the protection of the memory of processes.
    fn disable_app_mpu(&self);

    /// The number of regions the MPU supports.
    fn number_total_regions(&self) -> usize;

    /// A new configuration with no region, or `None` if no more
    /// configurations can be made.
    fn new_config(&self) -> Option<Self::MpuConfig>;

    /// Resets a configuration to its initial state.
    fn reset_config(&self, config: &mut Self::MpuConfig);

    /// Allocates a region of at least `min_region_size` bytes within the
    /// given unallocated memory, or returns `None` if that is infeasible.
    fn allocate_region(
        &self,
        unallocated_memory_start: usize,
        unallocated_memory_size: usize,
        min_region_size: usize,
        permissions: Permissions,
        config: &mut Self::MpuConfig,
    ) -> Option<Region>;

    /// Removes a region previously allocated; may fail if no region matches
    /// exactly.
    fn remove_memory_region(&self, region: Region, config: &mut Self::MpuConfig) -> Result<(), ()>;

    /// Chooses the memory of a process within the given unallocated memory
    /// and covers its first `initial_app_memory_size` bytes with a region;
    /// returns the start and size of the memory chosen, or `None` if that is
    /// infeasible.
    fn allocate_app_memory_region(
        &self,
        unallocated_memory_start: usize,
        unallocated_memory_size: usize,
        min_memory_size: usize,
        initial_app_memory_size: usize,
        initial_kernel_memory_size: usize,
        permissions: Permissions,
        config: &mut Self::MpuConfig,
    ) -> Option<(usize, usize)>;

    /// Updates the region that covers the memory of a process to end at the
    /// new break; fails if that is infeasible.
    fn update_app_memory_region(
        &self,
        app_memory_break: usize,
        kernel_memory_break: usize,
        permissions: Permissions,
        config: &mut Self::MpuConfig,
    ) -> Result<(), ()>;

    /// Configures the MPU with a configuration.
    fn configure_mpu(&self, config: &Self::MpuConfig);
}

/// The larger of two sizes.
pub open spec fn max_size(a: nat, b: nat) -> nat {
    if a < b {
        b
    } else {
        a
    }
}

/// The MPU of a platform without one: it protects nothing and accepts every
/// feasible request.
impl MPU for () {
    type MpuConfig = MpuConfigDefault;

    fn enable_app_mpu(&self) {
    }

    fn disable_app_mpu(&self) {
    }

    fn number_total_regions(&self) -> (r: usize)
        ensures
            r == 0,
    {
        0
    }

    fn new_config(&self) -> (r: Option<MpuConfigDefault>)
        ensures
            r is Some,
    {
        Some(MpuConfigDefault)
    }

    fn reset_config(&self, config: &mut MpuConfigDefault) {
    }

    fn allocate_region(
        &self,
        unallocated_memory_start: usize,
        unallocated_memory_size: usize,
        min_region_size: usize,
        permissions: Permissions,
        config: &mut MpuConfigDefault,
    ) -> (r: Option<Region>)
        ensures
            min_region_size > unallocated_memory_size ==> r is None,
            min_region_size <= unallocated_memory_size ==> (r matches Some(g)
                && g.spec_start_address() == unallocated_memory_start && g.spec_size()
                == min_region_size),
    {
        if min_region_size > unallocated_memory_size {
            None
        } else {
            Some(Region::new(unallocated_memory_start, min_region_size))
        }
    }

    fn remove_memory_region(&self, region: Region, config: &mut MpuConfigDefault) -> (r: Result<
        (),
        (),
    >)
        ensures
            r is Ok,
    {
        Ok(())
    }

    fn allocate_app_memory_region(
        &self,
        unallocated_memory_start: usize,
        unallocated_memory_size: usize,
        min_memory_size: usize,
        initial_app_memory_size: usize,
        initial_kernel_memory_size: usize,
        permissions: Permissions,
        config: &mut MpuConfigDefault,
    ) -> (r: Option<(usize, usize)>)
        ensures
            ({
                let size = max_size(
                    min_memory_size as nat,
                    (initial_app_memory_size + initial_kernel_memory_size) as nat,
                );
                &&& size > unallocated_memory_size ==> r is None
                &&& size <= unallocated_memory_size ==> r == Some(
                    (unallocated_memory_start, size as usize),
                )
            }),
    {
        if initial_app_memory_size > usize::MAX - initial_kernel_memory_size {
            return None;
        }
        let app_and_kernel: usize = initial_app_memory_size + initial_kernel_memory_size;
        let memory_size: usize = if min_memory_size < app_and_kernel {
            app_and_kernel
        } else {
            min_memory_size
        };
        if memory_size > unallocated_memory_size {
            None
        } else {
            Some((unallocated_memory_start, memory_size))
        }
    }

    fn update_app_memory_region(
        &self,
        app_memory_break: usize,
        kernel_memory_break: usize,
        permissions: Permissions,
        config: &mut MpuConfigDefault,
    ) -> (r: Result<(), ()>)
        ensures
            r is Err <==> app_memory_break > kernel_memory_break,
    {
        if app_memory_break > kernel_memory_break {
            Err(())
        } else {
            Ok(())
        }
    }

    fn configure_mpu(&self, config: &MpuConfigDefault) {
    }
}

} // verus!
