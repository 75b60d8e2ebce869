//! Memory configurations: the regions of the kernel and of each process.
//!
//! A configuration translates an address with the first of its regions that
//! holds it, in the order in which the regions are searched.

use super::granules::{AlwaysAligned, Granule};
use super::pointers::{KernelVirtualPointer, PhysicalPointer, UserVirtualPointer, ValidVirtualPointer};
use super::regions::{
    DirtyMappedProtectedAllocatedRegion, KernelDirtyMappedProtectedAllocatedRegion,
    KernelMappedProtectedAllocatedRegion, MappedProtectedAllocatedRegion,
    UserDirtyMappedProtectedAllocatedRegion, UserMappedProtectedAllocatedRegion, ranges_overlap,
};
use crate::platform::mmu::Asid;
use vstd::prelude::*;

verus! {

/// The virtual address of a physical address, taken from the first region,
/// from index `i` on, whose allocated granules hold it.
pub open spec fn first_allocated_virtual_of_physical<const IS_USER: bool, G: Granule>(
    regions: Seq<DirtyMappedProtectedAllocatedRegion<IS_USER, G>>,
    i: int,
    address: int,
) -> Option<int>
    decreases regions.len() - i,
{
    if i < 0 || i >= regions.len() {
        None
    } else {
        match regions[i].spec_region().allocated_virtual_of_physical(address) {
            Some(translated) => Some(translated),
            None => first_allocated_virtual_of_physical(regions, i + 1, address),
        }
    }
}

/// The physical address of a virtual address, taken from the first region,
/// from index `i` on, whose allocated granules hold it.
pub open spec fn first_allocated_physical_of_virtual<const IS_USER: bool, G: Granule>(
    regions: Seq<DirtyMappedProtectedAllocatedRegion<IS_USER, G>>,
    i: int,
    address: int,
) -> Option<int>
    decreases regions.len() - i,
{
    if i < 0 || i >= regions.len() {
        None
    } else {
        match regions[i].spec_region().allocated_physical_of_virtual(address) {
            Some(translated) => Some(translated),
            None => first_allocated_physical_of_virtual(regions, i + 1, address),
        }
    }
}

/// The allocated parts of the two regions share a virtual address.
pub open spec fn virtually_overlapping<const A: bool, const B: bool, G: Granule>(
    a: MappedProtectedAllocatedRegion<A, G>,
    b: MappedProtectedAllocatedRegion<B, G>,
) -> bool {
    ranges_overlap(
        a.spec_virtual_start() as int,
        a.spec_virtual_start() + a.spec_allocated_bytes(),
        b.spec_virtual_start() as int,
        b.spec_virtual_start() + b.spec_allocated_bytes(),
    )
}

/// Memory configuration: a fixed number of regions.
pub struct Configuration<const IS_USER: bool, const NUMBER_REGIONS: usize, G: Granule> {
    regions: [DirtyMappedProtectedAllocatedRegion<IS_USER, G>; NUMBER_REGIONS],
}

impl<const IS_USER: bool, const NUMBER_REGIONS: usize, G: Granule> Configuration<
    IS_USER,
    NUMBER_REGIONS,
    G,
> {
    /// The regions, in the order in which they are searched.
    pub closed spec fn spec_regions(self) -> Seq<DirtyMappedProtectedAllocatedRegion<IS_USER, G>> {
        self.regions@
    }

    pub fn new(regions: [DirtyMappedProtectedAllocatedRegion<IS_USER, G>; NUMBER_REGIONS]) -> (r: Self)
        ensures
            r.spec_regions() == regions@,
    {
        Self { regions }
    }

    pub fn get_region(&self, index: usize) -> (r: Option<&DirtyMappedProtectedAllocatedRegion<IS_USER, G>>)
        ensures
            r is Some <==> index < self.spec_regions().len(),
            r matches Some(region) ==> *region == self.spec_regions()[index as int],
    {
        if index < NUMBER_REGIONS {
            Some(&self.regions[index])
        } else {
            None
        }
    }

    /// Some region overlaps `target_region` in virtual memory.
    pub fn is_intersecting_virtual_region<const OTHER_IS_USER: bool>(
        &self,
        target_region: &MappedProtectedAllocatedRegion<OTHER_IS_USER, G>,
    ) -> (r: bool)
        ensures
            r == exists|i: int|
                0 <= i < self.spec_regions().len() && #[trigger] virtually_overlapping(
                    self.spec_regions()[i].spec_region(),
                    *target_region,
                ),
    {
        let mut i: usize = 0;
        while i < NUMBER_REGIONS
            invariant
                i <= NUMBER_REGIONS,
                self.regions@.len() == NUMBER_REGIONS,
                forall|j: int|
                    0 <= j < i ==> !#[trigger] virtually_overlapping(
                        self.regions@[j].spec_region(),
                        *target_region,
                    ),
            decreases NUMBER_REGIONS - i,
        {
            if self.regions[i].as_mapped_protected_allocated_region().is_intersecting_virtually(
                target_region,
            ) {
                assert(virtually_overlapping(self.spec_regions()[i as int].spec_region(), *target_region));
                return true;
            }
            i = i + 1;
        }
        false
    }

    /// The virtual pointer to a physical byte, from the first region whose
    /// allocated granules hold it, or the physical pointer back if none does.
    pub fn translate_allocated_physical_pointer_byte<const IS_MUTABLE: bool, U: AlwaysAligned>(
        &self,
        physical_pointer: PhysicalPointer<IS_MUTABLE, U>,
    ) -> (r: Result<ValidVirtualPointer<IS_USER, IS_MUTABLE, U>, PhysicalPointer<IS_MUTABLE, U>>)
        ensures
            r is Ok <==> first_allocated_virtual_of_physical(self.spec_regions(), 0, physical_pointer.spec_address() as int) is Some,
            r matches Ok(pointer) ==> first_allocated_virtual_of_physical(self.spec_regions(), 0, physical_pointer.spec_address() as int)
                == Some(pointer.spec_address() as int),
            r matches Err(pointer) ==> pointer == physical_pointer,
    {
        let ghost address = physical_pointer.spec_address() as int;
        let mut pointer = physical_pointer;
        let mut i: usize = 0;
        while i < NUMBER_REGIONS
            invariant
                i <= NUMBER_REGIONS,
                self.regions@.len() == NUMBER_REGIONS,
                pointer == physical_pointer,
                address == physical_pointer.spec_address(),
                first_allocated_virtual_of_physical(self.regions@, 0, address)
                    == first_allocated_virtual_of_physical(self.regions@, i as int, address),
            decreases NUMBER_REGIONS - i,
        {
            let region = &self.regions[i];
            assert(first_allocated_virtual_of_physical(self.regions@, i as int, address) == match region.spec_region().allocated_virtual_of_physical(address) {
                Some(translated) => Some(translated),
                None => first_allocated_virtual_of_physical(self.regions@, i + 1, address),
            });
            pointer = match region.translate_allocated_physical_pointer_byte(pointer) {
                Err(pointer) => pointer,
                Ok(virtual_pointer) => return Ok(virtual_pointer),
            };
            i = i + 1;
        }
        Err(pointer)
    }

    /// The physical pointer to a virtual byte, from the first region whose
    /// allocated granules hold it, or the virtual pointer back if none does.
    pub fn translate_allocated_virtual_pointer_byte<const IS_MUTABLE: bool, U: AlwaysAligned>(
        &self,
        virtual_pointer: ValidVirtualPointer<IS_USER, IS_MUTABLE, U>,
    ) -> (r: Result<PhysicalPointer<IS_MUTABLE, U>, ValidVirtualPointer<IS_USER, IS_MUTABLE, U>>)
        ensures
            r is Ok <==> first_allocated_physical_of_virtual(self.spec_regions(), 0, virtual_pointer.spec_address() as int) is Some,
            r matches Ok(pointer) ==> first_allocated_physical_of_virtual(self.spec_regions(), 0, virtual_pointer.spec_address() as int)
                == Some(pointer.spec_address() as int),
            r matches Err(pointer) ==> pointer == virtual_pointer,
    {
        let ghost address = virtual_pointer.spec_address() as int;
        let mut pointer = virtual_pointer;
        let mut i: usize = 0;
        while i < NUMBER_REGIONS
            invariant
                i <= NUMBER_REGIONS,
                self.regions@.len() == NUMBER_REGIONS,
                pointer == virtual_pointer,
                address == virtual_pointer.spec_address(),
                first_allocated_physical_of_virtual(self.regions@, 0, address)
                    == first_allocated_physical_of_virtual(self.regions@, i as int, address),
            decreases NUMBER_REGIONS - i,
        {
            let region = &self.regions[i];
            assert(first_allocated_physical_of_virtual(self.regions@, i as int, address) == match region.spec_region().allocated_physical_of_virtual(address) {
                Some(translated) => Some(translated),
                None => first_allocated_physical_of_virtual(self.regions@, i + 1, address),
            });
            pointer = match region.translate_allocated_virtual_pointer_byte(pointer) {
                Err(pointer) => pointer,
                Ok(physical_pointer) => return Ok(physical_pointer),
            };
            i = i + 1;
        }
        Err(pointer)
    }
}


/// The first of two translations that succeeds.
pub open spec fn first_of(first: Option<int>, second: Option<int>) -> Option<int> {
    match first {
        Some(translated) => Some(translated),
        None => second,
    }
}

/// Index of the PROG (flash) region of a process.
pub const FLASH_REGION_INDEX: usize = 0;

/// Index of the RAM region of a process.
pub const RAM_REGION_INDEX: usize = 1;

/// Process memory configuration: its address space identifier, its PROG
/// (flash) region and its RAM region.
pub struct ProcessConfiguration<G: Granule> {
    asid: Asid,
    configuration: Configuration<true, 2, G>,
}

impl<G: Granule> ProcessConfiguration<G> {
    /// The PROG (flash) region.
    pub closed spec fn spec_prog_region(self) -> UserDirtyMappedProtectedAllocatedRegion<G> {
        self.configuration.spec_regions()[FLASH_REGION_INDEX as int]
    }

    /// The RAM region.
    pub closed spec fn spec_ram_region(self) -> UserDirtyMappedProtectedAllocatedRegion<G> {
        self.configuration.spec_regions()[RAM_REGION_INDEX as int]
    }

    /// The address space identifier.
    pub closed spec fn spec_asid(self) -> Asid {
        self.asid
    }

    /// Both regions start dirty: the hardware has not seen them yet.
    pub fn new(
        asid: Asid,
        flash_region: UserMappedProtectedAllocatedRegion<G>,
        ram_region: UserMappedProtectedAllocatedRegion<G>,
    ) -> (r: Self)
        ensures
            r.spec_asid() == asid,
            r.spec_prog_region().spec_region() == flash_region,
            r.spec_prog_region().spec_is_dirty(),
            r.spec_ram_region().spec_region() == ram_region,
            r.spec_ram_region().spec_is_dirty(),
    {
        let dirty_flash_region = UserDirtyMappedProtectedAllocatedRegion::new(flash_region);
        let dirty_ram_region = UserDirtyMappedProtectedAllocatedRegion::new(ram_region);
        Self { asid, configuration: Configuration::new([dirty_flash_region, dirty_ram_region]) }
    }

    fn get_asid(&self) -> (r: Asid)
        ensures
            r == self.spec_asid(),
    {
        self.asid
    }

    fn get_prog_region(&self) -> (r: &UserDirtyMappedProtectedAllocatedRegion<G>)
        ensures
            *r == self.spec_prog_region(),
    {
        match self.configuration.get_region(FLASH_REGION_INDEX) {
            Some(region) => region,
            None => {
                proof {
                    assert(false);
                }
                self.configuration.get_region(FLASH_REGION_INDEX).unwrap()
            },
        }
    }

    fn get_ram_region(&self) -> (r: &UserDirtyMappedProtectedAllocatedRegion<G>)
        ensures
            *r == self.spec_ram_region(),
    {
        match self.configuration.get_region(RAM_REGION_INDEX) {
            Some(region) => region,
            None => {
                proof {
                    assert(false);
                }
                self.configuration.get_region(RAM_REGION_INDEX).unwrap()
            },
        }
    }

    /// The process's virtual address of a physical byte: from the protected
    /// part of the RAM region, else of the PROG region.
    pub open spec fn protected_virtual_of_physical(self, address: int) -> Option<int> {
        first_of(
            self.spec_ram_region().spec_region().protected_virtual_of_physical(address),
            self.spec_prog_region().spec_region().protected_virtual_of_physical(address),
        )
    }

    /// The physical address of a process's virtual byte: from the protected
    /// part of the RAM region, else of the PROG region.
    pub open spec fn protected_physical_of_virtual(self, address: int) -> Option<int> {
        first_of(
            self.spec_ram_region().spec_region().protected_physical_of_virtual(address),
            self.spec_prog_region().spec_region().protected_physical_of_virtual(address),
        )
    }

    /// The physical address of a process's virtual byte: from the allocated
    /// part of the RAM region, else of the PROG region.
    pub open spec fn allocated_physical_of_virtual(self, address: int) -> Option<int> {
        first_of(
            self.spec_ram_region().spec_region().allocated_physical_of_virtual(address),
            self.spec_prog_region().spec_region().allocated_physical_of_virtual(address),
        )
    }

    fn translate_protected_physical_pointer_byte<const IS_MUTABLE: bool, U: AlwaysAligned>(
        &self,
        physical_pointer: PhysicalPointer<IS_MUTABLE, U>,
    ) -> (r: Result<UserVirtualPointer<IS_MUTABLE, U>, PhysicalPointer<IS_MUTABLE, U>>)
        ensures
            r is Ok <==> self.protected_virtual_of_physical(physical_pointer.spec_address() as int) is Some,
            r matches Ok(pointer) ==> self.protected_virtual_of_physical(physical_pointer.spec_address() as int)
                == Some(pointer.spec_address() as int),
            r matches Err(pointer) ==> pointer == physical_pointer,
    {
        let ram_region = self.get_ram_region();
        let physical_pointer = match ram_region.translate_protected_physical_pointer_byte(physical_pointer) {
            Err(physical_pointer) => physical_pointer,
            Ok(virtual_pointer) => return Ok(virtual_pointer),
        };
        let prog_region = self.get_prog_region();
        prog_region.translate_protected_physical_pointer_byte(physical_pointer)
    }

    fn translate_protected_virtual_pointer_byte<const IS_MUTABLE: bool, U: AlwaysAligned>(
        &self,
        virtual_pointer: UserVirtualPointer<IS_MUTABLE, U>,
    ) -> (r: Result<PhysicalPointer<IS_MUTABLE, U>, UserVirtualPointer<IS_MUTABLE, U>>)
        ensures
            r is Ok <==> self.protected_physical_of_virtual(virtual_pointer.spec_address() as int) is Some,
            r matches Ok(pointer) ==> self.protected_physical_of_virtual(virtual_pointer.spec_address() as int)
                == Some(pointer.spec_address() as int),
            r matches Err(pointer) ==> pointer == virtual_pointer,
    {
        let ram_region = self.get_ram_region();
        let virtual_pointer = match ram_region.translate_protected_virtual_pointer_byte(virtual_pointer) {
            Err(virtual_pointer) => virtual_pointer,
            Ok(physical_pointer) => return Ok(physical_pointer),
        };
        let prog_region = self.get_prog_region();
        prog_region.translate_protected_virtual_pointer_byte(virtual_pointer)
    }

    fn translate_allocated_virtual_pointer_byte<const IS_MUTABLE: bool, U: AlwaysAligned>(
        &self,
        virtual_pointer: UserVirtualPointer<IS_MUTABLE, U>,
    ) -> (r: Result<PhysicalPointer<IS_MUTABLE, U>, UserVirtualPointer<IS_MUTABLE, U>>)
        ensures
            r is Ok <==> self.allocated_physical_of_virtual(virtual_pointer.spec_address() as int) is Some,
            r matches Ok(pointer) ==> self.allocated_physical_of_virtual(virtual_pointer.spec_address() as int)
                == Some(pointer.spec_address() as int),
            r matches Err(pointer) ==> pointer == virtual_pointer,
    {
        let ram_region = self.get_ram_region();
        let virtual_pointer = match ram_region.translate_allocated_virtual_pointer_byte(virtual_pointer) {
            Err(virtual_pointer) => virtual_pointer,
            Ok(physical_pointer) => return Ok(physical_pointer),
        };
        let prog_region = self.get_prog_region();
        prog_region.translate_allocated_virtual_pointer_byte(virtual_pointer)
    }
}

/// Valid process memory configuration, that is, it doesn't overlap kernel's
/// virtual address space.
pub struct ValidProcessConfiguration<G: Granule>(ProcessConfiguration<G>);

impl<G: Granule> ValidProcessConfiguration<G> {
    /// The process configuration.
    pub closed spec fn spec_configuration(self) -> ProcessConfiguration<G> {
        self.0
    }

    /// Marks a process configuration as valid; the caller vouches that it
    /// does not overlap the kernel's virtual memory.
    pub fn new(process_configuration: ProcessConfiguration<G>) -> (r: Self)
        ensures
            r.spec_configuration() == process_configuration,
    {
        Self(process_configuration)
    }

    pub fn get_prog_region(&self) -> (r: &UserDirtyMappedProtectedAllocatedRegion<G>)
        ensures
            *r == self.spec_configuration().spec_prog_region(),
    {
        self.0.get_prog_region()
    }

    pub fn get_ram_region(&self) -> (r: &UserDirtyMappedProtectedAllocatedRegion<G>)
        ensures
            *r == self.spec_configuration().spec_ram_region(),
    {
        self.0.get_ram_region()
    }

    pub fn get_asid(&self) -> (r: Asid)
        ensures
            r == self.spec_configuration().spec_asid(),
    {
        self.0.get_asid()
    }

    /// The process's virtual pointer to a physical byte: from the protected
    /// part of the RAM region, else of the PROG region; or the physical
    /// pointer back if neither holds it.
    pub fn translate_protected_physical_pointer_byte<const IS_MUTABLE: bool, U: AlwaysAligned>(
        &self,
        physical_pointer: PhysicalPointer<IS_MUTABLE, U>,
    ) -> (r: Result<UserVirtualPointer<IS_MUTABLE, U>, PhysicalPointer<IS_MUTABLE, U>>)
        ensures
            r is Ok <==> self.spec_configuration().protected_virtual_of_physical(physical_pointer.spec_address() as int) is Some,
            r matches Ok(pointer) ==> self.spec_configuration().protected_virtual_of_physical(physical_pointer.spec_address() as int)
                == Some(pointer.spec_address() as int),
            r matches Err(pointer) ==> pointer == physical_pointer,
    {
        self.0.translate_protected_physical_pointer_byte(physical_pointer)
    }

    /// The physical pointer to a process's virtual byte: from the protected
    /// part of the RAM region, else of the PROG region; or the virtual pointer
    /// back if neither holds it.
    pub fn translate_protected_virtual_pointer_byte<const IS_MUTABLE: bool, U: AlwaysAligned>(
        &self,
        virtual_pointer: UserVirtualPointer<IS_MUTABLE, U>,
    ) -> (r: Result<PhysicalPointer<IS_MUTABLE, U>, UserVirtualPointer<IS_MUTABLE, U>>)
        ensures
            r is Ok <==> self.spec_configuration().protected_physical_of_virtual(virtual_pointer.spec_address() as int) is Some,
            r matches Ok(pointer) ==> self.spec_configuration().protected_physical_of_virtual(virtual_pointer.spec_address() as int)
                == Some(pointer.spec_address() as int),
            r matches Err(pointer) ==> pointer == virtual_pointer,
    {
        self.0.translate_protected_virtual_pointer_byte(virtual_pointer)
    }

    /// The physical pointer to a process's virtual byte: from the allocated
    /// part of the RAM region, else of the PROG region; or the virtual pointer
    /// back if neither holds it.
    pub fn translate_allocated_virtual_pointer_byte<const IS_MUTABLE: bool, U: AlwaysAligned>(
        &self,
        virtual_pointer: UserVirtualPointer<IS_MUTABLE, U>,
    ) -> (r: Result<PhysicalPointer<IS_MUTABLE, U>, UserVirtualPointer<IS_MUTABLE, U>>)
        ensures
            r is Ok <==> self.spec_configuration().allocated_physical_of_virtual(virtual_pointer.spec_address() as int) is Some,
            r matches Ok(pointer) ==> self.spec_configuration().allocated_physical_of_virtual(virtual_pointer.spec_address() as int)
                == Some(pointer.spec_address() as int),
            r matches Err(pointer) ==> pointer == virtual_pointer,
    {
        self.0.translate_allocated_virtual_pointer_byte(virtual_pointer)
    }
}

/// Index of the kernel's PROG region.
pub const KERNEL_PROG_REGION_INDEX: usize = 1;

/// Index of the kernel's RAM region.
pub const KERNEL_RAM_REGION_INDEX: usize = 2;

/// Kernel memory configuration: its ROM, PROG, RAM and peripheral regions.
pub struct KernelConfiguration<G: Granule>(Configuration<false, 4, G>);

impl<G: Granule> KernelConfiguration<G> {
    /// The regions: ROM, PROG, RAM and peripherals, in that order.
    pub closed spec fn spec_regions(self) -> Seq<KernelDirtyMappedProtectedAllocatedRegion<G>> {
        self.0.spec_regions()
    }

    /// All four regions start dirty.
    pub fn new(
        rom_region: KernelMappedProtectedAllocatedRegion<G>,
        prog_region: KernelMappedProtectedAllocatedRegion<G>,
        ram_region: KernelMappedProtectedAllocatedRegion<G>,
        peripheral_region: KernelMappedProtectedAllocatedRegion<G>,
    ) -> (r: Self)
        ensures
            r.spec_regions().len() == 4,
            r.spec_regions()[0].spec_region() == rom_region,
            r.spec_regions()[1].spec_region() == prog_region,
            r.spec_regions()[2].spec_region() == ram_region,
            r.spec_regions()[3].spec_region() == peripheral_region,
            forall|i: int| 0 <= i < 4 ==> #[trigger] r.spec_regions()[i].spec_is_dirty(),
    {
        let dirty_rom_region = KernelDirtyMappedProtectedAllocatedRegion::new(rom_region);
        let dirty_prog_region = KernelDirtyMappedProtectedAllocatedRegion::new(prog_region);
        let dirty_ram_region = KernelDirtyMappedProtectedAllocatedRegion::new(ram_region);
        let dirty_peripheral_region = KernelDirtyMappedProtectedAllocatedRegion::new(peripheral_region);
        let configuration = Configuration::new(
            [dirty_rom_region, dirty_prog_region, dirty_ram_region, dirty_peripheral_region],
        );
        Self(configuration)
    }

    /// Some kernel region overlaps the user region in virtual memory.
    pub fn is_intersecting_user_virtual_region(&self, region: &UserMappedProtectedAllocatedRegion<G>) -> (r: bool)
        ensures
            r == exists|i: int|
                0 <= i < self.spec_regions().len() && #[trigger] virtually_overlapping(
                    self.spec_regions()[i].spec_region(),
                    *region,
                ),
    {
        let r = self.0.is_intersecting_virtual_region(region);
        assert(self.spec_regions() == self.0.spec_regions());
        r
    }

    pub fn get_prog_region(&self) -> (r: &KernelDirtyMappedProtectedAllocatedRegion<G>)
        ensures
            *r == self.spec_regions()[KERNEL_PROG_REGION_INDEX as int],
    {
        match self.0.get_region(KERNEL_PROG_REGION_INDEX) {
            Some(region) => region,
            None => {
                proof {
                    assert(false);
                }
                self.0.get_region(KERNEL_PROG_REGION_INDEX).unwrap()
            },
        }
    }

    pub fn get_ram_region(&self) -> (r: &KernelDirtyMappedProtectedAllocatedRegion<G>)
        ensures
            *r == self.spec_regions()[KERNEL_RAM_REGION_INDEX as int],
    {
        match self.0.get_region(KERNEL_RAM_REGION_INDEX) {
            Some(region) => region,
            None => {
                proof {
                    assert(false);
                }
                self.0.get_region(KERNEL_RAM_REGION_INDEX).unwrap()
            },
        }
    }

    /// The kernel's virtual pointer to a physical byte, from the first region
    /// whose allocated granules hold it.
    pub fn translate_allocated_physical_pointer_byte<const IS_MUTABLE: bool, U: AlwaysAligned>(
        &self,
        physical_pointer: PhysicalPointer<IS_MUTABLE, U>,
    ) -> (r: Result<KernelVirtualPointer<IS_MUTABLE, U>, PhysicalPointer<IS_MUTABLE, U>>)
        ensures
            r is Ok <==> first_allocated_virtual_of_physical(self.spec_regions(), 0, physical_pointer.spec_address() as int) is Some,
            r matches Ok(pointer) ==> first_allocated_virtual_of_physical(self.spec_regions(), 0, physical_pointer.spec_address() as int)
                == Some(pointer.spec_address() as int),
            r matches Err(pointer) ==> pointer == physical_pointer,
    {
        self.0.translate_allocated_physical_pointer_byte(physical_pointer)
    }

    /// The physical pointer to a kernel virtual byte, from the first region
    /// whose allocated granules hold it.
    pub fn translate_allocated_virtual_pointer_byte<const IS_MUTABLE: bool, U: AlwaysAligned>(
        &self,
        virtual_pointer: KernelVirtualPointer<IS_MUTABLE, U>,
    ) -> (r: Result<PhysicalPointer<IS_MUTABLE, U>, KernelVirtualPointer<IS_MUTABLE, U>>)
        ensures
            r is Ok <==> first_allocated_physical_of_virtual(self.spec_regions(), 0, virtual_pointer.spec_address() as int) is Some,
            r matches Ok(pointer) ==> first_allocated_physical_of_virtual(self.spec_regions(), 0, virtual_pointer.spec_address() as int)
                == Some(pointer.spec_address() as int),
            r matches Err(pointer) ==> pointer == virtual_pointer,
    {
        self.0.translate_allocated_virtual_pointer_byte(virtual_pointer)
    }
}

} // verus!
