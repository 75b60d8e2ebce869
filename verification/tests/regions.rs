use kernel::memory_management::pages::Page4KiB;
use kernel::memory_management::permissions::Permissions;
use kernel::memory_management::pointers::{
    MutablePhysicalPointer, MutableUserVirtualPointer, MutableVirtualPointer, UserVirtualPointer,
};
use kernel::memory_management::regions::{
    DirtyMappedProtectedAllocatedRegion, PhysicalAllocatedRegion, ProtectedAllocatedRegion,
    UserMappedProtectedAllocatedRegion,
};
use kernel::memory_management::slices::MutablePhysicalSlice;

fn create_physical_pointer<T: kernel::memory_management::granules::Granule>(
    address: usize,
) -> MutablePhysicalPointer<T> {
    MutablePhysicalPointer::<T>::new(address).ok().unwrap()
}

fn create_virtual_pointer<T: kernel::memory_management::granules::Granule>(
    address: usize,
) -> MutableUserVirtualPointer<T> {
    let virtual_pointer = MutableVirtualPointer::<T>::new(address).ok().unwrap();
    UserVirtualPointer::<true, T>::new(virtual_pointer)
}

fn create_region(
    starting_physical_address: usize,
    starting_virtual_address: usize,
) -> DirtyMappedProtectedAllocatedRegion<true, Page4KiB> {
    let starting_physical_pointer = create_physical_pointer::<Page4KiB>(starting_physical_address);
    let physical_slice = MutablePhysicalSlice::from_raw_parts(starting_physical_pointer, 4);
    let allocated_region = PhysicalAllocatedRegion::new(physical_slice);
    let protected_allocated_region =
        ProtectedAllocatedRegion::new(allocated_region, 2, Permissions::ReadWrite).ok().unwrap();
    let starting_virtual_pointer = create_virtual_pointer::<Page4KiB>(starting_virtual_address);
    let mapped_protected_allocated_region = UserMappedProtectedAllocatedRegion::new_from_protected(
        protected_allocated_region,
        starting_virtual_pointer,
    )
    .ok()
    .unwrap();
    DirtyMappedProtectedAllocatedRegion::new(mapped_protected_allocated_region)
}

#[test]
fn test_resize_dirty_region() {
    let mut dirty_region = create_region(0x2000_0000, 0x4000_0000);
    assert!(dirty_region.is_dirty());
    dirty_region.clear_dirty();
    assert!(!dirty_region.is_dirty());
    assert!(dirty_region.resize(3).is_ok());
    assert!(dirty_region.is_dirty());
    dirty_region.clear_dirty();
    assert!(!dirty_region.is_dirty());
    assert!(dirty_region.resize(5).is_err());
    assert!(!dirty_region.is_dirty());
    assert!(dirty_region.resize(1).is_ok());
    assert!(dirty_region.is_dirty());
}

#[test]
fn test_translate_allocated_physical_pointer_byte() {
    let dirty_region = create_region(0x2000_0000, 0x4000_0000);

    let physical_pointer = create_physical_pointer::<u8>(0x1FFFFFFF);
    assert!(dirty_region.translate_allocated_physical_pointer_byte(physical_pointer).is_err());

    let physical_pointer = create_physical_pointer::<u8>(0x20000000);
    let virtual_pointer = dirty_region.translate_allocated_physical_pointer_byte(physical_pointer).ok().unwrap();
    assert_eq!(0x40000000, virtual_pointer.get_address());

    let physical_pointer = create_physical_pointer::<u8>(0x20003FFF);
    let virtual_pointer = dirty_region.translate_allocated_physical_pointer_byte(physical_pointer).ok().unwrap();
    assert_eq!(0x40003FFF, virtual_pointer.get_address());

    let physical_pointer = create_physical_pointer::<u8>(0x20004000);
    assert!(dirty_region.translate_allocated_physical_pointer_byte(physical_pointer).is_err());
}

#[test]
fn test_translate_protected_physical_pointer_byte() {
    let dirty_region = create_region(0x2000_0000, 0x4000_0000);

    let physical_pointer = create_physical_pointer::<u8>(0x1FFFFFFF);
    assert!(dirty_region.translate_protected_physical_pointer_byte(physical_pointer).is_err());

    let physical_pointer = create_physical_pointer::<u8>(0x20000000);
    let virtual_pointer = dirty_region.translate_protected_physical_pointer_byte(physical_pointer).ok().unwrap();
    assert_eq!(0x40000000, virtual_pointer.get_address());

    let physical_pointer = create_physical_pointer::<u8>(0x20001FFF);
    let virtual_pointer = dirty_region.translate_protected_physical_pointer_byte(physical_pointer).ok().unwrap();
    assert_eq!(0x40001FFF, virtual_pointer.get_address());

    let physical_pointer = create_physical_pointer::<u8>(0x20002000);
    assert!(dirty_region.translate_protected_physical_pointer_byte(physical_pointer).is_err());
}

#[test]
fn test_translate_allocated_virtual_pointer_byte() {
    let dirty_region = create_region(0x2000_0000, 0x4000_0000);

    let virtual_pointer = create_virtual_pointer::<u8>(0x3FFFFFFF);
    assert!(dirty_region.translate_allocated_virtual_pointer_byte(virtual_pointer).is_err());

    let virtual_pointer = create_virtual_pointer::<u8>(0x40000000);
    let virtual_pointer = dirty_region.translate_allocated_virtual_pointer_byte(virtual_pointer).ok().unwrap();
    assert_eq!(0x20000000, virtual_pointer.get_address());

    let virtual_pointer = create_virtual_pointer::<u8>(0x40003FFF);
    let virtual_pointer = dirty_region.translate_allocated_virtual_pointer_byte(virtual_pointer).ok().unwrap();
    assert_eq!(0x20003FFF, virtual_pointer.get_address());

    let virtual_pointer = create_virtual_pointer::<u8>(0x40004000);
    assert!(dirty_region.translate_allocated_virtual_pointer_byte(virtual_pointer).is_err());
}

#[test]
fn test_translate_protected_virtual_pointer_byte() {
    let dirty_region = create_region(0x2000_0000, 0x4000_0000);

    let virtual_pointer = create_virtual_pointer::<u8>(0x3FFFFFFF);
    assert!(dirty_region.translate_protected_virtual_pointer_byte(virtual_pointer).is_err());

    let virtual_pointer = create_virtual_pointer::<u8>(0x40000000);
    let virtual_pointer = dirty_region.translate_protected_virtual_pointer_byte(virtual_pointer).ok().unwrap();
    assert_eq!(0x20000000, virtual_pointer.get_address());

    let virtual_pointer = create_virtual_pointer::<u8>(0x40001FFF);
    let virtual_pointer = dirty_region.translate_protected_virtual_pointer_byte(virtual_pointer).ok().unwrap();
    assert_eq!(0x20001FFF, virtual_pointer.get_address());

    let virtual_pointer = create_virtual_pointer::<u8>(0x40002000);
    assert!(dirty_region.translate_protected_virtual_pointer_byte(virtual_pointer).is_err());
}

#[test]
fn test_is_intersecting_virtually() {
    let dirty_region1 = create_region(0x2000_0000, 0x4000_0000);
    let dirty_region2 = create_region(0x2000_4000, 0x4000_2000);

    let region1 = dirty_region1.as_mapped_protected_allocated_region();
    let region2 = dirty_region2.as_mapped_protected_allocated_region();
    assert!(region1.is_intersecting_virtually(region2));

    let dirty_region1 = create_region(0x2000_0000, 0x4000_0000);
    let dirty_region2 = create_region(0x2000_4000, 0x4000_4000);

    let region1 = dirty_region1.as_mapped_protected_allocated_region();
    let region2 = dirty_region2.as_mapped_protected_allocated_region();
    assert!(!region1.is_intersecting_virtually(region2));
}

#[test]
fn translation_round_trip_and_overlap_symmetry() {
    let dirty_region = create_region(0x2000_0000, 0x4000_0000);
    let physical_pointer = create_physical_pointer::<u8>(0x2000_1234);
    let virtual_pointer = dirty_region
        .translate_protected_physical_pointer_byte(physical_pointer)
        .ok()
        .unwrap();
    let valid_virtual_pointer = UserVirtualPointer::<true, u8>::new(virtual_pointer.to_virtual_pointer());
    let back = dirty_region
        .translate_protected_virtual_pointer_byte(valid_virtual_pointer)
        .ok()
        .unwrap();
    assert_eq!(0x2000_1234, back.get_address());

    let a = create_region(0x2000_0000, 0x4000_0000);
    let b = create_region(0x2000_4000, 0x4000_3000);
    let ra = a.as_mapped_protected_allocated_region();
    let rb = b.as_mapped_protected_allocated_region();
    assert_eq!(ra.is_intersecting_virtually(rb), rb.is_intersecting_virtually(ra));
}

#[test]
fn protected_region_longer_than_allocated_is_refused() {
    let pointer = create_physical_pointer::<Page4KiB>(0x1000_0000);
    let slice = MutablePhysicalSlice::from_raw_parts(pointer, 4);
    let allocated_region = PhysicalAllocatedRegion::new(slice);
    assert!(ProtectedAllocatedRegion::new(allocated_region, 5, Permissions::ReadOnly).is_err());
}
