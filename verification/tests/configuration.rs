use kernel::memory_management::configuration::{
    KernelConfiguration, ProcessConfiguration, ValidProcessConfiguration,
};
use kernel::memory_management::pages::Page4KiB;
use kernel::memory_management::permissions::Permissions;
use kernel::memory_management::pointers::{
    MutablePhysicalPointer, MutableVirtualPointer, ValidMutableVirtualPointer,
};
use kernel::memory_management::regions::{
    MappedProtectedAllocatedRegion, PhysicalAllocatedRegion, ProtectedAllocatedRegion,
};
use kernel::memory_management::slices::MutablePhysicalSlice;
use kernel::platform::mmu::Asid;

fn create_physical_pointer(address: usize) -> MutablePhysicalPointer<u8> {
    MutablePhysicalPointer::<u8>::new(address).ok().unwrap()
}

fn create_physical_page_pointer(address: usize) -> MutablePhysicalPointer<Page4KiB> {
    MutablePhysicalPointer::<Page4KiB>::new(address).ok().unwrap()
}

fn create_virtual_pointer<const IS_USER: bool>(address: usize) -> ValidMutableVirtualPointer<IS_USER, u8> {
    let pointer = MutableVirtualPointer::<u8>::new(address).ok().unwrap();
    ValidMutableVirtualPointer::<IS_USER, u8>::new(pointer)
}

fn create_virtual_page_pointer<const IS_USER: bool>(
    address: usize,
) -> ValidMutableVirtualPointer<IS_USER, Page4KiB> {
    let pointer = MutableVirtualPointer::<Page4KiB>::new(address).ok().unwrap();
    ValidMutableVirtualPointer::<IS_USER, Page4KiB>::new(pointer)
}

fn create_region<const IS_USER: bool>(
    starting_physical_address: usize,
    starting_virtual_address: usize,
    permissions: Permissions,
) -> MappedProtectedAllocatedRegion<IS_USER, Page4KiB> {
    let starting_physical_pointer = create_physical_page_pointer(starting_physical_address);
    let physical_slice = MutablePhysicalSlice::from_raw_parts(starting_physical_pointer, 4);
    let allocated_region = PhysicalAllocatedRegion::new(physical_slice);
    let protected_allocated_region =
        ProtectedAllocatedRegion::new(allocated_region, 2, permissions).ok().unwrap();
    let starting_virtual_pointer = create_virtual_page_pointer::<IS_USER>(starting_virtual_address);
    MappedProtectedAllocatedRegion::new_from_protected(
        protected_allocated_region,
        starting_virtual_pointer,
    )
    .ok()
    .unwrap()
}

fn create_process_configuration() -> ValidProcessConfiguration<Page4KiB> {
    let flash_region = create_region::<true>(0x9000_0000, 0x3000_0000, Permissions::ReadExecute);
    let ram_region = create_region::<true>(0x3000_0000, 0x4000_0000, Permissions::ReadWrite);
    let process_configuration = ProcessConfiguration::new(Asid::new(0), flash_region, ram_region);
    ValidProcessConfiguration::new(process_configuration)
}

fn create_kernel_configuration() -> KernelConfiguration<Page4KiB> {
    let rom_region = create_region::<false>(0x1000_0000, 0xC000_0000, Permissions::ReadExecute);
    let prog_region = create_region::<false>(0x2000_0000, 0xD000_0000, Permissions::ReadExecute);
    let ram_region = create_region::<false>(0x3000_0000, 0xE000_0000, Permissions::ReadWrite);
    let peripheral_region = create_region::<false>(0x4000_0000, 0xF000_0000, Permissions::ReadWrite);
    KernelConfiguration::new(rom_region, prog_region, ram_region, peripheral_region)
}

#[test]
fn test_process_configuration_translate_protected_physical_pointer_byte() {
    let process_configuration = create_process_configuration();

    let physical_byte = create_physical_pointer(0x8FFF_FFFF);
    assert!(process_configuration.translate_protected_physical_pointer_byte(physical_byte).is_err());

    let physical_byte = create_physical_pointer(0x9000_0000);
    let virtual_byte = process_configuration.translate_protected_physical_pointer_byte(physical_byte).ok().unwrap();
    assert_eq!(0x3000_0000, virtual_byte.get_address());

    let physical_byte = create_physical_pointer(0x9000_1FFF);
    let virtual_byte = process_configuration.translate_protected_physical_pointer_byte(physical_byte).ok().unwrap();
    assert_eq!(0x3000_1FFF, virtual_byte.get_address());

    let physical_byte = create_physical_pointer(0x9000_2000);
    assert!(process_configuration.translate_protected_physical_pointer_byte(physical_byte).is_err());

    let physical_byte = create_physical_pointer(0x2FFF_FFFF);
    assert!(process_configuration.translate_protected_physical_pointer_byte(physical_byte).is_err());

    let physical_byte = create_physical_pointer(0x3000_0000);
    let virtual_byte = process_configuration.translate_protected_physical_pointer_byte(physical_byte).ok().unwrap();
    assert_eq!(0x4000_0000, virtual_byte.get_address());

    let physical_byte = create_physical_pointer(0x3000_1FFF);
    let virtual_byte = process_configuration.translate_protected_physical_pointer_byte(physical_byte).ok().unwrap();
    assert_eq!(0x4000_1FFF, virtual_byte.get_address());

    let physical_byte = create_physical_pointer(0x3000_2000);
    assert!(process_configuration.translate_protected_physical_pointer_byte(physical_byte).is_err());
}

#[test]
fn test_process_configuration_translate_protected_virtual_pointer_byte() {
    let process_configuration = create_process_configuration();

    let virtual_byte = create_virtual_pointer::<true>(0x2FFF_FFFF);
    assert!(process_configuration.translate_protected_virtual_pointer_byte(virtual_byte).is_err());

    let virtual_byte = create_virtual_pointer::<true>(0x3000_0000);
    let physical_byte = process_configuration.translate_protected_virtual_pointer_byte(virtual_byte).ok().unwrap();
    assert_eq!(0x9000_0000, physical_byte.get_address());

    let virtual_byte = create_virtual_pointer::<true>(0x3000_1FFF);
    let physical_byte = process_configuration.translate_protected_virtual_pointer_byte(virtual_byte).ok().unwrap();
    assert_eq!(0x9000_1FFF, physical_byte.get_address());

    let virtual_byte = create_virtual_pointer::<true>(0x3000_2000);
    assert!(process_configuration.translate_protected_virtual_pointer_byte(virtual_byte).is_err());

    let virtual_byte = create_virtual_pointer::<true>(0x3FFF_FFFF);
    assert!(process_configuration.translate_protected_virtual_pointer_byte(virtual_byte).is_err());

    let virtual_byte = create_virtual_pointer::<true>(0x4000_0000);
    let physical_byte = process_configuration.translate_protected_virtual_pointer_byte(virtual_byte).ok().unwrap();
    assert_eq!(0x3000_0000, physical_byte.get_address());

    let virtual_byte = create_virtual_pointer::<true>(0x4000_1FFF);
    let physical_byte = process_configuration.translate_protected_virtual_pointer_byte(virtual_byte).ok().unwrap();
    assert_eq!(0x3000_1FFF, physical_byte.get_address());

    let virtual_byte = create_virtual_pointer::<true>(0x4000_2000);
    assert!(process_configuration.translate_protected_virtual_pointer_byte(virtual_byte).is_err());
}

#[test]
fn test_process_configuration_translate_allocated_virtual_pointer_byte() {
    let process_configuration = create_process_configuration();

    let virtual_byte = create_virtual_pointer::<true>(0x2FFF_FFFF);
    assert!(process_configuration.translate_allocated_virtual_pointer_byte(virtual_byte).is_err());

    let virtual_byte = create_virtual_pointer::<true>(0x3000_0000);
    let physical_byte = process_configuration.translate_allocated_virtual_pointer_byte(virtual_byte).ok().unwrap();
    assert_eq!(0x9000_0000, physical_byte.get_address());

    let virtual_byte = create_virtual_pointer::<true>(0x3000_3FFF);
    let physical_byte = process_configuration.translate_allocated_virtual_pointer_byte(virtual_byte).ok().unwrap();
    assert_eq!(0x9000_3FFF, physical_byte.get_address());

    let virtual_byte = create_virtual_pointer::<true>(0x3000_4000);
    assert!(process_configuration.translate_allocated_virtual_pointer_byte(virtual_byte).is_err());

    let virtual_byte = create_virtual_pointer::<true>(0x3FFF_FFFF);
    assert!(process_configuration.translate_allocated_virtual_pointer_byte(virtual_byte).is_err());

    let virtual_byte = create_virtual_pointer::<true>(0x4000_0000);
    let physical_byte = process_configuration.translate_allocated_virtual_pointer_byte(virtual_byte).ok().unwrap();
    assert_eq!(0x3000_0000, physical_byte.get_address());

    let virtual_byte = create_virtual_pointer::<true>(0x4000_3FFF);
    let physical_byte = process_configuration.translate_allocated_virtual_pointer_byte(virtual_byte).ok().unwrap();
    assert_eq!(0x3000_3FFF, physical_byte.get_address());

    let virtual_byte = create_virtual_pointer::<true>(0x4000_4000);
    assert!(process_configuration.translate_allocated_virtual_pointer_byte(virtual_byte).is_err());
}

#[test]
fn test_kernel_configuration_is_intersecting_user_virtual_region() {
    let kernel_configuration = create_kernel_configuration();

    // ROM
    let user_region = create_region::<true>(0x5000_0000, 0xBFFF_C000, Permissions::ReadWrite);
    assert!(!kernel_configuration.is_intersecting_user_virtual_region(&user_region));

    let user_region = create_region::<true>(0x5000_0000, 0xBFFF_D000, Permissions::ReadWrite);
    assert!(kernel_configuration.is_intersecting_user_virtual_region(&user_region));

    let user_region = create_region::<true>(0x5000_0000, 0xC000_4000, Permissions::ReadWrite);
    assert!(!kernel_configuration.is_intersecting_user_virtual_region(&user_region));

    // PROG
    let user_region = create_region::<true>(0x5000_0000, 0xCFFF_C000, Permissions::ReadWrite);
    assert!(!kernel_configuration.is_intersecting_user_virtual_region(&user_region));

    let user_region = create_region::<true>(0x5000_0000, 0xCFFF_D000, Permissions::ReadWrite);
    assert!(kernel_configuration.is_intersecting_user_virtual_region(&user_region));

    let user_region = create_region::<true>(0x5000_0000, 0xD000_4000, Permissions::ReadWrite);
    assert!(!kernel_configuration.is_intersecting_user_virtual_region(&user_region));

    // RAM
    let user_region = create_region::<true>(0x5000_0000, 0xDFFF_C000, Permissions::ReadWrite);
    assert!(!kernel_configuration.is_intersecting_user_virtual_region(&user_region));

    let user_region = create_region::<true>(0x5000_0000, 0xDFFF_D000, Permissions::ReadWrite);
    assert!(kernel_configuration.is_intersecting_user_virtual_region(&user_region));

    let user_region = create_region::<true>(0x5000_0000, 0xE000_4000, Permissions::ReadWrite);
    assert!(!kernel_configuration.is_intersecting_user_virtual_region(&user_region));

    // PERIPHERAL
    let user_region = create_region::<true>(0x5000_0000, 0xEFFF_C000, Permissions::ReadWrite);
    assert!(!kernel_configuration.is_intersecting_user_virtual_region(&user_region));

    let user_region = create_region::<true>(0x5000_0000, 0xEFFF_D000, Permissions::ReadWrite);
    assert!(kernel_configuration.is_intersecting_user_virtual_region(&user_region));

    let user_region = create_region::<true>(0x5000_0000, 0xF000_4000, Permissions::ReadWrite);
    assert!(!kernel_configuration.is_intersecting_user_virtual_region(&user_region));
}

#[test]
fn test_kernel_configuration_translate_allocated_virtual_pointer_byte() {
    let kernel_configuration = create_kernel_configuration();

    // ROM
    let virtual_byte = create_virtual_pointer::<false>(0xBFFF_FFFF);
    assert!(kernel_configuration.translate_allocated_virtual_pointer_byte(virtual_byte).is_err());

    let virtual_byte = create_virtual_pointer::<false>(0xC000_0000);
    let physical_byte = kernel_configuration.translate_allocated_virtual_pointer_byte(virtual_byte).ok().unwrap();
    assert_eq!(0x1000_0000, physical_byte.get_address());

    let virtual_byte = create_virtual_pointer::<false>(0xC000_3FFF);
    let physical_byte = kernel_configuration.translate_allocated_virtual_pointer_byte(virtual_byte).ok().unwrap();
    assert_eq!(0x1000_3FFF, physical_byte.get_address());

    let virtual_byte = create_virtual_pointer::<false>(0xC000_4000);
    assert!(kernel_configuration.translate_allocated_virtual_pointer_byte(virtual_byte).is_err());

    // PROG
    let virtual_byte = create_virtual_pointer::<false>(0xCFFF_FFFF);
    assert!(kernel_configuration.translate_allocated_virtual_pointer_byte(virtual_byte).is_err());

    let virtual_byte = create_virtual_pointer::<false>(0xD000_0000);
    let physical_byte = kernel_configuration.translate_allocated_virtual_pointer_byte(virtual_byte).ok().unwrap();
    assert_eq!(0x2000_0000, physical_byte.get_address());

    let virtual_byte = create_virtual_pointer::<false>(0xD000_3FFF);
    let physical_byte = kernel_configuration.translate_allocated_virtual_pointer_byte(virtual_byte).ok().unwrap();
    assert_eq!(0x2000_3FFF, physical_byte.get_address());

    let virtual_byte = create_virtual_pointer::<false>(0xD000_4000);
    assert!(kernel_configuration.translate_allocated_virtual_pointer_byte(virtual_byte).is_err());

    // RAM
    let virtual_byte = create_virtual_pointer::<false>(0xCFFF_FFFF);
    assert!(kernel_configuration.translate_allocated_virtual_pointer_byte(virtual_byte).is_err());

    let virtual_byte = create_virtual_pointer::<false>(0xD000_0000);
    let physical_byte = kernel_configuration.translate_allocated_virtual_pointer_byte(virtual_byte).ok().unwrap();
    assert_eq!(0x2000_0000, physical_byte.get_address());

    let virtual_byte = create_virtual_pointer::<false>(0xD000_3FFF);
    let physical_byte = kernel_configuration.translate_allocated_virtual_pointer_byte(virtual_byte).ok().unwrap();
    assert_eq!(0x2000_3FFF, physical_byte.get_address());

    let virtual_byte = create_virtual_pointer::<false>(0xD000_4000);
    assert!(kernel_configuration.translate_allocated_virtual_pointer_byte(virtual_byte).is_err());

    // PERIPHERAL
    let virtual_byte = create_virtual_pointer::<false>(0xCFFF_FFFF);
    assert!(kernel_configuration.translate_allocated_virtual_pointer_byte(virtual_byte).is_err());

    let virtual_byte = create_virtual_pointer::<false>(0xD000_0000);
    let physical_byte = kernel_configuration.translate_allocated_virtual_pointer_byte(virtual_byte).ok().unwrap();
    assert_eq!(0x2000_0000, physical_byte.get_address());

    let virtual_byte = create_virtual_pointer::<false>(0xD000_3FFF);
    let physical_byte = kernel_configuration.translate_allocated_virtual_pointer_byte(virtual_byte).ok().unwrap();
    assert_eq!(0x2000_3FFF, physical_byte.get_address());

    let virtual_byte = create_virtual_pointer::<false>(0xD000_4000);
    assert!(kernel_configuration.translate_allocated_virtual_pointer_byte(virtual_byte).is_err());
}

#[test]
fn test_kernel_configuration_translate_allocated_physical_pointer_byte() {
    let kernel_configuration = create_kernel_configuration();

    // ROM
    let physical_byte = create_physical_pointer(0x0FFF_FFFF);
    assert!(kernel_configuration.translate_allocated_physical_pointer_byte(physical_byte).is_err());

    let physical_byte = create_physical_pointer(0x1000_0000);
    let virtual_byte = kernel_configuration.translate_allocated_physical_pointer_byte(physical_byte).ok().unwrap();
    assert_eq!(0xC000_0000, virtual_byte.get_address());

    let physical_byte = create_physical_pointer(0x1000_3FFF);
    let virtual_byte = kernel_configuration.translate_allocated_physical_pointer_byte(physical_byte).ok().unwrap();
    assert_eq!(0xC000_3FFF, virtual_byte.get_address());

    let physical_byte = create_physical_pointer(0x1000_4000);
    assert!(kernel_configuration.translate_allocated_physical_pointer_byte(physical_byte).is_err());

    // PROG
    let physical_byte = create_physical_pointer(0x1FFF_FFFF);
    assert!(kernel_configuration.translate_allocated_physical_pointer_byte(physical_byte).is_err());

    let physical_byte = create_physical_pointer(0x2000_0000);
    let virtual_byte = kernel_configuration.translate_allocated_physical_pointer_byte(physical_byte).ok().unwrap();
    assert_eq!(0xD000_0000, virtual_byte.get_address());

    let physical_byte = create_physical_pointer(0x2000_3FFF);
    let virtual_byte = kernel_configuration.translate_allocated_physical_pointer_byte(physical_byte).ok().unwrap();
    assert_eq!(0xD000_3FFF, virtual_byte.get_address());

    let physical_byte = create_physical_pointer(0x2000_4000);
    assert!(kernel_configuration.translate_allocated_physical_pointer_byte(physical_byte).is_err());

    // RAM
    let physical_byte = create_physical_pointer(0x2FFF_FFFF);
    assert!(kernel_configuration.translate_allocated_physical_pointer_byte(physical_byte).is_err());

    let physical_byte = create_physical_pointer(0x3000_0000);
    let virtual_byte = kernel_configuration.translate_allocated_physical_pointer_byte(physical_byte).ok().unwrap();
    assert_eq!(0xE000_0000, virtual_byte.get_address());

    let physical_byte = create_physical_pointer(0x3000_3FFF);
    let virtual_byte = kernel_configuration.translate_allocated_physical_pointer_byte(physical_byte).ok().unwrap();
    assert_eq!(0xE000_3FFF, virtual_byte.get_address());

    let physical_byte = create_physical_pointer(0x3000_4000);
    assert!(kernel_configuration.translate_allocated_physical_pointer_byte(physical_byte).is_err());

    // PERIPHERAL
    let physical_byte = create_physical_pointer(0x3FFF_FFFF);
    assert!(kernel_configuration.translate_allocated_physical_pointer_byte(physical_byte).is_err());

    let physical_byte = create_physical_pointer(0x4000_0000);
    let virtual_byte = kernel_configuration.translate_allocated_physical_pointer_byte(physical_byte).ok().unwrap();
    assert_eq!(0xF000_0000, virtual_byte.get_address());

    let physical_byte = create_physical_pointer(0x4000_3FFF);
    let virtual_byte = kernel_configuration.translate_allocated_physical_pointer_byte(physical_byte).ok().unwrap();
    assert_eq!(0xF000_3FFF, virtual_byte.get_address());

    let physical_byte = create_physical_pointer(0x4000_4000);
    assert!(kernel_configuration.translate_allocated_physical_pointer_byte(physical_byte).is_err());
}
