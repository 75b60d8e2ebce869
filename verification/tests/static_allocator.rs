use kernel::memory_management::allocators::allocator::Allocator;
use kernel::memory_management::allocators::static_allocator::StaticAllocator;
use kernel::memory_management::pages::Page4KiB;
use kernel::memory_management::pointers::MutablePhysicalPointer;
use kernel::memory_management::slices::MutablePhysicalSlice;

#[test]
fn test_allocate() {
    let pointer = MutablePhysicalPointer::<Page4KiB>::new(0x303000).ok().unwrap();
    let slice = MutablePhysicalSlice::from_raw_parts(pointer, 16);
    let mut allocator = StaticAllocator::new(slice);

    let allocation = allocator.allocate(1).ok().unwrap();
    assert_eq!(1, allocation.get_length());
    assert_eq!(0x303000, allocation.get_starting_pointer().get_address());

    let allocation = allocator.allocate(11).ok().unwrap();
    assert_eq!(11, allocation.get_length());
    assert_eq!(0x304000, allocation.get_starting_pointer().get_address());

    let result = allocator.allocate(5);
    assert!(result.is_err());

    let allocation = allocator.allocate(4).ok().unwrap();
    assert_eq!(4, allocation.get_length());
    assert_eq!(0x30F000, allocation.get_starting_pointer().get_address());

    let result = allocator.allocate(4);
    assert!(result.is_err());
}
