use kernel::memory_management::pages::Page4KiB;
use kernel::memory_management::pointers::{
    ImmutablePhysicalPointer, MutableVirtualPointer, UserVirtualPointer,
};
use kernel::memory_management::slices::{ImmutablePhysicalSlice, MutableUserVirtualSlice};

#[test]
fn test_physical_slice_split_at_checked() {
    let pointer = ImmutablePhysicalPointer::<Page4KiB>::new(0x80000000).ok().unwrap();
    let slice = ImmutablePhysicalSlice::from_raw_parts(pointer, 32);

    let (slice, optional_leftover) = match slice.split_at_checked(2) {
        Ok(result) => result,
        Err(_) => panic!("split_at_checked() should have succeeded"),
    };

    assert_eq!(0x80000000, slice.get_starting_pointer().get_address());
    assert_eq!(2, slice.get_length());

    let leftover = match optional_leftover {
        None => panic!("leftover cannot be None"),
        Some(leftover) => leftover,
    };

    assert_eq!(0x80002000, leftover.get_starting_pointer().get_address());
    assert_eq!(30, leftover.get_length());

    let leftover = match leftover.split_at_checked(31) {
        Err(leftover) => leftover,
        Ok(_) => panic!("split_at_checked() should have failed"),
    };

    let (slice, optional_leftover) = match leftover.split_at_checked(30) {
        Err(_) => panic!("split_at_checked() should have succeeded"),
        Ok(result) => result,
    };

    assert_eq!(0x80002000, slice.get_starting_pointer().get_address());
    assert_eq!(30, slice.get_length());
    assert!(optional_leftover.is_none());
}

#[test]
fn test_virtual_slice_split_at_checked() {
    let pointer = MutableVirtualPointer::<Page4KiB>::new(0x40000000).ok().unwrap();
    let pointer = UserVirtualPointer::<true, Page4KiB>::new(pointer);
    let slice = MutableUserVirtualSlice::from_raw_parts(pointer, 123);

    let (slice, optional_leftover) = match slice.split_at_checked(98) {
        Ok(result) => result,
        Err(_) => panic!("split_at_checked() should have succeeded"),
    };

    assert_eq!(0x40000000, slice.get_starting_pointer().get_address());
    assert_eq!(98, slice.get_length());

    let leftover = match optional_leftover {
        None => panic!("leftover cannot be None"),
        Some(leftover) => leftover,
    };

    assert_eq!(0x40062000, leftover.get_starting_pointer().get_address());
    assert_eq!(25, leftover.get_length());

    let leftover = match leftover.split_at_checked(26) {
        Err(leftover) => leftover,
        Ok(_) => panic!("split_at_checked() should have failed"),
    };

    let (slice, optional_leftover) = match leftover.split_at_checked(25) {
        Err(_) => panic!("split_at_checked() should have succeeded"),
        Ok(result) => result,
    };

    assert_eq!(0x40062000, slice.get_starting_pointer().get_address());
    assert_eq!(25, slice.get_length());
    assert!(optional_leftover.is_none());
}

#[test]
fn unaligned_or_null_pointers_are_refused() {
    assert!(ImmutablePhysicalPointer::<Page4KiB>::new(0).is_err());
    assert!(ImmutablePhysicalPointer::<Page4KiB>::new(0x1001).is_err());
    assert!(ImmutablePhysicalPointer::<u8>::new(0x1001).is_ok());
}
