use kernel::metaptr::{MetaPermissions, MetaPtr};

#[test]
fn meta_pointers_hold_their_address() {
    let p = MetaPtr::new_with_metadata(0x1000, 0x1000, 0x20, MetaPermissions::ReadWrite);
    assert_eq!(p.as_ptr(), 0x1000);
    assert_eq!(p.as_ptr_checked(0x40, MetaPermissions::Execute), 0x1000);
    assert_eq!(usize::from(p), 0x1000);
    assert_eq!(MetaPtr::from(0x1000usize), p);
    assert_eq!(MetaPtr::default().as_ptr(), 0);
}

#[test]
fn map_or_skips_null_pointers() {
    let null = MetaPtr::default();
    let p = MetaPtr::from(0x20usize);
    assert_eq!(null.map_or(7, |q| q.as_ptr() + 1), 7);
    assert_eq!(p.map_or(7, |q| q.as_ptr() + 1), 0x21);
    assert_eq!(null.map_or_else(|| 9, |q| q.as_ptr()), 9);
    assert_eq!(p.map_or_else(|| 9, |q| q.as_ptr()), 0x20);
}
