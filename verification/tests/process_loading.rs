use kernel::process_binary::{ProcessBinary, ProcessBinaryError, TbfHeaderInfo};
use kernel::process_loading::{
    check_if_within_flash_bounds, compact_nonzero, compute_new_process_binary_address,
    compute_padding_requirement_and_neighbors, find_next_cortex_m_aligned_address,
    PaddingRequirement,
};

#[test]
fn aligned_addresses() {
    assert_eq!(find_next_cortex_m_aligned_address(0x4_0000, 0x1000), 0x4_0000);
    assert_eq!(find_next_cortex_m_aligned_address(0x4_0001, 0x1000), 0x4_1000);
    assert_eq!(find_next_cortex_m_aligned_address(0x4_0FFF, 0x1000), 0x4_1000);
    assert_eq!(find_next_cortex_m_aligned_address(10, 4), 12);
}

#[test]
fn compaction_keeps_order() {
    let mut addresses = [0, 5, 0, 7, 9, 0];
    let count = compact_nonzero(&mut addresses);
    assert_eq!(count, 3);
    assert_eq!(&addresses[0..3], &[5, 7, 9]);
    assert_eq!(&addresses[3..], &[7, 9, 0]);
}

#[test]
fn new_binary_goes_in_the_first_gap_that_fits() {
    // Binaries at [0x40000, 0x41000) and [0x44000, 0x45000).
    let mut starts = [0x4_0000, 0, 0x4_4000, 0];
    let mut ends = [0x4_1000, 0, 0x4_5000, 0];
    assert_eq!(
        compute_new_process_binary_address(0x1000, &mut starts, &mut ends),
        0x4_1000
    );
    // A binary of 0x2000 bytes must start at a multiple of 0x2000.
    let mut starts = [0x4_0000, 0x4_4000, 0, 0];
    let mut ends = [0x4_1000, 0x4_5000, 0, 0];
    assert_eq!(
        compute_new_process_binary_address(0x2000, &mut starts, &mut ends),
        0x4_6000
    );
}

#[test]
fn new_binary_after_the_only_one() {
    let mut starts = [0, 0x4_0000, 0];
    let mut ends = [0, 0x4_0C00, 0];
    assert_eq!(
        compute_new_process_binary_address(0x400, &mut starts, &mut ends),
        0x4_0C00
    );
    assert_eq!(starts[0], 0x4_0000);
    assert_eq!(ends[0], 0x4_0C00);
}

#[test]
fn padding_around_a_new_binary() {
    let starts = [0x4_0000, 0x4_4000];
    let ends = [0x4_1000, 0x4_5000];
    assert_eq!(
        compute_padding_requirement_and_neighbors(0x4_2000, 0x1000, &starts, &ends),
        (PaddingRequirement::PreAndPostPad, 0x4_1000, 0x4_4000)
    );
    assert_eq!(
        compute_padding_requirement_and_neighbors(0x4_1000, 0x1000, &starts, &ends),
        (PaddingRequirement::PostPad, 0x4_1000, 0x4_4000)
    );
    assert_eq!(
        compute_padding_requirement_and_neighbors(0x4_6000, 0x1000, &starts, &ends),
        (PaddingRequirement::PrePad, 0x4_5000, 0)
    );
    assert_eq!(
        compute_padding_requirement_and_neighbors(0x4_5000, 0x1000, &starts, &ends),
        (PaddingRequirement::NONE, 0x4_5000, 0)
    );
    assert_eq!(PaddingRequirement::default(), PaddingRequirement::NONE);
}

#[test]
fn flash_bounds() {
    assert!(check_if_within_flash_bounds(0x4_0000, 0x4_0000, 0x7_0000, 0xFFFF));
    assert!(!check_if_within_flash_bounds(0x4_0000, 0x4_0000, 0x7_0000, 0x1_0000));
}

fn header() -> TbfHeaderInfo {
    TbfHeaderInfo {
        is_app: true,
        enabled: true,
        kernel_version: Some((2, 0)),
        binary_end: 0x800,
        protected_size: 0x40,
        fixed_address_flash: None,
        binary_version: 1,
    }
}

#[test]
fn binaries_that_load() {
    let binary = ProcessBinary::create(0x4_0000, 0x1000, 0x40, Some(header()), true)
        .ok()
        .unwrap();
    assert_eq!(binary.footers_offset, 0x800);
    assert_eq!(binary.footers_len, 0x800);
    assert_eq!(binary.get_integrity_region(), (0x4_0000, 0x800));
    let mut fixed = header();
    fixed.fixed_address_flash = Some(0x4_0040);
    assert!(ProcessBinary::create(0x4_0000, 0x1000, 0x40, Some(fixed), true).is_ok());
}

#[test]
fn binaries_that_do_not_load() {
    let err = |r: Result<ProcessBinary, ProcessBinaryError>| r.err().unwrap();
    assert!(matches!(
        err(ProcessBinary::create(0x4_0000, 0x10, 0x40, Some(header()), true)),
        ProcessBinaryError::NotEnoughFlash
    ));
    assert!(matches!(
        err(ProcessBinary::create(0x4_0000, 0x1000, 0x40, None, true)),
        ProcessBinaryError::TbfHeaderParseFailure
    ));
    let mut h = header();
    h.is_app = false;
    assert!(matches!(
        err(ProcessBinary::create(0x4_0000, 0x1000, 0x40, Some(h), true)),
        ProcessBinaryError::Padding
    ));
    let mut h = header();
    h.enabled = false;
    assert!(matches!(
        err(ProcessBinary::create(0x4_0000, 0x1000, 0x40, Some(h), true)),
        ProcessBinaryError::NotEnabledProcess
    ));
    let mut h = header();
    h.kernel_version = Some((2, 2));
    assert!(matches!(
        err(ProcessBinary::create(0x4_0000, 0x1000, 0x40, Some(h), true)),
        ProcessBinaryError::IncompatibleKernelVersion { version: Some((2, 2)) }
    ));
    let mut h = header();
    h.kernel_version = None;
    assert!(matches!(
        err(ProcessBinary::create(0x4_0000, 0x1000, 0x40, Some(h), true)),
        ProcessBinaryError::IncompatibleKernelVersion { version: None }
    ));
    assert!(ProcessBinary::create(0x4_0000, 0x1000, 0x40, Some(h), false).is_ok());
    let mut h = header();
    h.binary_end = 0x2000;
    assert!(matches!(
        err(ProcessBinary::create(0x4_0000, 0x1000, 0x40, Some(h), true)),
        ProcessBinaryError::NotEnoughFlash
    ));
    let mut h = header();
    h.fixed_address_flash = Some(0x5_0000);
    assert!(matches!(
        err(ProcessBinary::create(0x4_0000, 0x1000, 0x40, Some(h), true)),
        ProcessBinaryError::IncorrectFlashAddress { actual_address: 0x4_0040, expected_address: 0x5_0000 }
    ));
}
