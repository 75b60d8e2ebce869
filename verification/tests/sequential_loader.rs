use kernel::process::{ProcessAddresses, ProcessId, ProcessInfo, ShortId, State};
use kernel::process_array::{ProcessArray, ProcessSlot};
use kernel::process_binary::{ProcessBinary, ProcessBinaryError, TbfHeaderInfo, TbfHeaderLengths};
use kernel::process_checker::{AppUniqueness, Compress, ProcessCheckError};
use kernel::process_loading::sequential::{
    binary_pair_verdict, decide_load, find_open_process_binary_slot,
    is_blocked_by_process_under_policy, is_blocked_under_policy, find_open_process_slot,
    is_blocked_from_loading_by, is_blocked_from_loading_by_process, load_and_check_step,
    process_checked, BinaryPairVerdict, DiscoveryStep, LoadDecision, ProcessVerdict,
};
use kernel::process_loading::{
    boot_step, check_flash_for_new_address, check_flash_for_valid_address,
    discover_process_binary, load_new_process_binary, scan_step, store_loaded_process, BootStep,
    PaddingRequirement, ProcessLoadError, ScanStep,
};

fn header(version: u32) -> TbfHeaderInfo {
    TbfHeaderInfo {
        is_app: true,
        enabled: true,
        kernel_version: Some((2, 0)),
        binary_end: 0x800,
        protected_size: 0x40,
        fixed_address_flash: None,
        binary_version: version,
    }
}

fn binary(version: u32) -> ProcessBinary {
    ProcessBinary::create(0x4_0000, 0x1000, 0x40, Some(header(version)), true)
        .ok()
        .unwrap()
}

fn valid(app_length: u32) -> TbfHeaderLengths {
    TbfHeaderLengths::Valid { version: 2, header_length: 0x40, app_length }
}

fn process(index: usize, identifier: usize) -> ProcessInfo {
    ProcessInfo {
        processid: ProcessId::new_external(identifier, index),
        short_app_id: ShortId::Fixed(identifier as u32 + 100),
        state: State::Running,
        name: b"app".to_vec(),
        addresses: ProcessAddresses {
            flash_start: 0x4_0000,
            flash_non_protected_start: 0x4_0040,
            flash_integrity_end: 0x4_0800,
            flash_end: 0x4_1000,
            sram_start: 0x2000_0000,
            sram_app_brk: 0x2000_0800,
            sram_grant_start: 0x2000_0F00,
            sram_end: 0x2000_1000,
            sram_heap_start: None,
            sram_stack_top: None,
            sram_stack_bottom: None,
        },
        restart_count: 0,
        syscall_count: 0,
        dropped_upcall_count: 0,
        timeslice_expiration_count: 0,
        writeable_flash_regions: vec![],
    }
}

#[test]
fn discovering_binaries_in_flash() {
    let found = discover_process_binary(0x4_0000, 0x2000, valid(0x1000), Some(header(1)));
    let (step, pb) = found.ok().unwrap();
    assert_eq!(step, 0x1000);
    assert_eq!(pb.flash_len, 0x1000);
    assert_eq!(pb.footers_offset, 0x800);

    assert!(matches!(
        discover_process_binary(0x4_0000, 4, valid(0x1000), Some(header(1))),
        Err((0, ProcessBinaryError::NotEnoughFlash))
    ));
    assert!(matches!(
        discover_process_binary(0x4_0000, 0x2000, TbfHeaderLengths::UnableToParse, None),
        Err((0, ProcessBinaryError::TbfHeaderNotFound))
    ));
    assert!(matches!(
        discover_process_binary(0x4_0000, 0x2000, valid(0x3000), Some(header(1))),
        Err((0, ProcessBinaryError::NotEnoughFlash))
    ));
    assert!(matches!(
        discover_process_binary(
            0x4_0000,
            0x2000,
            TbfHeaderLengths::InvalidHeader { app_length: 0x100 },
            None
        ),
        Err((0x100, ProcessBinaryError::TbfHeaderParseFailure))
    ));
    let mut unversioned = header(1);
    unversioned.kernel_version = None;
    assert!(matches!(
        discover_process_binary(0x4_0000, 0x2000, valid(0x1000), Some(unversioned)),
        Err((0x1000, ProcessBinaryError::IncompatibleKernelVersion { version: None }))
    ));
}

#[test]
fn steps_after_discovery() {
    assert!(matches!(load_and_check_step(Ok(binary(1))), DiscoveryStep::Check(_)));
    assert!(matches!(
        load_and_check_step(Err(ProcessBinaryError::NotEnoughFlash)),
        DiscoveryStep::LoadProcesses
    ));
    assert!(matches!(
        load_and_check_step(Err(ProcessBinaryError::TbfHeaderNotFound)),
        DiscoveryStep::LoadProcesses
    ));
    assert!(matches!(
        load_and_check_step(Err(ProcessBinaryError::Padding)),
        DiscoveryStep::Report(ProcessLoadError::BinaryError(ProcessBinaryError::Padding))
    ));
}

#[test]
fn newer_binaries_of_the_same_application_block_older_ones() {
    let old = binary(1);
    let new = binary(2);
    let same = Some(BinaryPairVerdict {
        different_identifier: false,
        short_id_a: ShortId::LocallyUnique,
        short_id_b: ShortId::LocallyUnique,
    });
    assert!(is_blocked_from_loading_by(&old, &new, same));
    assert!(!is_blocked_from_loading_by(&new, &old, same));
    assert!(!is_blocked_from_loading_by(&old, &new, None));
    let same_short = Some(BinaryPairVerdict {
        different_identifier: true,
        short_id_a: ShortId::Fixed(5),
        short_id_b: ShortId::Fixed(5),
    });
    assert!(is_blocked_from_loading_by(&old, &new, same_short));
    let different = Some(BinaryPairVerdict {
        different_identifier: true,
        short_id_a: ShortId::Fixed(5),
        short_id_b: ShortId::Fixed(6),
    });
    assert!(!is_blocked_from_loading_by(&old, &new, different));
    assert!(!is_blocked_from_loading_by(&old, &old, same));
}

#[test]
fn loaded_processes_block_binaries_of_the_same_application() {
    let running = process(0, 7);
    let same_short = Some(ProcessVerdict {
        different_identifier: true,
        short_id: ShortId::Fixed(107),
    });
    assert!(is_blocked_from_loading_by_process(same_short, &running));
    let other = Some(ProcessVerdict { different_identifier: true, short_id: ShortId::Fixed(1) });
    assert!(!is_blocked_from_loading_by_process(other, &running));
    let same = Some(ProcessVerdict {
        different_identifier: false,
        short_id: ShortId::LocallyUnique,
    });
    assert!(is_blocked_from_loading_by_process(same, &running));
    assert!(!is_blocked_from_loading_by_process(None, &running));
}

#[test]
fn open_slots_are_the_first_empty_ones() {
    let mut table = ProcessArray::<3>::new();
    assert_eq!(find_open_process_slot(table.as_slice()), Some(0));
    table.set(0, process(0, 7));
    assert_eq!(find_open_process_slot(table.as_slice()), Some(1));
    table.set(1, process(1, 8));
    table.set(2, process(2, 9));
    assert_eq!(find_open_process_slot(table.as_slice()), None);

    let bins = [Some(binary(1)), None, None];
    assert_eq!(find_open_process_binary_slot(&bins), Some(1));
    let full = [Some(binary(1))];
    assert_eq!(find_open_process_binary_slot(&full), None);
}

#[test]
fn deciding_whether_a_binary_loads() {
    let mut slots = vec![ProcessSlot::empty(), ProcessSlot::empty()];
    slots[0].set(process(0, 7));
    assert_eq!(decide_load(&[false, false], &[false], &slots), LoadDecision::Load { index: 1 });
    assert_eq!(decide_load(&[false, true], &[false], &slots), LoadDecision::Blocked);
    assert_eq!(decide_load(&[], &[true], &slots), LoadDecision::Blocked);
    slots[1].set(process(1, 8));
    assert_eq!(decide_load(&[false], &[], &slots), LoadDecision::NoProcessSlot);
}

#[test]
fn checked_binaries_are_kept() {
    let mut bins = [Some(binary(1)), None, None];
    assert!(process_checked(&mut bins, binary(2), Ok(())).is_none());
    assert_eq!(bins[1].unwrap().header.binary_version, 2);
    assert!(bins[2].is_none());

    let mut full = [Some(binary(1))];
    assert!(matches!(
        process_checked(&mut full, binary(2), Ok(())),
        Some(ProcessLoadError::NoProcessSlot)
    ));
    assert_eq!(full[0].unwrap().header.binary_version, 1);

    let mut some = [None];
    assert!(matches!(
        process_checked(&mut some, binary(2), Err(ProcessCheckError::CredentialsNotAccepted)),
        Some(ProcessLoadError::CheckError(ProcessCheckError::CredentialsNotAccepted))
    ));
    assert!(some[0].is_none());
}

#[test]
fn scanning_flash_for_binaries() {
    let mut starts = [0usize; 4];
    let mut ends = [0usize; 4];
    let step = scan_step(0x4_0000, 0x4000, 0, valid(0x1000), &mut starts, &mut ends, 0);
    assert_eq!(step, ScanStep::Continue { next_offset: 0x1000, recorded: true });
    assert_eq!(starts, [0x4_0000, 0, 0, 0]);
    assert_eq!(ends, [0x4_1000, 0, 0, 0]);

    let padding = TbfHeaderLengths::Valid { version: 2, header_length: 16, app_length: 0x800 };
    let step = scan_step(0x4_0000, 0x4000, 0x1000, padding, &mut starts, &mut ends, 1);
    assert_eq!(step, ScanStep::Continue { next_offset: 0x1800, recorded: false });
    assert_eq!(starts, [0x4_0000, 0, 0, 0]);

    let step = scan_step(0x4_0000, 0x4000, 0x1800, valid(0x800), &mut starts, &mut ends, 1);
    assert_eq!(step, ScanStep::Continue { next_offset: 0x2000, recorded: true });
    assert_eq!(starts, [0x4_0000, 0x4_1800, 0, 0]);
    assert_eq!(ends, [0x4_1000, 0x4_2000, 0, 0]);

    let unable = TbfHeaderLengths::UnableToParse;
    assert_eq!(scan_step(0x4_0000, 0x4000, 0x2000, unable, &mut starts, &mut ends, 2), ScanStep::Finished);
    let invalid = TbfHeaderLengths::InvalidHeader { app_length: 0x100 };
    assert_eq!(scan_step(0x4_0000, 0x4000, 0x2000, invalid, &mut starts, &mut ends, 2), ScanStep::Failed);
    assert_eq!(scan_step(0x4_0000, 0x4000, 0x3FFC, valid(4), &mut starts, &mut ends, 2), ScanStep::Failed);
    assert_eq!(scan_step(0x4_0000, 0x4000, 0x2000, valid(0x5000), &mut starts, &mut ends, 2), ScanStep::Failed);
    assert_eq!(starts, [0x4_0000, 0x4_1800, 0, 0]);

    // The last entry of the tables is recorded, and the scan then fails.
    let step = scan_step(0x4_0000, 0x4000, 0x2000, valid(0x800), &mut starts, &mut ends, 3);
    assert_eq!(step, ScanStep::Failed);
    assert_eq!(starts, [0x4_0000, 0x4_1800, 0, 0x4_2000]);
}

#[test]
fn valid_addresses_for_new_binaries() {
    let mut starts = [0x4_0000, 0, 0x4_2000, 0];
    let mut ends = [0x4_1000, 0, 0x4_3000, 0];
    assert_eq!(
        check_flash_for_valid_address(0x4_0000, 0x4_0000, 0x1000, true, &mut starts, &mut ends).ok(),
        Some(0x4_3000)
    );
    assert_eq!(starts, [0x4_0000, 0x4_2000, 0x4_2000, 0]);

    let mut starts = [0x4_0000, 0x4_2000, 0, 0];
    let mut ends = [0x4_1000, 0x4_3000, 0, 0];
    assert_eq!(
        check_flash_for_valid_address(0x4_0000, 0x4_0000, 0x800, true, &mut starts, &mut ends).ok(),
        Some(0x4_1000)
    );

    let mut starts = [0x4_0000, 0x4_2000, 0, 0];
    let mut ends = [0x4_1000, 0x4_3000, 0, 0];
    assert!(matches!(
        check_flash_for_valid_address(0x4_0000, 0x3800, 0x1000, true, &mut starts, &mut ends),
        Err(ProcessBinaryError::NotEnoughFlash)
    ));
    assert!(matches!(
        check_flash_for_valid_address(0x4_0000, 0x4_0000, 0x1000, false, &mut starts, &mut ends),
        Err(ProcessBinaryError::NotEnoughFlash)
    ));
}

#[test]
fn new_addresses_with_their_padding() {
    let mut starts = [0x4_0000, 0x4_2000, 0, 0];
    let mut ends = [0x4_1000, 0x4_3000, 0, 0];
    let (address, padding, previous, next) =
        check_flash_for_new_address(0x4_0000, 0x4_0000, 0x800, true, &mut starts, &mut ends)
            .ok()
            .unwrap();
    assert_eq!(address, 0x4_1000);
    assert_eq!(padding, PaddingRequirement::PostPad);
    assert_eq!(previous, 0x4_1000);
    assert_eq!(next, 0x4_2000);

    let mut starts = [0x4_0000, 0x4_2000, 0, 0];
    let mut ends = [0x4_1000, 0x4_3000, 0, 0];
    let (address, padding, previous, next) =
        check_flash_for_new_address(0x4_0000, 0x4_0000, 0x1000, true, &mut starts, &mut ends)
            .ok()
            .unwrap();
    assert_eq!(address, 0x4_3000);
    assert_eq!(padding, PaddingRequirement::NONE);
    assert_eq!(previous, 0x4_3000);
    assert_eq!(next, 0);

    let mut starts = [0x4_0000, 0, 0, 0];
    let mut ends = [0x4_1000, 0, 0, 0];
    assert!(check_flash_for_new_address(0x4_0000, 0x4_0000, 0x1000, false, &mut starts, &mut ends).is_err());
}

#[test]
fn loading_a_new_binary() {
    assert_eq!(
        load_new_process_binary(0x4_0000, 0x4_0000, 0x4_2000, 0x1000, valid(0x1000)).ok(),
        Some((0x2000, 0x1000))
    );
    let invalid = TbfHeaderLengths::InvalidHeader { app_length: 0x1000 };
    assert!(matches!(
        load_new_process_binary(0x4_0000, 0x4_0000, 0x4_2000, 0x1000, invalid),
        Err(ProcessLoadError::BinaryError(ProcessBinaryError::TbfHeaderNotFound))
    ));
    assert!(matches!(
        load_new_process_binary(0x4_0000, 0x4_0000, 0x7_F800, 0x1000, valid(0x1000)),
        Err(ProcessLoadError::BinaryError(ProcessBinaryError::TbfHeaderNotFound))
    ));
    assert!(matches!(
        load_new_process_binary(0x4_0000, 0x4_0000, 0x7_FFFC, 4, valid(4)),
        Err(ProcessLoadError::BinaryError(ProcessBinaryError::TbfHeaderNotFound))
    ));
}

#[test]
fn loading_processes_at_boot() {
    assert!(matches!(boot_step(Ok(binary(1))), BootStep::Load(_)));
    assert!(matches!(boot_step(Err(ProcessBinaryError::TbfHeaderNotFound)), BootStep::Stop));
    assert!(matches!(boot_step(Err(ProcessBinaryError::NotEnoughFlash)), BootStep::Stop));
    assert!(matches!(boot_step(Err(ProcessBinaryError::NotEnabledProcess)), BootStep::Skip));

    let mut slots = vec![ProcessSlot::empty(), ProcessSlot::empty()];
    assert_eq!(store_loaded_process(&mut slots, 0, Ok(Some(process(0, 7)))), 1);
    assert_eq!(slots[0].get().unwrap().processid.id(), 7);
    assert_eq!(store_loaded_process(&mut slots, 1, Ok(None)), 1);
    assert!(slots[1].get().is_none());
    assert_eq!(store_loaded_process(&mut slots, 1, Err(ProcessLoadError::NotEnoughMemory)), 1);
    assert!(slots[1].get().is_none());
}

struct OneApplication;

impl AppUniqueness for OneApplication {
    fn different_identifier(&self, _a: &ProcessBinary, _b: &ProcessBinary) -> bool {
        false
    }
    fn different_identifier_process(&self, _a: &ProcessBinary, _b: &ProcessInfo) -> bool {
        false
    }
    fn different_identifier_processes(&self, _a: &ProcessInfo, _b: &ProcessInfo) -> bool {
        false
    }
}

impl Compress for OneApplication {
    fn to_short_id(&self, _process: &ProcessBinary) -> ShortId {
        ShortId::Fixed(1)
    }
}

#[test]
fn blocking_under_a_policy() {
    let old = binary(1);
    let new = binary(2);
    let running = process(0, 7);
    let policy = OneApplication;
    assert!(is_blocked_under_policy(Some(&policy), &old, &new));
    assert!(!is_blocked_under_policy(Some(&policy), &new, &old));
    assert!(!is_blocked_under_policy(None::<&OneApplication>, &old, &new));
    assert!(is_blocked_by_process_under_policy(Some(&policy), &old, &running));
    assert!(!is_blocked_by_process_under_policy(None::<&OneApplication>, &old, &running));
    let verdict = binary_pair_verdict(&policy, &old, &new);
    assert!(!verdict.different_identifier);
    assert!(verdict.short_id_a == ShortId::Fixed(1));

    // The default policy tells every application apart.
    assert!(!is_blocked_under_policy(Some(&()), &old, &new));
    assert!(!is_blocked_by_process_under_policy(Some(&()), &old, &running));
    assert!(matches!(().to_short_id(&old), ShortId::LocallyUnique));
    assert!(().different_identifier(&old, &new));
}
