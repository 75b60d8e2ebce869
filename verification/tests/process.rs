use kernel::errorcode::ErrorCode;
use kernel::introspection::KernelInfo;
use kernel::process::{
    BinaryVersion, Error, ProcessAddresses, ProcessId, ProcessInfo, ShortId, State, StoppedState,
};
use kernel::process_array::{lookup_app_by_identifier, process_at_exec, ProcessArray, ProcessSlot};
use kernel::upcall::UpcallId;

fn addresses(flash_start: usize) -> ProcessAddresses {
    ProcessAddresses {
        flash_start,
        flash_non_protected_start: flash_start + 0x40,
        flash_integrity_end: flash_start + 0x800,
        flash_end: flash_start + 0x1000,
        sram_start: 0x2000_0000,
        sram_app_brk: 0x2000_0800,
        sram_grant_start: 0x2000_0F00,
        sram_end: 0x2000_1000,
        sram_heap_start: None,
        sram_stack_top: None,
        sram_stack_bottom: None,
    }
}

fn process(index: usize, identifier: usize, name: &str, state: State) -> ProcessInfo {
    ProcessInfo {
        processid: ProcessId::new_external(identifier, index),
        short_app_id: ShortId::Fixed(identifier as u32 + 100),
        state,
        name: name.as_bytes().to_vec(),
        addresses: addresses(0x4_0000 + 0x1000 * index),
        restart_count: index,
        syscall_count: 10 * identifier,
        dropped_upcall_count: 1,
        timeslice_expiration_count: identifier,
        writeable_flash_regions: vec![],
    }
}

fn table() -> ProcessArray<4> {
    let mut array = ProcessArray::<4>::new();
    array.set(0, process(0, 7, "blink", State::Running));
    array.set(2, process(2, 9, "sensor", State::Faulted));
    array.set(3, process(3, 11, "radio", State::Yielded));
    array
}

#[test]
fn process_ids_compare_by_identifier() {
    assert!(ProcessId::new_external(5, 0) == ProcessId::new_external(5, 3));
    assert!(ProcessId::new_external(5, 0) != ProcessId::new_external(6, 0));
    assert_eq!(ProcessId::new_external(42, 1).id(), 42);
}

#[test]
fn short_ids_locally_unique_equal_nothing() {
    assert!(ShortId::LocallyUnique != ShortId::LocallyUnique);
    assert!(ShortId::Fixed(3) == ShortId::Fixed(3));
    assert!(ShortId::Fixed(3) != ShortId::Fixed(4));
    assert!(ShortId::from(Some(9u32)) == ShortId::Fixed(9));
    assert!(matches!(ShortId::from(None), ShortId::LocallyUnique));
    assert!(matches!(ShortId::from(Some(0u32)), ShortId::LocallyUnique));
}

#[test]
fn process_errors_map_to_error_codes() {
    assert_eq!(ErrorCode::from(Error::OutOfMemory), ErrorCode::NOMEM);
    assert_eq!(ErrorCode::from(Error::AddressOutOfBounds), ErrorCode::INVAL);
    assert_eq!(ErrorCode::from(Error::NoSuchApp), ErrorCode::INVAL);
    assert_eq!(ErrorCode::from(Error::InactiveApp), ErrorCode::FAIL);
    assert_eq!(ErrorCode::from(Error::KernelError), ErrorCode::FAIL);
    assert_eq!(ErrorCode::from(Error::AlreadyInUse), ErrorCode::FAIL);
}

#[test]
fn binary_versions_are_ordered() {
    assert!(BinaryVersion::new(1) < BinaryVersion::new(2));
    assert!(BinaryVersion::new(3) == BinaryVersion::new(3));
}

#[test]
fn lookups_check_index_and_identifier() {
    let array = table();
    let slots = array.as_slice();
    assert_eq!(slots.len(), 4);
    assert_eq!(ProcessId::new_external(7, 0).index(slots), Some(0));
    assert_eq!(ProcessId::new_external(7, 2).index(slots), None);
    assert_eq!(ProcessId::new_external(8, 0).index(slots), None);
    assert_eq!(ProcessId::new_external(7, 9).index(slots), None);
    assert!(process_at_exec(slots, ProcessId::new_external(9, 2)).is_some());
    assert!(slots[1].get().is_none());
    assert!(slots[2].contains_process_with_id(9));
    assert!(!slots[2].contains_process_with_id(7));
    assert_eq!(lookup_app_by_identifier(slots, 11).map(|p| p.id()), Some(11));
    assert_eq!(lookup_app_by_identifier(slots, 12), None);
}

#[test]
fn short_app_id_and_editable_flash_range() {
    let array = table();
    let slots = array.as_slice();
    assert!(ProcessId::new_external(9, 2).short_app_id(slots) == ShortId::Fixed(109));
    assert!(matches!(
        ProcessId::new_external(9, 1).short_app_id(slots),
        ShortId::LocallyUnique
    ));
    assert_eq!(
        ProcessId::new_external(9, 2).get_editable_flash_range(slots),
        (0x4_2040, 0x4_3000)
    );
    assert_eq!(ProcessId::new_external(9, 3).get_editable_flash_range(slots), (0, 0));
}

#[test]
fn kernel_info_counts_processes() {
    let array = table();
    let info = KernelInfo::new(array.as_slice());
    assert_eq!(info.number_loaded_processes(), 3);
    assert_eq!(info.number_active_processes(), 2);
    assert_eq!(info.number_inactive_processes(), 1);
    assert_eq!(
        info.number_loaded_processes(),
        info.number_active_processes() + info.number_inactive_processes()
    );
    assert_eq!(info.timeslice_expirations(), 7 + 9 + 11);
}

#[test]
fn kernel_info_reads_one_process() {
    let array = table();
    let info = KernelInfo::new(array.as_slice());
    let radio = ProcessId::new_external(11, 3);
    let gone = ProcessId::new_external(13, 1);
    assert_eq!(info.process_name(radio), b"radio".to_vec());
    assert_eq!(info.process_name(gone), b"unknown".to_vec());
    assert_eq!(info.number_app_syscalls(radio), 110);
    assert_eq!(info.number_app_syscalls(gone), 0);
    assert_eq!(info.number_app_dropped_callbacks(radio), 1);
    assert_eq!(info.number_app_restarts(radio), 3);
    assert_eq!(info.number_app_timeslice_expirations(radio), 11);
    assert_eq!(info.number_app_timeslice_expirations(gone), 0);
}

#[test]
fn stopped_and_waiting_processes_are_inactive() {
    let mut array = ProcessArray::<2>::new();
    let upcall = UpcallId { driver_num: 3, subscribe_num: 1 };
    array.set(0, process(0, 1, "a", State::Stopped(StoppedState::Running)));
    array.set(1, process(1, 2, "b", State::YieldedFor(upcall)));
    let info = KernelInfo::new(array.as_slice());
    assert_eq!(info.number_active_processes(), 0);
    assert_eq!(info.number_inactive_processes(), 2);
}

#[test]
fn writeable_flash_regions_of_a_process() {
    let mut p = process(0, 1, "a", State::Running);
    p.writeable_flash_regions = vec![(0x100, 0x200)];
    assert_eq!(p.number_writeable_flash_regions(), 1);
    assert_eq!(p.get_writeable_flash_region(0), (0x100, 0x200));
    assert_eq!(p.get_writeable_flash_region(1), (0, 0));
    let empty = ProcessSlot::empty();
    assert!(empty.get().is_none());
}
