use kernel::errorcode::ErrorCode;
use kernel::process::{Error, ProcessAddresses, ProcessId, ProcessInfo, ShortId, State};
use kernel::process_array::ProcessArray;
use kernel::process_binary::TbfHeaderLengths;
use kernel::process_load_utilities::{
    crc32_entry_length, LoadPlan, LoaderCommandAction, ProcessLoader, DRIVER_NUM,
};
use kernel::process_loading::ProcessLoadError;
use kernel::syscall::SyscallReturn;

fn process(index: usize, identifier: usize) -> ProcessInfo {
    ProcessInfo {
        processid: ProcessId::new_external(identifier, index),
        short_app_id: ShortId::LocallyUnique,
        state: State::Running,
        name: b"ota".to_vec(),
        addresses: ProcessAddresses {
            flash_start: 0x4_0000,
            flash_non_protected_start: 0x4_0040,
            flash_integrity_end: 0x4_0800,
            flash_end: 0x4_1000,
            sram_start: 0x2000_0000,
            sram_app_brk: 0x2000_0800,
            sram_grant_start: 0x2000_0F00,
            sram_end: 0x2000_1000,
            sram_heap_start: None,
            sram_stack_top: None,
            sram_stack_bottom: None,
        },
        restart_count: 0,
        syscall_count: 0,
        dropped_upcall_count: 0,
        timeslice_expiration_count: 0,
        writeable_flash_regions: vec![],
    }
}

fn loader() -> ProcessLoader {
    ProcessLoader::init(4, 0x4_0000, 0x8_0000, 0x2004_0000, 0x2000_8000, 4)
}

fn answer(action: LoaderCommandAction) -> SyscallReturn {
    match action {
        LoaderCommandAction::Return(c) => c.into_inner(),
        _ => panic!("not an answer"),
    }
}

fn valid(app_length: u32) -> TbfHeaderLengths {
    TbfHeaderLengths::Valid { version: 2, header_length: 0x40, app_length }
}

#[test]
fn plain_commands() {
    let mut table = ProcessArray::<4>::new();
    table.set(0, process(0, 7));
    let mut l = loader();
    let me = ProcessId::new_external(7, 0);
    assert_eq!(DRIVER_NUM, 0x10001);
    assert_eq!(answer(l.command(table.as_slice(), 0, me)), SyscallReturn::Success);
    assert_eq!(answer(l.command(table.as_slice(), 6, me)), SyscallReturn::SuccessU32(4));
    assert_eq!(answer(l.command(table.as_slice(), 7, me)), SyscallReturn::SuccessU32(0x8_0000));
    assert_eq!(answer(l.command(table.as_slice(), 9, me)), SyscallReturn::SuccessU32(0x4_0000));
    assert_eq!(
        answer(l.command(table.as_slice(), 10, me)),
        SyscallReturn::Failure(ErrorCode::NOSUPPORT)
    );
    assert_eq!(answer(l.command(table.as_slice(), 3, me)), SyscallReturn::SuccessU32(0));
    assert_eq!(answer(l.command(table.as_slice(), 8, me)), SyscallReturn::SuccessU32(0));
    assert!(matches!(l.command(table.as_slice(), 1, me), LoaderCommandAction::LoadProcess));
    assert!(matches!(
        l.command(table.as_slice(), 5, me),
        LoaderCommandAction::Crc32 { flash_start: 0 }
    ));
}

#[test]
fn commands_of_a_missing_process() {
    let mut table = ProcessArray::<4>::new();
    table.set(0, process(0, 7));
    let mut l = loader();
    let gone = ProcessId::new_external(8, 1);
    let missing = SyscallReturn::Failure(ErrorCode::INVAL);
    let failed = SyscallReturn::Failure(ErrorCode::FAIL);
    assert_eq!(answer(l.command(table.as_slice(), 1, gone)), missing);
    assert_eq!(answer(l.command(table.as_slice(), 2, gone)), missing);
    assert_eq!(answer(l.command(table.as_slice(), 4, gone)), missing);
    assert_eq!(answer(l.command(table.as_slice(), 3, gone)), failed);
    assert_eq!(answer(l.command(table.as_slice(), 5, gone)), failed);
    assert_eq!(answer(l.command(table.as_slice(), 8, gone)), failed);
    assert_eq!(answer(l.command(table.as_slice(), 6, gone)), SyscallReturn::SuccessU32(4));
    assert_eq!(l.allocate_grant(table.as_slice(), gone), Err(Error::NoSuchApp));
    assert_eq!(l.allocate_grant(table.as_slice(), ProcessId::new_external(7, 0)), Ok(()));
}

#[test]
fn finding_the_end_of_the_binaries_in_flash() {
    let mut table = ProcessArray::<4>::new();
    table.set(0, process(0, 7));
    let mut l = loader();
    let me = ProcessId::new_external(7, 0);
    let start = match l.command(table.as_slice(), 2, me) {
        LoaderCommandAction::FindWritableFlash { app_start_address } => app_start_address,
        _ => panic!("no search"),
    };
    assert_eq!(start, 0x4_0000);
    let next = l.find_writable_flash_step(me, 0, start, valid(0x2000));
    assert_eq!(next, Some((1, 0x4_2000)));
    let padding = TbfHeaderLengths::InvalidHeader { app_length: 0x1000 };
    let next = l.find_writable_flash_step(me, 1, 0x4_2000, padding);
    assert_eq!(next, Some((2, 0x4_3000)));
    let end = l.find_writable_flash_step(me, 2, 0x4_3000, TbfHeaderLengths::UnableToParse);
    assert_eq!(end, None);
    assert_eq!(answer(l.command(table.as_slice(), 3, me)), SyscallReturn::SuccessU32(0x4_3000));
    assert_eq!(answer(l.command(table.as_slice(), 8, me)), SyscallReturn::SuccessU32(2));
    // The end of the flash for applications stops the search.
    assert_eq!(l.find_writable_flash_step(me, 2, 0x7_FFFC, valid(4)), None);
    // So does a full process table.
    assert_eq!(l.find_writable_flash_step(me, 4, 0x4_3000, valid(0x1000)), None);
    assert_eq!(answer(l.command(table.as_slice(), 3, me)), SyscallReturn::SuccessU32(0x4_3000));
}

#[test]
fn loading_a_process_written_into_flash() {
    let mut table = ProcessArray::<4>::new();
    table.set(0, process(0, 7));
    let mut l = loader();
    let me = ProcessId::new_external(7, 0);
    assert_eq!(answer(l.command(table.as_slice(), 4, me)), SyscallReturn::Success);
    assert_eq!(l.find_writable_flash_step(me, 0, 0x4_0000, valid(0x1000)), Some((1, 0x4_1000)));
    let plan = l.load_step(me, valid(0x2000)).ok().unwrap();
    assert_eq!(
        plan,
        LoadPlan::Create {
            flash_start: 0x4_1000,
            flash_len: 0x2000,
            header_length: 0x40,
            version: 2,
            sram_start: 0x2000_8000,
            sram_len: 0x3_8000,
        }
    );
    assert!(matches!(
        l.load_step(me, TbfHeaderLengths::UnableToParse),
        Err(ProcessLoadError::InternalError)
    ));
    assert!(matches!(
        l.load_step(me, valid(0x8_0000)),
        Err(ProcessLoadError::BinaryError(_))
    ));
    let empty_header = TbfHeaderLengths::Valid { version: 2, header_length: 0, app_length: 0x100 };
    assert!(matches!(l.load_step(me, empty_header), Err(ProcessLoadError::InternalError)));

    let mut slots = table.as_slice().to_vec();
    assert_eq!(l.load_done(&mut slots, me, Ok(Some(process(1, 12)))), Ok(()));
    assert!(slots[1].get().is_some());
    assert_eq!(slots[1].get().unwrap().processid.id(), 12);
    assert_eq!(
        l.load_done(&mut slots, me, Err(ProcessLoadError::NotEnoughMemory)),
        Err(ErrorCode::FAIL)
    );
    assert!(slots[1].get().is_some());
    assert_eq!(l.load_done(&mut slots, me, Ok(None)), Ok(()));
    assert!(slots[1].get().is_none());
}

#[test]
fn nothing_to_load_with_a_full_table() {
    let mut table = ProcessArray::<4>::new();
    table.set(0, process(0, 7));
    let mut l = loader();
    let me = ProcessId::new_external(7, 0);
    let mut index = 0;
    let mut address = 0x4_0000;
    while let Some((i, a)) = l.find_writable_flash_step(me, index, address, valid(0x1000)) {
        index = i;
        address = a;
    }
    assert_eq!(index, 4);
    assert_eq!(l.load_step(me, valid(0x1000)).ok(), Some(LoadPlan::Nothing));
}

#[test]
fn checksum_length_from_the_header() {
    assert_eq!(crc32_entry_length(&[2, 0, 0x40, 0, 0x00, 0x10, 0, 0]), 0x1000);
    assert_eq!(crc32_entry_length(&[0, 0, 0, 0, 0x78, 0x56, 0x34, 0x12]), 0x1234_5678);
}
