use kernel::errorcode::ErrorCode;
use kernel::memop::{brk_return, memop, sbrk_return, MemopAction};
use kernel::metaptr::MetaPtr;
use kernel::process::{Error, ProcessAddresses, ProcessId, ProcessInfo, ShortId, State};
use kernel::syscall::SyscallReturn;

fn process() -> ProcessInfo {
    ProcessInfo {
        processid: ProcessId::new_external(1, 0),
        short_app_id: ShortId::LocallyUnique,
        state: State::Running,
        name: b"app".to_vec(),
        addresses: ProcessAddresses {
            flash_start: 0x4_0000,
            flash_non_protected_start: 0x4_0040,
            flash_integrity_end: 0x4_1000,
            flash_end: 0x4_2000,
            sram_start: 0x2000_0000,
            sram_app_brk: 0x2000_0800,
            sram_grant_start: 0x2000_0F00,
            sram_end: 0x2000_1000,
            sram_heap_start: None,
            sram_stack_top: None,
            sram_stack_bottom: None,
        },
        restart_count: 0,
        syscall_count: 0,
        dropped_upcall_count: 0,
        timeslice_expiration_count: 0,
        writeable_flash_regions: vec![(0x1000, 0x200), (0x1800, 0)],
    }
}

fn ptr(address: usize) -> MemopAction {
    MemopAction::Return(SyscallReturn::SuccessPtr(MetaPtr::from(address)))
}

#[test]
fn memop_reports_the_memory_layout() {
    let p = process();
    assert_eq!(memop(&p, 2, 0), ptr(0x2000_0000));
    assert_eq!(memop(&p, 3, 0), ptr(0x2000_1000));
    assert_eq!(memop(&p, 4, 0), ptr(0x4_0000));
    assert_eq!(memop(&p, 5, 0), ptr(0x4_2000));
    assert_eq!(
        memop(&p, 6, 0),
        MemopAction::Return(SyscallReturn::SuccessAddr(0x2000_0F00))
    );
    assert_eq!(memop(&p, 7, 0), MemopAction::Return(SyscallReturn::SuccessU32(2)));
}

#[test]
fn memop_writeable_regions() {
    let p = process();
    assert_eq!(memop(&p, 8, 0), ptr(0x4_1000));
    assert_eq!(memop(&p, 9, 0), ptr(0x4_1200));
    // A region of size zero, and a region that does not exist, fail.
    assert_eq!(
        memop(&p, 8, 1),
        MemopAction::Return(SyscallReturn::Failure(ErrorCode::FAIL))
    );
    assert_eq!(
        memop(&p, 9, 5),
        MemopAction::Return(SyscallReturn::Failure(ErrorCode::FAIL))
    );
}

#[test]
fn memop_changes_of_the_process() {
    let p = process();
    assert_eq!(memop(&p, 0, 0x2000_0900), MemopAction::Brk(0x2000_0900));
    assert_eq!(memop(&p, 1, 16), MemopAction::Sbrk(16));
    assert_eq!(memop(&p, 1, usize::MAX), MemopAction::Sbrk(-1));
    assert_eq!(memop(&p, 10, 0x2000_0FF0), MemopAction::UpdateStackStart(0x2000_0FF0));
    assert_eq!(memop(&p, 11, 0x2000_0100), MemopAction::UpdateHeapStart(0x2000_0100));
    assert_eq!(
        memop(&p, 12, 0),
        MemopAction::Return(SyscallReturn::Failure(ErrorCode::NOSUPPORT))
    );
}

#[test]
fn break_outcomes() {
    assert_eq!(brk_return(Ok(0x2000_0900)), SyscallReturn::Success);
    assert_eq!(
        brk_return(Err(Error::OutOfMemory)),
        SyscallReturn::Failure(ErrorCode::NOMEM)
    );
    assert_eq!(
        sbrk_return(Ok(0x2000_0800)),
        SyscallReturn::SuccessPtr(MetaPtr::from(0x2000_0800))
    );
    assert_eq!(
        sbrk_return(Err(Error::InactiveApp)),
        SyscallReturn::Failure(ErrorCode::NOMEM)
    );
}
