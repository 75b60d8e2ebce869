use kernel::errorcode::ErrorCode;
use kernel::ipc::{notify_return, IPCUpcallType, IpcCommandAction, IpcUpcall, IPC};
use kernel::mem::{Read, ReadOnlyAppSlice, ReadWriteAppSlice};
use kernel::process::{Error, ProcessAddresses, ProcessId, ProcessInfo, ShortId, State, Task};
use kernel::process_array::ProcessArray;
use kernel::syscall::{CommandReturn, SyscallReturn};

fn process(index: usize, identifier: usize, name: &str) -> ProcessInfo {
    ProcessInfo {
        processid: ProcessId::new_external(identifier, index),
        short_app_id: ShortId::LocallyUnique,
        state: State::Running,
        name: name.as_bytes().to_vec(),
        addresses: ProcessAddresses {
            flash_start: 0,
            flash_non_protected_start: 0,
            flash_integrity_end: 0,
            flash_end: 0,
            sram_start: 0,
            sram_app_brk: 0,
            sram_grant_start: 0,
            sram_end: 0,
            sram_heap_start: None,
            sram_stack_top: None,
            sram_stack_bottom: None,
        },
        restart_count: 0,
        syscall_count: 0,
        dropped_upcall_count: 0,
        timeslice_expiration_count: 0,
        writeable_flash_regions: vec![],
    }
}

fn table() -> ProcessArray<3> {
    let mut array = ProcessArray::<3>::new();
    array.set(0, process(0, 4, "client"));
    array.set(1, process(1, 5, "service"));
    array
}

fn client() -> ProcessId {
    ProcessId::new_external(4, 0)
}

fn service() -> ProcessId {
    ProcessId::new_external(5, 1)
}

fn value(action: IpcCommandAction) -> SyscallReturn {
    match action {
        IpcCommandAction::Return(r) => r.into_inner(),
        IpcCommandAction::Enqueue(_, _) => panic!("expected a return value"),
    }
}

#[test]
fn driver_check_and_unknown_commands() {
    let array = table();
    let ipc: IPC<3, 4> = IPC::new(3);
    assert_eq!(value(ipc.command(array.as_slice(), 0, 0, client(), &[])), SyscallReturn::Success);
    assert_eq!(
        value(ipc.command(array.as_slice(), 7, 0, client(), &[])),
        SyscallReturn::Failure(ErrorCode::NOSUPPORT)
    );
}

#[test]
fn discovery_finds_the_service_by_name() {
    let array = table();
    let mut ipc: IPC<3, 4> = IPC::new(3);
    // Without a discovery buffer the search cannot be read.
    assert_eq!(
        value(ipc.command(array.as_slice(), 1, 0, client(), b"service")),
        SyscallReturn::Failure(ErrorCode::INVAL)
    );
    let buffer = ReadOnlyAppSlice::new_external(0x2000_0100, 7, client());
    assert!(ipc.allow_readonly(array.as_slice(), client(), 0, buffer).is_ok());
    assert_eq!(
        value(ipc.command(array.as_slice(), 1, 0, client(), b"service")),
        SyscallReturn::SuccessU32(6)
    );
    assert_eq!(
        value(ipc.command(array.as_slice(), 1, 0, client(), b"nothing")),
        SyscallReturn::Failure(ErrorCode::NODEVICE)
    );
    // A process that no longer exists gets no memory.
    assert_eq!(
        value(ipc.command(array.as_slice(), 1, 0, ProcessId::new_external(9, 2), b"service")),
        SyscallReturn::Failure(ErrorCode::NOMEM)
    );
}

#[test]
fn notify_enqueues_an_ipc_task() {
    let array = table();
    let ipc: IPC<3, 4> = IPC::new(3);
    match ipc.command(array.as_slice(), 2, 6, client(), &[]) {
        IpcCommandAction::Enqueue(target, Task::IPC((from, kind))) => {
            assert_eq!(target.id(), 5);
            assert_eq!(from.id(), 4);
            assert_eq!(kind, IPCUpcallType::Service);
        }
        _ => panic!("expected a task"),
    }
    match ipc.command(array.as_slice(), 3, 5, service(), &[]) {
        IpcCommandAction::Enqueue(target, Task::IPC((from, kind))) => {
            assert_eq!(target.id(), 4);
            assert_eq!(from.id(), 5);
            assert_eq!(kind, IPCUpcallType::Client);
        }
        _ => panic!("expected a task"),
    }
    assert_eq!(
        value(ipc.command(array.as_slice(), 2, 100, client(), &[])),
        SyscallReturn::Failure(ErrorCode::INVAL)
    );
    assert_eq!(notify_return(true).into_inner(), SyscallReturn::Success);
    assert_eq!(
        notify_return(false).into_inner(),
        SyscallReturn::Failure(ErrorCode::FAIL)
    );
    assert_eq!(CommandReturn::success_u32(3).into_inner(), SyscallReturn::SuccessU32(3));
}

#[test]
fn allow_readwrite_returns_the_previous_buffer() {
    let array = table();
    let slots = array.as_slice();
    let mut ipc: IPC<3, 4> = IPC::new(3);
    let first = ReadWriteAppSlice::new_external(0x2000_0000, 16, client());
    let previous = ipc.allow_readwrite(slots, client(), 6, first).ok().unwrap();
    assert_eq!(previous.len(slots), 0);
    assert_eq!(previous.ptr(), 0);
    let second = ReadWriteAppSlice::new_external(0x2000_0400, 32, client());
    let previous = ipc.allow_readwrite(slots, client(), 6, second).ok().unwrap();
    assert_eq!(previous.ptr(), 0x2000_0000);
    assert_eq!(previous.len(slots), 16);
}

#[test]
fn allow_readwrite_errors() {
    let array = table();
    let slots = array.as_slice();
    let mut ipc: IPC<3, 4> = IPC::new(3);
    let buffer = ReadWriteAppSlice::new_external(0x2000_0000, 16, client());
    let (buffer, error) = ipc.allow_readwrite(slots, client(), 0, buffer).err().unwrap();
    assert_eq!(error, ErrorCode::NOSUPPORT);
    let (buffer, error) = ipc.allow_readwrite(slots, client(), 100, buffer).err().unwrap();
    assert_eq!(error, ErrorCode::BUSY);
    let (buffer, error) = ipc
        .allow_readwrite(slots, ProcessId::new_external(9, 2), 6, buffer)
        .err()
        .unwrap();
    assert_eq!(error, ErrorCode::INVAL);
    assert_eq!(buffer.ptr(), 0x2000_0000);
}

#[test]
fn allow_readonly_only_for_subdriver_zero() {
    let array = table();
    let slots = array.as_slice();
    let mut ipc: IPC<3, 4> = IPC::new(3);
    let buffer = ReadOnlyAppSlice::new_external(0x100, 4, client());
    let (buffer, error) = ipc.allow_readonly(slots, client(), 1, buffer).err().unwrap();
    assert_eq!(error, ErrorCode::NOSUPPORT);
    let previous = ipc.allow_readonly(slots, client(), 0, buffer).ok().unwrap();
    assert_eq!(previous.len(slots), 0);
    let again = ReadOnlyAppSlice::default();
    let previous = ipc.allow_readonly(slots, client(), 0, again).ok().unwrap();
    assert_eq!(previous.ptr(), 0x100);
    assert_eq!(previous.len(slots), 4);
}

#[test]
fn schedule_upcall_shares_the_buffer() {
    let array = table();
    let slots = array.as_slice();
    let mut ipc: IPC<3, 4> = IPC::new(3);
    // The client shares a buffer with the service (identifier 5, so 6).
    let buffer = ReadWriteAppSlice::new_external(0x2000_0040, 64, client());
    assert!(ipc.allow_readwrite(slots, client(), 6, buffer).is_ok());
    let upcall = ipc
        .schedule_upcall(slots, service(), client(), IPCUpcallType::Service)
        .ok()
        .unwrap()
        .unwrap();
    assert_eq!(
        upcall,
        IpcUpcall {
            region_start: 0x2000_0040,
            region_len: 64,
            upcall_num: 0,
            argument0: 5,
            argument1: 64,
            argument2: 0x2000_0040,
        }
    );
    let upcall = ipc
        .schedule_upcall(slots, client(), service(), IPCUpcallType::Client)
        .ok()
        .unwrap()
        .unwrap();
    assert_eq!(upcall.upcall_num, 2);
    assert_eq!(upcall.argument0, 6);
    assert_eq!(upcall.argument1, 0);
    assert_eq!(upcall.argument2, 0);
}

#[test]
fn schedule_upcall_errors() {
    let array = table();
    let slots = array.as_slice();
    let ipc: IPC<3, 4> = IPC::new(3);
    let gone = ProcessId::new_external(9, 2);
    assert_eq!(
        ipc.schedule_upcall(slots, gone, client(), IPCUpcallType::Service),
        Err(Error::NoSuchApp)
    );
    assert_eq!(
        ipc.schedule_upcall(slots, client(), gone, IPCUpcallType::Service),
        Err(Error::NoSuchApp)
    );
    assert_eq!(
        ipc.schedule_upcall(slots, client(), client(), IPCUpcallType::Service),
        Err(Error::AlreadyInUse)
    );
    assert_eq!(ipc.allocate_grant(slots, client()), Ok(()));
    assert_eq!(ipc.allocate_grant(slots, gone), Err(Error::NoSuchApp));
}
