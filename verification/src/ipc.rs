//! Inter-process communication: processes share memory with services and
//! notify each other.
//!
//! Each process has its own IPC state, kept at the index of the process in
//! the process table: the buffers it shared with each other process, and the
//! buffer holding the name of a service to discover. Entering the state of a
//! process fails when the process no longer exists, and when the state of
//! that process is already entered.

use crate::errorcode::ErrorCode;
use crate::mem::{live_len, reported_ptr, Read, ReadOnlyAppSlice, ReadWriteAppSlice};
use crate::process::{Error, ProcessId, ProcessInfo, Task, error_code_of};
use crate::process_array::{
    first_with_id, lookup_app_by_identifier, process_at, process_at_exec, ProcessSlot,
};
use crate::syscall::{CommandReturn, SyscallReturn};
use vstd::prelude::*;

verus! {

/// The system call driver number of inter-process communication.
pub const DRIVER_NUM: usize = 0x10000;

/// The upcall number of the service upcall of a process.
const SERVICE_UPCALL_NUM: usize = 0;

/// The upcall number of the first client upcall.
const CLIENT_UPCALL_NUM_BASE: usize = 1;

/// Which kind of upcall an inter-process communication schedules.
#[derive(Clone, Copy, PartialEq, Eq, Structural, Debug)]
pub enum IPCUpcallType {
    /// The upcall of the service that the process registered.
    Service,
    /// One of the client upcalls that the process registered.
    Client,
}

/// The IPC state of one process.
pub struct IPCData<const NUM_PROCS: usize> {
    shared_memory: Vec<ReadWriteAppSlice>,
    search_buf: ReadOnlyAppSlice,
}

impl<const NUM_PROCS: usize> IPCData<NUM_PROCS> {
    /// The buffer this process shared with each process, by index.
    pub closed spec fn spec_shared_memory(self) -> Seq<ReadWriteAppSlice> {
        self.shared_memory@
    }

    /// The buffer holding the name of the service to discover.
    pub closed spec fn spec_search_buf(self) -> ReadOnlyAppSlice {
        self.search_buf
    }

    /// The state of a process that shared nothing.
    pub fn new() -> (r: Self)
        ensures
            r.spec_shared_memory().len() == NUM_PROCS,
            forall|i: int|
                0 <= i < NUM_PROCS ==> (#[trigger] r.spec_shared_memory()[i]).spec_process_id()
                    is None,
            r.spec_search_buf().spec_process_id() is None,
    {
        let mut shared_memory: Vec<ReadWriteAppSlice> = Vec::new();
        while shared_memory.len() < NUM_PROCS
            invariant
                shared_memory.len() <= NUM_PROCS,
                forall|i: int|
                    0 <= i < shared_memory.len() ==> (#[trigger] shared_memory@[i]).spec_process_id()
                        is None,
            decreases NUM_PROCS - shared_memory.len(),
        {
            shared_memory.push(ReadWriteAppSlice::const_default());
        }
        IPCData { shared_memory, search_buf: ReadOnlyAppSlice::default() }
    }
}

/// What a process is sent when an IPC upcall is scheduled for it: the
/// memory region it is given access to, and the upcall with its arguments.
#[derive(Clone, Copy, PartialEq, Eq, Structural, Debug)]
pub struct IpcUpcall {
    /// The start of the region of shared memory to give access to.
    pub region_start: usize,
    /// The length of that region.
    pub region_len: usize,
    /// The number of the upcall to schedule.
    pub upcall_num: usize,
    /// The first argument: the identifier of the other process, plus one.
    pub argument0: usize,
    /// The second argument: the length of the shared buffer.
    pub argument1: usize,
    /// The third argument: the address of the shared buffer.
    pub argument2: usize,
}

/// What the kernel does for an IPC command.
#[derive(Clone, Copy, Debug)]
pub enum IpcCommandAction {
    /// Return this to the process.
    Return(CommandReturn),
    /// Enqueue the task for the target process; what is returned is
    /// [`notify_return`] of whether it was enqueued.
    Enqueue(ProcessId, Task),
}

/// Whether the action returns the value `v` to the process.
pub open spec fn gives(action: IpcCommandAction, v: SyscallReturn) -> bool {
    action matches IpcCommandAction::Return(c) && c.spec_value() == v
}

/// Whether a buffer can be read: it belongs to a process that still exists.
pub open spec fn buffer_live(processes: Seq<ProcessSlot>, buffer: ReadOnlyAppSlice) -> bool {
    buffer.spec_process_id() matches Some(pid) && process_at(processes, pid) is Some
}

/// The process that a notification for `target_id` goes to: the first
/// process whose identifier plus one is `target_id`, if it still exists.
pub open spec fn notify_target(processes: Seq<ProcessSlot>, target_id: usize) -> Option<ProcessId> {
    match first_with_id(processes, (target_id - 1) as usize) {
        Some(other) => if process_at(processes, other) is Some {
            Some(other)
        } else {
            None
        },
        None => None,
    }
}

/// The identifier of the first process in the table, from slot `from` on,
/// whose name is `name`.
pub open spec fn first_named_from(processes: Seq<ProcessSlot>, name: Seq<u8>, from: int) -> Option<
    ProcessId,
>
    decreases processes.len() - from,
{
    if from < 0 || from >= processes.len() {
        None
    } else if processes[from].spec_proc() is Some && processes[from].spec_proc()->0.name@
        == name {
        Some(processes[from].spec_proc()->0.processid)
    } else {
        first_named_from(processes, name, from + 1)
    }
}

/// The identifier of the first process in the table whose name is `name`.
pub open spec fn first_named(processes: Seq<ProcessSlot>, name: Seq<u8>) -> Option<ProcessId> {
    first_named_from(processes, name, 0)
}

/// Whether slot `k` of the table holds a process named `name`.
pub open spec fn slot_named(processes: Seq<ProcessSlot>, k: int, name: Seq<u8>) -> bool {
    &&& 0 <= k < processes.len()
    &&& processes[k].spec_proc() matches Some(p) && p.name@ == name
}

/// Looking from slot `from` on finds a process exactly when some slot from
/// there holds a process with the name, and finds the one of the lowest
/// such slot.
proof fn lemma_first_named_from_finds(processes: Seq<ProcessSlot>, name: Seq<u8>, from: int)
    requires
        0 <= from,
    ensures
        first_named_from(processes, name, from) is Some <==> exists|k: int|
            from <= k && #[trigger] slot_named(processes, k, name),
        first_named_from(processes, name, from) matches Some(id) ==> exists|j: int|
            from <= j && #[trigger] slot_named(processes, j, name) && processes[j].spec_proc()->0.processid
                == id && forall|k: int| from <= k < j ==> !#[trigger] slot_named(processes, k, name),
    decreases processes.len() - from,
{
    if from < processes.len() {
        lemma_first_named_from_finds(processes, name, from + 1);
        if slot_named(processes, from, name) {
        } else {
            assert forall|k: int| from <= k && #[trigger] slot_named(processes, k, name) implies from
                + 1 <= k by {
            }
        }
    }
}

/// Discovery finds any named process: the search gives a process exactly
/// when some slot of the table holds a process with the name, and then the
/// process of the lowest such slot.
pub proof fn lemma_first_named_finds(processes: Seq<ProcessSlot>, name: Seq<u8>)
    ensures
        first_named(processes, name) is Some <==> exists|k: int| #[trigger] slot_named(processes, k, name),
        first_named(processes, name) matches Some(id) ==> exists|j: int|
            #[trigger] slot_named(processes, j, name) && processes[j].spec_proc()->0.processid == id
                && forall|k: int| 0 <= k < j ==> !#[trigger] slot_named(processes, k, name),
{
    lemma_first_named_from_finds(processes, name, 0);
}

/// The upcall number for an IPC upcall from process slot `from_index`.
pub open spec fn upcall_num(cb_type: IPCUpcallType, from_index: usize) -> usize {
    match cb_type {
        IPCUpcallType::Service => 0,
        IPCUpcallType::Client => (from_index + 1) as usize,
    }
}

/// What returning from a notification gives, by whether the task was
/// enqueued.
pub fn notify_return(enqueued: bool) -> (r: CommandReturn)
    ensures
        r.spec_value() == if enqueued {
            SyscallReturn::Success
        } else {
            SyscallReturn::Failure(ErrorCode::FAIL)
        },
{
    if enqueued {
        CommandReturn::success()
    } else {
        CommandReturn::failure(ErrorCode::FAIL)
    }
}

fn names_equal(name: &Vec<u8>, search: &[u8]) -> (r: bool)
    ensures
        r == (name@ == search@),
{
    if name.len() != search.len() {
        return false;
    }
    let mut i: usize = 0;
    while i < name.len()
        invariant
            i <= name@.len(),
            name@.len() == search@.len(),
            forall|j: int| 0 <= j < i ==> name@[j] == search@[j],
        decreases name@.len() - i,
    {
        if name[i] != search[i] {
            return false;
        }
        i = i + 1;
    }
    assert(name@ =~= search@);
    true
}

fn find_named(processes: &[ProcessSlot], search: &[u8]) -> (r: Option<ProcessId>)
    ensures
        r == first_named(processes@, search@),
{
    let mut i: usize = processes.len();
    let mut found: Option<ProcessId> = None;
    while i > 0
        invariant
            i <= processes.len(),
            found == first_named_from(processes@, search@, i as int),
        decreases i,
    {
        i = i - 1;
        match processes[i].get() {
            Some(p) => {
                if names_equal(&p.name, search) {
                    found = Some(p.processid);
                }
            },
            None => {},
        }
    }
    found
}

/// The inter-process communication driver.
pub struct IPC<const NUM_PROCS: usize, const NUM_UPCALLS: usize> {
    data: Vec<IPCData<NUM_PROCS>>,
}

impl<const NUM_PROCS: usize, const NUM_UPCALLS: usize> IPC<NUM_PROCS, NUM_UPCALLS> {
    /// The IPC state of each process slot.
    pub closed spec fn spec_data(self) -> Seq<IPCData<NUM_PROCS>> {
        self.data@
    }

    /// Whether every process state has a buffer slot for each process.
    pub closed spec fn wf(self) -> bool {
        forall|i: int|
            0 <= i < self.data@.len() ==> (#[trigger] self.data@[i]).spec_shared_memory().len()
                == NUM_PROCS
    }

    /// The driver for a table of `num_slots` process slots, with nothing
    /// shared.
    pub fn new(num_slots: usize) -> (r: Self)
        ensures
            r.wf(),
            r.spec_data().len() == num_slots,
            forall|i: int, j: int|
                0 <= i < num_slots && 0 <= j < NUM_PROCS ==> (#[trigger] r.spec_data()[i].spec_shared_memory()[j]).spec_process_id() is None,
            forall|i: int|
                0 <= i < num_slots ==> (#[trigger] r.spec_data()[i]).spec_search_buf().spec_process_id() is None,
    {
        let mut data: Vec<IPCData<NUM_PROCS>> = Vec::new();
        while data.len() < num_slots
            invariant
                data.len() <= num_slots,
                forall|i: int|
                    0 <= i < data@.len() ==> (#[trigger] data@[i]).spec_shared_memory().len()
                        == NUM_PROCS,
                forall|i: int, j: int|
                    0 <= i < data@.len() && 0 <= j < NUM_PROCS ==> (#[trigger] data@[i].spec_shared_memory()[j]).spec_process_id() is None,
                forall|i: int|
                    0 <= i < data@.len() ==> (#[trigger] data@[i]).spec_search_buf().spec_process_id() is None,
            decreases num_slots - data.len(),
        {
            data.push(IPCData::new());
        }
        IPC { data }
    }

    /// Schedules an IPC upcall for `schedule_on`, from `called_from`.
    ///
    /// Fails when either process no longer exists, or when both are the same
    /// process. When `schedule_on` has no buffer slot in the state of
    /// `called_from`, nothing is scheduled. Otherwise the upcall is the
    /// service upcall, or the client upcall of the index of `called_from`,
    /// with the identifier of `called_from` plus one and the buffer that
    /// `called_from` shared with `schedule_on`.
    pub fn schedule_upcall(
        &self,
        processes: &[ProcessSlot],
        schedule_on: ProcessId,
        called_from: ProcessId,
        cb_type: IPCUpcallType,
    ) -> (r: Result<Option<IpcUpcall>, Error>)
        requires
            self.wf(),
            self.spec_data().len() == processes@.len(),
            called_from.spec_id() < usize::MAX,
            cb_type == IPCUpcallType::Client && process_at(processes@, schedule_on) is Some
                ==> process_at(processes@, called_from) is Some,
        ensures
            process_at(processes@, schedule_on) is None ==> r == Err::<Option<IpcUpcall>, Error>(
                Error::NoSuchApp,
            ),
            process_at(processes@, schedule_on) is Some && process_at(processes@, called_from)
                is None ==> r == Err::<Option<IpcUpcall>, Error>(Error::NoSuchApp),
            process_at(processes@, schedule_on) is Some && process_at(processes@, called_from)
                is Some && schedule_on.spec_index() == called_from.spec_index() ==> r == Err::<
                Option<IpcUpcall>,
                Error,
            >(Error::AlreadyInUse),
            process_at(processes@, schedule_on) is Some && process_at(processes@, called_from)
                is Some && schedule_on.spec_index() != called_from.spec_index() ==> {
                let i = schedule_on.spec_index();
                let shared = self.spec_data()[called_from.spec_index() as int].spec_shared_memory();
                if i >= NUM_PROCS {
                    r == Ok::<Option<IpcUpcall>, Error>(None)
                } else {
                    let slice = shared[i as int];
                    let len = live_len(processes@, slice.spec_process_id(), slice.spec_len());
                    let ptr = reported_ptr(slice.spec_ptr(), slice.spec_len());
                    r == Ok::<Option<IpcUpcall>, Error>(
                        Some(
                            IpcUpcall {
                                region_start: ptr,
                                region_len: len,
                                upcall_num: upcall_num(cb_type, called_from.spec_index()),
                                argument0: (called_from.spec_id() + 1) as usize,
                                argument1: len,
                                argument2: ptr,
                            },
                        ),
                    )
                }
            },
    {
        if process_at_exec(processes, schedule_on).is_none() {
            return Err(Error::NoSuchApp);
        }
        let num_slots: usize = processes.len();
        let to_schedule: usize = match cb_type {
            IPCUpcallType::Service => SERVICE_UPCALL_NUM,
            IPCUpcallType::Client => match called_from.index(processes) {
                Some(i) => {
                    assert(i < num_slots);
                    i + CLIENT_UPCALL_NUM_BASE
                },
                None => {
                    assert(false);
                    0
                },
            },
        };
        if process_at_exec(processes, called_from).is_none() {
            return Err(Error::NoSuchApp);
        }
        if schedule_on.raw_index() == called_from.raw_index() {
            return Err(Error::AlreadyInUse);
        }
        let called_from_data: &IPCData<NUM_PROCS> = &self.data[called_from.raw_index()];
        let i: usize = schedule_on.raw_index();
        if i >= called_from_data.shared_memory.len() {
            return Ok(None);
        }
        let slice: &ReadWriteAppSlice = &called_from_data.shared_memory[i];
        let len: usize = slice.len(processes);
        let ptr: usize = slice.ptr();
        Ok(
            Some(
                IpcUpcall {
                    region_start: ptr,
                    region_len: len,
                    upcall_num: to_schedule,
                    argument0: called_from.id() + 1,
                    argument1: len,
                    argument2: ptr,
                },
            ),
        )
    }

    /// Handles an IPC command from process `appid`. `search` is the content
    /// of the discovery buffer of `appid`.
    ///
    /// - `0`: driver check, always succeeds.
    /// - `1`: discovery: the identifier plus one of the first process named
    ///   as the content of the discovery buffer; fails with `NODEVICE` if
    ///   there is none, with `INVAL` if the discovery buffer cannot be read,
    ///   with `NOMEM` if `appid` no longer exists.
    /// - `2`, `3`: notify the service, or the client, whose identifier plus
    ///   one is `target_id`: enqueue an IPC task from `appid` for it, or fail
    ///   with `INVAL` if it does not exist.
    /// - anything else is not supported.
    pub fn command(
        &self,
        processes: &[ProcessSlot],
        command_number: usize,
        target_id: usize,
        appid: ProcessId,
        search: &[u8],
    ) -> (r: IpcCommandAction)
        requires
            self.spec_data().len() == processes@.len(),
            command_number == 2 || command_number == 3 ==> target_id >= 1,
            command_number == 1 ==> match first_named(processes@, search@) {
                Some(p) => (p.spec_id() as u32) < u32::MAX,
                None => true,
            },
        ensures
            command_number == 0 ==> gives(r, SyscallReturn::Success),
            command_number == 1 ==> if process_at(processes@, appid) is None {
                gives(r, SyscallReturn::Failure(ErrorCode::NOMEM))
            } else if !buffer_live(
                processes@,
                self.spec_data()[appid.spec_index() as int].spec_search_buf(),
            ) {
                gives(r, SyscallReturn::Failure(ErrorCode::INVAL))
            } else {
                match first_named(processes@, search@) {
                    Some(p) => gives(r, SyscallReturn::SuccessU32((p.spec_id() as u32 + 1) as u32)),
                    None => gives(r, SyscallReturn::Failure(ErrorCode::NODEVICE)),
                }
            },
            command_number == 2 || command_number == 3 ==> match notify_target(
                processes@,
                target_id,
            ) {
                Some(other) => r == IpcCommandAction::Enqueue(
                    other,
                    Task::IPC(
                        (
                            appid,
                            if command_number == 2 {
                                IPCUpcallType::Service
                            } else {
                                IPCUpcallType::Client
                            },
                        ),
                    ),
                ),
                None => gives(r, SyscallReturn::Failure(ErrorCode::INVAL)),
            },
            command_number > 3 ==> gives(r, SyscallReturn::Failure(ErrorCode::NOSUPPORT)),
    {
        match command_number {
            0 => IpcCommandAction::Return(CommandReturn::success()),
            1 => {
                if process_at_exec(processes, appid).is_none() {
                    return IpcCommandAction::Return(CommandReturn::failure(ErrorCode::NOMEM));
                }
                let data: &IPCData<NUM_PROCS> = &self.data[appid.raw_index()];
                let live: bool = match data.search_buf.process_id() {
                    Some(pid) => process_at_exec(processes, pid).is_some(),
                    None => false,
                };
                if !live {
                    return IpcCommandAction::Return(CommandReturn::failure(ErrorCode::INVAL));
                }
                match find_named(processes, search) {
                    Some(p) => IpcCommandAction::Return(
                        CommandReturn::success_u32(p.id() as u32 + 1),
                    ),
                    None => IpcCommandAction::Return(CommandReturn::failure(ErrorCode::NODEVICE)),
                }
            },
            2 | 3 => {
                let cb_type: IPCUpcallType = if command_number == 2 {
                    IPCUpcallType::Service
                } else {
                    IPCUpcallType::Client
                };
                let app_identifier: usize = target_id - 1;
                match lookup_app_by_identifier(processes, app_identifier) {
                    Some(otherapp) => {
                        if process_at_exec(processes, otherapp).is_some() {
                            IpcCommandAction::Enqueue(otherapp, Task::IPC((appid, cb_type)))
                        } else {
                            IpcCommandAction::Return(CommandReturn::failure(ErrorCode::INVAL))
                        }
                    },
                    None => IpcCommandAction::Return(CommandReturn::failure(ErrorCode::INVAL)),
                }
            },
            _ => IpcCommandAction::Return(CommandReturn::failure(ErrorCode::NOSUPPORT)),
        }
    }

    /// Stores the buffer that process `appid` shares for discovery, when
    /// `subdriver` is 0, and gives back the buffer it shared before. Fails
    /// with `NOSUPPORT` for any other subdriver and with `INVAL` if `appid`
    /// no longer exists, giving back `buffer`.
    pub fn allow_readonly(
        &mut self,
        processes: &[ProcessSlot],
        appid: ProcessId,
        subdriver: usize,
        buffer: ReadOnlyAppSlice,
    ) -> (r: Result<ReadOnlyAppSlice, (ReadOnlyAppSlice, ErrorCode)>)
        requires
            old(self).wf(),
            old(self).spec_data().len() == processes@.len(),
        ensures
            final(self).wf(),
            final(self).spec_data().len() == old(self).spec_data().len(),
            subdriver != 0 ==> r == Err::<ReadOnlyAppSlice, (ReadOnlyAppSlice, ErrorCode)>(
                (buffer, ErrorCode::NOSUPPORT),
            ) && final(self).spec_data() == old(self).spec_data(),
            subdriver == 0 && process_at(processes@, appid) is None ==> r == Err::<
                ReadOnlyAppSlice,
                (ReadOnlyAppSlice, ErrorCode),
            >((buffer, error_code_of(Error::NoSuchApp))) && final(self).spec_data() == old(self).spec_data(),
            subdriver == 0 && process_at(processes@, appid) is Some ==> {
                let a = appid.spec_index() as int;
                &&& r == Ok::<ReadOnlyAppSlice, (ReadOnlyAppSlice, ErrorCode)>(
                    old(self).spec_data()[a].spec_search_buf(),
                )
                &&& final(self).spec_data()[a].spec_search_buf() == buffer
                &&& final(self).spec_data()[a].spec_shared_memory() == old(self).spec_data()[a].spec_shared_memory()
                &&& forall|j: int|
                    0 <= j < old(self).spec_data().len() && j != a ==> #[trigger] final(self).spec_data()[j] == old(self).spec_data()[j]
            },
    {
        if subdriver != 0 {
            return Err((buffer, ErrorCode::NOSUPPORT));
        }
        if process_at_exec(processes, appid).is_none() {
            return Err((buffer, ErrorCode::from(Error::NoSuchApp)));
        }
        let a: usize = appid.raw_index();
        let mut buffer = buffer;
        std::mem::swap(&mut self.data[a].search_buf, &mut buffer);
        Ok(buffer)
    }

    /// Stores the buffer that process `appid` shares with the process whose
    /// identifier plus one is `target_id`, and gives back the buffer it
    /// shared with it before. Fails, giving back `buffer`, with `NOSUPPORT`
    /// if `target_id` is 0, with `INVAL` if `appid` no longer exists, with
    /// `BUSY` if there is no such target, and with `INVAL` if the target has
    /// no buffer slot.
    pub fn allow_readwrite(
        &mut self,
        processes: &[ProcessSlot],
        appid: ProcessId,
        target_id: usize,
        buffer: ReadWriteAppSlice,
    ) -> (r: Result<ReadWriteAppSlice, (ReadWriteAppSlice, ErrorCode)>)
        requires
            old(self).wf(),
            old(self).spec_data().len() == processes@.len(),
        ensures
            final(self).wf(),
            final(self).spec_data().len() == old(self).spec_data().len(),
            r is Err ==> final(self).spec_data() == old(self).spec_data(),
            target_id == 0 ==> r == Err::<ReadWriteAppSlice, (ReadWriteAppSlice, ErrorCode)>(
                (buffer, ErrorCode::NOSUPPORT),
            ),
            target_id != 0 && process_at(processes@, appid) is None ==> r == Err::<
                ReadWriteAppSlice,
                (ReadWriteAppSlice, ErrorCode),
            >((buffer, error_code_of(Error::NoSuchApp))),
            target_id != 0 && process_at(processes@, appid) is Some ==> match first_with_id(
                processes@,
                (target_id - 1) as usize,
            ) {
                None => r == Err::<ReadWriteAppSlice, (ReadWriteAppSlice, ErrorCode)>(
                    (buffer, ErrorCode::BUSY),
                ),
                Some(other) => if process_at(processes@, other) is None || other.spec_index()
                    >= NUM_PROCS {
                    r == Err::<ReadWriteAppSlice, (ReadWriteAppSlice, ErrorCode)>(
                        (buffer, ErrorCode::INVAL),
                    )
                } else {
                    let a = appid.spec_index() as int;
                    let i = other.spec_index() as int;
                    &&& r == Ok::<ReadWriteAppSlice, (ReadWriteAppSlice, ErrorCode)>(
                        old(self).spec_data()[a].spec_shared_memory()[i],
                    )
                    &&& final(self).spec_data()[a].spec_shared_memory() == old(self).spec_data()[a].spec_shared_memory().update(i, buffer)
                    &&& final(self).spec_data()[a].spec_search_buf() == old(self).spec_data()[a].spec_search_buf()
                    &&& forall|j: int|
                        0 <= j < old(self).spec_data().len() && j != a ==> #[trigger] final(self).spec_data()[j] == old(self).spec_data()[j]
                },
            },
    {
        if target_id == 0 {
            return Err((buffer, ErrorCode::NOSUPPORT));
        }
        if process_at_exec(processes, appid).is_none() {
            return Err((buffer, ErrorCode::from(Error::NoSuchApp)));
        }
        let app_identifier: usize = target_id - 1;
        match lookup_app_by_identifier(processes, app_identifier) {
            Some(oa) => match oa.index(processes) {
                Some(i) => {
                    let a: usize = appid.raw_index();
                    if i < self.data[a].shared_memory.len() {
                        let mut buffer = buffer;
                        std::mem::swap(&mut self.data[a].shared_memory[i], &mut buffer);
                        Ok(buffer)
                    } else {
                        Err((buffer, ErrorCode::INVAL))
                    }
                },
                None => Err((buffer, ErrorCode::INVAL)),
            },
            None => Err((buffer, ErrorCode::BUSY)),
        }
    }

    /// Allocates the IPC state of a process: succeeds if the process still
    /// exists.
    pub fn allocate_grant(&self, processes: &[ProcessSlot], processid: ProcessId) -> (r: Result<
        (),
        Error,
    >)
        ensures
            r == if process_at(processes@, processid) is Some {
                Ok::<(), Error>(())
            } else {
                Err::<(), Error>(Error::NoSuchApp)
            },
    {
        match process_at_exec(processes, processid) {
            Some(_) => Ok(()),
            None => Err(Error::NoSuchApp),
        }
    }
}


/// Sharing a buffer stores it: after the buffers a process shared are those
/// before with `buffer` at index `i`, the buffer at `i` is `buffer`, and it
/// is what the next share at that index gives back.
pub proof fn lemma_shared_buffer_read_back(
    before: Seq<ReadWriteAppSlice>,
    after: Seq<ReadWriteAppSlice>,
    i: int,
    buffer: ReadWriteAppSlice,
)
    requires
        0 <= i < before.len(),
        after == before.update(i, buffer),
    ensures
        after[i] == buffer,
        forall|j: int| 0 <= j < before.len() && j != i ==> #[trigger] after[j] == before[j],
{
}

} // verus!
