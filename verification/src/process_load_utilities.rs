//! A system call driver with which a process loads other processes written
//! into flash while the board runs.
//!
//! For each process that uses it the driver keeps where the next binary in
//! flash starts, the slot of the process table it goes into, and where the
//! unused memory starts. Commands read and update these, find the end of
//! the binaries already in flash, and load the binary written after them.
//! Reading headers in flash, creating the process and computing a checksum
//! happen outside; the functions here decide what to do with their results.

use crate::errorcode::ErrorCode;
use crate::process::{Error, ProcessId, ProcessInfo};
use crate::process_array::{process_at, process_at_exec, ProcessSlot};
use crate::process_binary::{ProcessBinaryError, TbfHeaderLengths};
use crate::process_loading::{header_and_app_length, ProcessLoadError};
use crate::syscall::{CommandReturn, SyscallReturn};
use vstd::prelude::*;

verus! {

/// The driver number of the process loader.
pub const DRIVER_NUM: usize = 0x10001;

/// What the driver keeps for a process that uses it.
#[derive(Clone, Copy, PartialEq, Eq, Structural, Debug)]
pub struct ProcLoaderData {
    /// The slot of the process table the next loaded process goes into.
    pub index: usize,
    /// Where the next binary written into flash starts.
    pub dynamic_flash_start_addr: usize,
    /// Where the memory that no process uses starts.
    pub dynamic_unused_sram_start_addr: usize,
}

impl Default for ProcLoaderData {
    fn default() -> (r: Self)
        ensures
            r == (ProcLoaderData {
                index: 0,
                dynamic_flash_start_addr: 0,
                dynamic_unused_sram_start_addr: 0,
            }),
    {
        ProcLoaderData { index: 0, dynamic_flash_start_addr: 0, dynamic_unused_sram_start_addr: 0 }
    }
}

/// What a command asks of the one who runs the driver.
#[derive(Clone, Copy, Debug)]
pub enum LoaderCommandAction {
    /// Answer the process with this.
    Return(CommandReturn),
    /// Load the binary at the flash address kept for the process, through
    /// `load_step` and `load_done`, and answer with what `load_done` gives.
    LoadProcess,
    /// Find the end of the binaries in flash through
    /// `find_writable_flash_step`, from slot 0 at `app_start_address`, and
    /// answer success.
    FindWritableFlash { app_start_address: usize },
    /// Answer with the checksum of the binary at `flash_start`, of the
    /// length that `crc32_entry_length` reads from its header.
    Crc32 { flash_start: usize },
}

/// Whether the action is to answer `v`.
pub open spec fn loader_gives(action: LoaderCommandAction, v: SyscallReturn) -> bool {
    action matches LoaderCommandAction::Return(c) && c.spec_value() == v
}

/// What loading a binary needs outside once the header lengths are known.
#[derive(Clone, Copy, PartialEq, Eq, Structural, Debug)]
pub enum LoadPlan {
    /// The process table is full for this process: nothing is created.
    Nothing,
    /// Create a process from the binary of `flash_len` bytes at `flash_start`,
    /// with a header of `header_length` bytes in format `version`, in the
    /// `sram_len` bytes of memory from `sram_start`.
    Create {
        flash_start: usize,
        flash_len: usize,
        header_length: usize,
        version: u16,
        sram_start: usize,
        sram_len: usize,
    },
}

/// The process loader driver.
pub struct ProcessLoader {
    supported_process_num: usize,
    start_app: usize,
    end_app: usize,
    end_appmem: usize,
    dynamic_unused_ram_start_addr_init: usize,
    data: Vec<ProcLoaderData>,
}

impl ProcessLoader {
    /// The number of processes the board supports.
    pub closed spec fn spec_supported_process_num(self) -> usize {
        self.supported_process_num
    }

    /// The start of the flash for applications.
    pub closed spec fn spec_start_app(self) -> usize {
        self.start_app
    }

    /// The end of the flash for applications.
    pub closed spec fn spec_end_app(self) -> usize {
        self.end_app
    }

    /// The end of the memory for applications.
    pub closed spec fn spec_end_appmem(self) -> usize {
        self.end_appmem
    }

    /// Where the unused memory started when the board had loaded its
    /// processes.
    pub closed spec fn spec_unused_ram_init(self) -> usize {
        self.dynamic_unused_ram_start_addr_init
    }

    /// What the driver keeps for the process of each slot.
    pub closed spec fn spec_data(self) -> Seq<ProcLoaderData> {
        self.data@
    }

    /// The driver, for a process table of `num_slots` slots, with nothing
    /// kept for any process yet.
    pub fn init(
        supported_process_num: usize,
        start_app: usize,
        end_app: usize,
        end_appmem: usize,
        dynamic_unused_ram_start_addr_init: usize,
        num_slots: usize,
    ) -> (r: Self)
        ensures
            r.spec_supported_process_num() == supported_process_num,
            r.spec_start_app() == start_app,
            r.spec_end_app() == end_app,
            r.spec_end_appmem() == end_appmem,
            r.spec_unused_ram_init() == dynamic_unused_ram_start_addr_init,
            r.spec_data().len() == num_slots,
            forall|i: int|
                0 <= i < num_slots ==> #[trigger] r.spec_data()[i] == (ProcLoaderData {
                    index: 0,
                    dynamic_flash_start_addr: 0,
                    dynamic_unused_sram_start_addr: 0,
                }),
    {
        let mut data: Vec<ProcLoaderData> = Vec::new();
        while data.len() < num_slots
            invariant
                data.len() <= num_slots,
                forall|i: int|
                    0 <= i < data@.len() ==> #[trigger] data@[i] == (ProcLoaderData {
                        index: 0,
                        dynamic_flash_start_addr: 0,
                        dynamic_unused_sram_start_addr: 0,
                    }),
            decreases num_slots - data.len(),
        {
            data.push(ProcLoaderData::default());
        }
        ProcessLoader {
            supported_process_num,
            start_app,
            end_app,
            end_appmem,
            dynamic_unused_ram_start_addr_init,
            data,
        }
    }

    /// Runs command `command_num` for process `appid`:
    ///
    /// - `0`: success.
    /// - `1`: load the binary written after the others into a process.
    /// - `2`: find where the binaries in flash end.
    /// - `3`: the flash address found by `2`, as 32 bits.
    /// - `4`: reset where the unused memory starts to where it started after
    ///   the board loaded its processes.
    /// - `5`: the checksum of the binary at the flash address found by `2`.
    /// - `6`: the number of processes the board supports.
    /// - `7`: the end of the flash for applications.
    /// - `8`: the slot the next loaded process goes into.
    /// - `9`: the start of the flash for applications.
    /// - anything else is not supported.
    ///
    /// The commands that use what is kept for `appid` fail when it no longer
    /// exists: `1`, `2` and `4` with the error code of a missing process,
    /// `3`, `5` and `8` with `FAIL`.
    pub fn command(&mut self, processes: &[ProcessSlot], command_num: usize, appid: ProcessId) -> (r:
        LoaderCommandAction)
        requires
            old(self).spec_data().len() == processes@.len(),
        ensures
            final(self).spec_supported_process_num() == old(self).spec_supported_process_num(),
            final(self).spec_start_app() == old(self).spec_start_app(),
            final(self).spec_end_app() == old(self).spec_end_app(),
            final(self).spec_end_appmem() == old(self).spec_end_appmem(),
            final(self).spec_unused_ram_init() == old(self).spec_unused_ram_init(),
            command_num == 4 && process_at(processes@, appid) is Some ==> final(self).spec_data()
                == old(self).spec_data().update(
                appid.spec_index() as int,
                ProcLoaderData {
                    dynamic_unused_sram_start_addr: old(self).spec_unused_ram_init(),
                    ..old(self).spec_data()[appid.spec_index() as int]
                },
            ),
            !(command_num == 4 && process_at(processes@, appid) is Some) ==> final(self).spec_data()
                == old(self).spec_data(),
            ({
                let exists = process_at(processes@, appid) is Some;
                let kept = old(self).spec_data()[appid.spec_index() as int];
                let missing = SyscallReturn::Failure(ErrorCode::INVAL);
                let failed = SyscallReturn::Failure(ErrorCode::FAIL);
                if command_num == 0 {
                    loader_gives(r, SyscallReturn::Success)
                } else if command_num == 1 {
                    if exists {
                        r is LoadProcess
                    } else {
                        loader_gives(r, missing)
                    }
                } else if command_num == 2 {
                    if exists {
                        r == LoaderCommandAction::FindWritableFlash {
                            app_start_address: old(self).spec_start_app(),
                        }
                    } else {
                        loader_gives(r, missing)
                    }
                } else if command_num == 3 {
                    if exists {
                        loader_gives(
                            r,
                            SyscallReturn::SuccessU32(kept.dynamic_flash_start_addr as u32),
                        )
                    } else {
                        loader_gives(r, failed)
                    }
                } else if command_num == 4 {
                    if exists {
                        loader_gives(r, SyscallReturn::Success)
                    } else {
                        loader_gives(r, missing)
                    }
                } else if command_num == 5 {
                    if exists {
                        r == LoaderCommandAction::Crc32 {
                            flash_start: kept.dynamic_flash_start_addr,
                        }
                    } else {
                        loader_gives(r, failed)
                    }
                } else if command_num == 6 {
                    loader_gives(
                        r,
                        SyscallReturn::SuccessU32(old(self).spec_supported_process_num() as u32),
                    )
                } else if command_num == 7 {
                    loader_gives(r, SyscallReturn::SuccessU32(old(self).spec_end_app() as u32))
                } else if command_num == 8 {
                    if exists {
                        loader_gives(r, SyscallReturn::SuccessU32(kept.index as u32))
                    } else {
                        loader_gives(r, failed)
                    }
                } else if command_num == 9 {
                    loader_gives(r, SyscallReturn::SuccessU32(old(self).spec_start_app() as u32))
                } else {
                    loader_gives(r, SyscallReturn::Failure(ErrorCode::NOSUPPORT))
                }
            }),
    {
        let exists: bool = process_at_exec(processes, appid).is_some();
        match command_num {
            0 => LoaderCommandAction::Return(CommandReturn::success()),
            1 => {
                if exists {
                    LoaderCommandAction::LoadProcess
                } else {
                    LoaderCommandAction::Return(
                        CommandReturn::failure(ErrorCode::from(Error::NoSuchApp)),
                    )
                }
            },
            2 => {
                if exists {
                    LoaderCommandAction::FindWritableFlash { app_start_address: self.start_app }
                } else {
                    LoaderCommandAction::Return(
                        CommandReturn::failure(ErrorCode::from(Error::NoSuchApp)),
                    )
                }
            },
            3 => {
                if exists {
                    let kept: ProcLoaderData = self.data[appid.raw_index()];
                    LoaderCommandAction::Return(
                        CommandReturn::success_u32(kept.dynamic_flash_start_addr as u32),
                    )
                } else {
                    LoaderCommandAction::Return(CommandReturn::failure(ErrorCode::FAIL))
                }
            },
            4 => {
                if exists {
                    let i: usize = appid.raw_index();
                    let mut kept: ProcLoaderData = self.data[i];
                    kept.dynamic_unused_sram_start_addr = self.dynamic_unused_ram_start_addr_init;
                    self.data.set(i, kept);
                    LoaderCommandAction::Return(CommandReturn::success())
                } else {
                    LoaderCommandAction::Return(
                        CommandReturn::failure(ErrorCode::from(Error::NoSuchApp)),
                    )
                }
            },
            5 => {
                if exists {
                    let kept: ProcLoaderData = self.data[appid.raw_index()];
                    LoaderCommandAction::Crc32 { flash_start: kept.dynamic_flash_start_addr }
                } else {
                    LoaderCommandAction::Return(CommandReturn::failure(ErrorCode::FAIL))
                }
            },
            6 => LoaderCommandAction::Return(
                CommandReturn::success_u32(self.supported_process_num as u32),
            ),
            7 => LoaderCommandAction::Return(CommandReturn::success_u32(self.end_app as u32)),
            8 => {
                if exists {
                    let kept: ProcLoaderData = self.data[appid.raw_index()];
                    LoaderCommandAction::Return(CommandReturn::success_u32(kept.index as u32))
                } else {
                    LoaderCommandAction::Return(CommandReturn::failure(ErrorCode::FAIL))
                }
            },
            9 => LoaderCommandAction::Return(CommandReturn::success_u32(self.start_app as u32)),
            _ => LoaderCommandAction::Return(CommandReturn::failure(ErrorCode::NOSUPPORT)),
        }
    }

    /// What loading the binary at the flash address kept for `appid` needs,
    /// where `lengths` is what the header parser read of the first eight
    /// bytes there: nothing when the process table is full for it; else the
    /// flash must hold the header and the binary, whose header is valid and
    /// not empty.
    pub fn load_step(&self, appid: ProcessId, lengths: TbfHeaderLengths) -> (r: Result<
        LoadPlan,
        ProcessLoadError,
    >)
        requires
            appid.spec_index() < self.spec_data().len(),
            self.spec_data()[appid.spec_index() as int].dynamic_flash_start_addr
                <= self.spec_end_app(),
            self.spec_data()[appid.spec_index() as int].dynamic_unused_sram_start_addr
                <= self.spec_end_appmem(),
        ensures
            ({
                let kept = self.spec_data()[appid.spec_index() as int];
                let flash_len = self.spec_end_app() - kept.dynamic_flash_start_addr;
                if kept.index >= self.spec_supported_process_num() {
                    r == Ok::<LoadPlan, ProcessLoadError>(LoadPlan::Nothing)
                } else if flash_len < 8 {
                    r == Err::<LoadPlan, ProcessLoadError>(ProcessLoadError::InternalError)
                } else {
                    match lengths {
                        TbfHeaderLengths::Valid { version, header_length, app_length } => {
                            if app_length > flash_len {
                                r == Err::<LoadPlan, ProcessLoadError>(
                                    ProcessLoadError::BinaryError(
                                        ProcessBinaryError::NotEnoughFlash,
                                    ),
                                )
                            } else if header_length == 0 {
                                r == Err::<LoadPlan, ProcessLoadError>(
                                    ProcessLoadError::InternalError,
                                )
                            } else {
                                r == Ok::<LoadPlan, ProcessLoadError>(
                                    LoadPlan::Create {
                                        flash_start: kept.dynamic_flash_start_addr,
                                        flash_len: app_length as usize,
                                        header_length: header_length as usize,
                                        version,
                                        sram_start: kept.dynamic_unused_sram_start_addr,
                                        sram_len: (self.spec_end_appmem()
                                            - kept.dynamic_unused_sram_start_addr) as usize,
                                    },
                                )
                            }
                        },
                        _ => r == Err::<LoadPlan, ProcessLoadError>(
                            ProcessLoadError::InternalError,
                        ),
                    }
                }
            }),
    {
        let kept: ProcLoaderData = self.data[appid.raw_index()];
        if kept.index >= self.supported_process_num {
            return Ok(LoadPlan::Nothing);
        }
        let flash_len: usize = self.end_app - kept.dynamic_flash_start_addr;
        if flash_len < 8 {
            return Err(ProcessLoadError::InternalError);
        }
        match lengths {
            TbfHeaderLengths::Valid { version, header_length, app_length } => {
                let app_len: usize = app_length as usize;
                if app_len > flash_len {
                    return Err(ProcessLoadError::BinaryError(ProcessBinaryError::NotEnoughFlash));
                }
                if header_length > 0 {
                    Ok(
                        LoadPlan::Create {
                            flash_start: kept.dynamic_flash_start_addr,
                            flash_len: app_len,
                            header_length: header_length as usize,
                            version,
                            sram_start: kept.dynamic_unused_sram_start_addr,
                            sram_len: self.end_appmem - kept.dynamic_unused_sram_start_addr,
                        },
                    )
                } else {
                    Err(ProcessLoadError::InternalError)
                }
            },
            TbfHeaderLengths::InvalidHeader { .. } => Err(ProcessLoadError::InternalError),
            TbfHeaderLengths::UnableToParse => Err(ProcessLoadError::InternalError),
        }
    }

    /// Takes the outcome of a load for `appid`: the process created, if any,
    /// or the error. A load that did not fail puts what it created (or
    /// nothing) into the slot kept for `appid`, and moves the start of the
    /// unused memory to the end of the process's memory (0 when nothing was
    /// created); a load that failed changes nothing and gives `FAIL`.
    pub fn load_done(
        &mut self,
        processes: &mut [ProcessSlot],
        appid: ProcessId,
        outcome: Result<Option<ProcessInfo>, ProcessLoadError>,
    ) -> (r: Result<(), ErrorCode>)
        requires
            appid.spec_index() < old(self).spec_data().len(),
            old(self).spec_data()[appid.spec_index() as int].index < old(processes)@.len(),
        ensures
            final(self).spec_supported_process_num() == old(self).spec_supported_process_num(),
            final(self).spec_start_app() == old(self).spec_start_app(),
            final(self).spec_end_app() == old(self).spec_end_app(),
            final(self).spec_end_appmem() == old(self).spec_end_appmem(),
            final(self).spec_unused_ram_init() == old(self).spec_unused_ram_init(),
            match outcome {
                Ok(created) => {
                    let kept = old(self).spec_data()[appid.spec_index() as int];
                    &&& r == Ok::<(), ErrorCode>(())
                    &&& final(self).spec_data() == old(self).spec_data().update(
                        appid.spec_index() as int,
                        ProcLoaderData {
                            dynamic_unused_sram_start_addr: match created {
                                Some(p) => p.addresses.sram_end,
                                None => 0usize,
                            },
                            ..kept
                        },
                    )
                    &&& final(processes)@.len() == old(processes)@.len()
                    &&& final(processes)@[kept.index as int].spec_proc() == created
                    &&& forall|j: int|
                        0 <= j < old(processes)@.len() && j != kept.index ==> #[trigger] final(processes)@[j]
                            == old(processes)@[j]
                },
                Err(_) => {
                    &&& r == Err::<(), ErrorCode>(ErrorCode::FAIL)
                    &&& final(self).spec_data() == old(self).spec_data()
                    &&& final(processes)@ == old(processes)@
                },
            },
    {
        match outcome {
            Ok(created) => {
                let i: usize = appid.raw_index();
                let mut kept: ProcLoaderData = self.data[i];
                kept.dynamic_unused_sram_start_addr = match &created {
                    Some(p) => p.addresses.sram_end,
                    None => 0,
                };
                self.data.set(i, kept);
                let slot: ProcessSlot = match created {
                    Some(process) => {
                        let mut filled: ProcessSlot = ProcessSlot::empty();
                        filled.set(process);
                        filled
                    },
                    None => ProcessSlot::empty(),
                };
                processes[kept.index] = slot;
                Ok(())
            },
            Err(_) => Err(ErrorCode::FAIL),
        }
    }

    /// One step of the search for the end of the binaries in flash, for
    /// `appid`: at `app_start_address`, with `index` binaries passed, where
    /// `lengths` is what the header parser read of the eight bytes there.
    /// The search ends when the process table is full, when fewer than eight
    /// bytes of flash are left, or when nothing reads as a header; otherwise
    /// it steps over the binary, keeps the new count and address for
    /// `appid`, and returns them.
    pub fn find_writable_flash_step(
        &mut self,
        appid: ProcessId,
        index: usize,
        app_start_address: usize,
        lengths: TbfHeaderLengths,
    ) -> (r: Option<(usize, usize)>)
        requires
            appid.spec_index() < old(self).spec_data().len(),
            app_start_address <= old(self).spec_end_app(),
            index < old(self).spec_supported_process_num() && old(self).spec_end_app()
                - app_start_address >= 8 ==> match header_and_app_length(lengths) {
                Some((_, app_length)) => app_start_address + app_length <= old(
                    self,
                ).spec_end_app(),
                None => true,
            },
        ensures
            final(self).spec_supported_process_num() == old(self).spec_supported_process_num(),
            final(self).spec_start_app() == old(self).spec_start_app(),
            final(self).spec_end_app() == old(self).spec_end_app(),
            final(self).spec_end_appmem() == old(self).spec_end_appmem(),
            final(self).spec_unused_ram_init() == old(self).spec_unused_ram_init(),
            ({
                let steps = index < old(self).spec_supported_process_num() && old(
                    self,
                ).spec_end_app() - app_start_address >= 8 && header_and_app_length(lengths) is Some;
                if steps {
                    let next_index = (index + 1) as usize;
                    let next_start = (app_start_address + match header_and_app_length(lengths) {
                        Some((_, app_length)) => app_length,
                        None => 0u32,
                    }) as usize;
                    &&& r == Some((next_index, next_start))
                    &&& final(self).spec_data() == old(self).spec_data().update(
                        appid.spec_index() as int,
                        ProcLoaderData {
                            index: next_index,
                            dynamic_flash_start_addr: next_start,
                            ..old(self).spec_data()[appid.spec_index() as int]
                        },
                    )
                } else {
                    r is None && final(self).spec_data() == old(self).spec_data()
                }
            }),
    {
        if index >= self.supported_process_num {
            return None;
        }
        if self.end_app - app_start_address < 8 {
            return None;
        }
        let entry_length: u32 = match lengths {
            TbfHeaderLengths::Valid { app_length, .. } => app_length,
            TbfHeaderLengths::InvalidHeader { app_length } => app_length,
            TbfHeaderLengths::UnableToParse => {
                return None;
            },
        };
        let next_index: usize = index + 1;
        let next_start: usize = app_start_address + entry_length as usize;
        let i: usize = appid.raw_index();
        let mut kept: ProcLoaderData = self.data[i];
        kept.index = next_index;
        kept.dynamic_flash_start_addr = next_start;
        self.data.set(i, kept);
        Some((next_index, next_start))
    }

    /// Makes room for what the driver keeps for `processid`: fails when the
    /// process no longer exists.
    pub fn allocate_grant(&self, processes: &[ProcessSlot], processid: ProcessId) -> (r: Result<
        (),
        Error,
    >)
        ensures
            r == if process_at(processes@, processid) is Some {
                Ok::<(), Error>(())
            } else {
                Err::<(), Error>(Error::NoSuchApp)
            },
    {
        match process_at_exec(processes, processid) {
            Some(_) => Ok(()),
            None => Err(Error::NoSuchApp),
        }
    }
}

/// The length of a binary as its header gives it, in the four bytes after
/// the first four, least significant first: the length of flash that the
/// checksum covers.
pub fn crc32_entry_length(header: &[u8]) -> (r: usize)
    requires
        header@.len() >= 8,
    ensures
        r == header@[4] + 0x100 * header@[5] + 0x1_0000 * header@[6] + 0x100_0000 * header@[7],
{
    let b4: usize = header[4] as usize;
    let b5: usize = header[5] as usize;
    let b6: usize = header[6] as usize;
    let b7: usize = header[7] as usize;
    b4 + 0x100 * b5 + 0x1_0000 * b6 + 0x100_0000 * b7
}

} // verus!
