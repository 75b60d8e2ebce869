//! The kernel's table of processes and the lookups the kernel makes in it.
//!
//! A table is a fixed number of slots, each empty or holding a loaded
//! process. A process identifier names a process that still exists when the
//! slot at its index holds a process with the same unique identifier.

use crate::process::{ProcessId, ProcessInfo};
use vstd::prelude::*;

verus! {

/// A slot of the process table: empty, or holding a process.
#[derive(Clone, Debug)]
pub struct ProcessSlot {
    pub(crate) proc: Option<ProcessInfo>,
}

impl ProcessSlot {
    /// The process in the slot, if any.
    pub closed spec fn spec_proc(self) -> Option<ProcessInfo> {
        self.proc
    }

    /// An empty slot.
    pub fn empty() -> (r: ProcessSlot)
        ensures
            r.spec_proc() is None,
    {
        ProcessSlot { proc: None }
    }

    /// Puts a process in the slot.
    pub fn set(&mut self, process: ProcessInfo)
        ensures
            final(self).spec_proc() == Some(process),
    {
        self.proc = Some(process);
    }

    /// The process in the slot, if any.
    pub fn get(&self) -> (r: Option<&ProcessInfo>)
        ensures
            r is Some <==> self.spec_proc() is Some,
            r is Some ==> *r->0 == self.spec_proc()->0,
    {
        self.proc.as_ref()
    }

    /// Whether the slot holds a process with the given unique identifier.
    pub fn contains_process_with_id(&self, identifier: usize) -> (r: bool)
        ensures
            r == slot_holds_id(*self, identifier),
    {
        match &self.proc {
            Some(process) => process.processid.id() == identifier,
            None => false,
        }
    }
}

/// Whether a slot holds a process with the given unique identifier.
pub open spec fn slot_holds_id(slot: ProcessSlot, identifier: usize) -> bool {
    match slot.spec_proc() {
        Some(p) => p.processid.spec_id() == identifier,
        None => false,
    }
}

/// The process a process identifier names in a table: the one in the slot at
/// its index, if that slot holds a process with the same unique identifier.
pub open spec fn process_at(processes: Seq<ProcessSlot>, processid: ProcessId) -> Option<
    ProcessInfo,
> {
    let i = processid.spec_index() as int;
    if 0 <= i < processes.len() && slot_holds_id(processes[i], processid.spec_id()) {
        processes[i].spec_proc()
    } else {
        None
    }
}

/// The identifier of the first process in the table with the given unique
/// identifier, looking from slot `from` on.
pub open spec fn first_with_id_from(processes: Seq<ProcessSlot>, identifier: usize, from: int) -> Option<
    ProcessId,
>
    decreases processes.len() - from,
{
    if from < 0 || from >= processes.len() {
        None
    } else if slot_holds_id(processes[from], identifier) {
        Some(processes[from].spec_proc()->0.processid)
    } else {
        first_with_id_from(processes, identifier, from + 1)
    }
}

/// The identifier of the first process in the table with the given unique
/// identifier.
pub open spec fn first_with_id(processes: Seq<ProcessSlot>, identifier: usize) -> Option<ProcessId> {
    first_with_id_from(processes, identifier, 0)
}

/// Looks up the process a process identifier names, if it still exists.
pub fn process_at_exec(processes: &[ProcessSlot], processid: ProcessId) -> (r: Option<&ProcessInfo>)
    ensures
        r is Some <==> process_at(processes@, processid) is Some,
        r is Some ==> *r->0 == process_at(processes@, processid)->0,
{
    let i: usize = processid.raw_index();
    if i < processes.len() && processes[i].contains_process_with_id(processid.id()) {
        processes[i].get()
    } else {
        None
    }
}

/// Looks up the first process with the given unique identifier and returns
/// its process identifier.
pub fn lookup_app_by_identifier(processes: &[ProcessSlot], identifier: usize) -> (r: Option<ProcessId>)
    ensures
        r == first_with_id(processes@, identifier),
{
    let mut i: usize = processes.len();
    let mut found: Option<ProcessId> = None;
    while i > 0
        invariant
            i <= processes.len(),
            found == first_with_id_from(processes@, identifier, i as int),
        decreases i,
    {
        i = i - 1;
        if processes[i].contains_process_with_id(identifier) {
            let p: &ProcessInfo = processes[i].get().unwrap();
            found = Some(p.processid);
        }
    }
    found
}

/// Storage for a fixed number of process slots.
pub struct ProcessArray<const NUM_PROCS: usize> {
    processes: Vec<ProcessSlot>,
}

impl<const NUM_PROCS: usize> ProcessArray<NUM_PROCS> {
    /// The slots of the table.
    pub closed spec fn spec_slots(self) -> Seq<ProcessSlot> {
        self.processes@
    }

    /// A table of empty slots.
    pub fn new() -> (r: Self)
        ensures
            r.spec_slots().len() == NUM_PROCS,
            forall|i: int| 0 <= i < NUM_PROCS ==> (#[trigger] r.spec_slots()[i]).spec_proc() is None,
    {
        let mut processes: Vec<ProcessSlot> = Vec::new();
        while processes.len() < NUM_PROCS
            invariant
                processes.len() <= NUM_PROCS,
                forall|i: int| 0 <= i < processes.len() ==> (#[trigger] processes@[i]).spec_proc() is None,
            decreases NUM_PROCS - processes.len(),
        {
            processes.push(ProcessSlot::empty());
        }
        ProcessArray { processes }
    }

    /// The slots of the table.
    pub fn as_slice(&self) -> (r: &[ProcessSlot])
        ensures
            r@ == self.spec_slots(),
    {
        self.processes.as_slice()
    }

    /// Puts a process in the slot at `index`.
    pub fn set(&mut self, index: usize, process: ProcessInfo)
        requires
            index < old(self).spec_slots().len(),
        ensures
            final(self).spec_slots().len() == old(self).spec_slots().len(),
            final(self).spec_slots()[index as int].spec_proc() == Some(process),
            forall|i: int|
                0 <= i < old(self).spec_slots().len() && i != index ==> #[trigger] final(self).spec_slots()[i]
                    == old(self).spec_slots()[i],
    {
        self.processes.set(index, ProcessSlot { proc: Some(process) });
    }
}

} // verus!
