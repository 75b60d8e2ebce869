//! Inspection of the state of the kernel: how many processes are loaded, in
//! which states, and what each of them has done.

use crate::process::{ProcessId, ProcessInfo, State};
use crate::process_array::{process_at, process_at_exec, ProcessSlot};
use vstd::prelude::*;

verus! {

/// Whether a process is active: running or yielded.
pub open spec fn is_active(p: ProcessInfo) -> bool {
    p.state == State::Running || p.state == State::Yielded
}

/// How many slots of the table hold a process that is counted: the active
/// ones if `active`, the inactive ones if `inactive`.
pub open spec fn count_processes(slots: Seq<ProcessSlot>, active: bool, inactive: bool) -> nat
    decreases slots.len(),
{
    if slots.len() == 0 {
        0
    } else {
        count_processes(slots.drop_last(), active, inactive) + match slots.last().spec_proc() {
            Some(p) => if (active && is_active(p)) || (inactive && !is_active(p)) {
                1nat
            } else {
                0nat
            },
            None => 0nat,
        }
    }
}

/// How many slots of the table hold a process.
pub open spec fn loaded_count(slots: Seq<ProcessSlot>) -> nat {
    count_processes(slots, true, true)
}

/// How many slots of the table hold an active process.
pub open spec fn active_count(slots: Seq<ProcessSlot>) -> nat {
    count_processes(slots, true, false)
}

/// How many slots of the table hold an inactive process.
pub open spec fn inactive_count(slots: Seq<ProcessSlot>) -> nat {
    count_processes(slots, false, true)
}

/// The total of the timeslice expirations of the processes in the table.
pub open spec fn total_timeslice_expirations(slots: Seq<ProcessSlot>) -> nat
    decreases slots.len(),
{
    if slots.len() == 0 {
        0
    } else {
        total_timeslice_expirations(slots.drop_last()) + match slots.last().spec_proc() {
            Some(p) => p.timeslice_expiration_count as nat,
            None => 0nat,
        }
    }
}

/// The bytes of the name reported for a process that does not exist.
pub open spec fn unknown_name() -> Seq<u8> {
    seq![117u8, 110u8, 107u8, 110u8, 111u8, 119u8, 110u8]
}

/// A value read from the process that a process identifier names, or 0 if
/// the process does not exist.
pub open spec fn read_or_zero(slots: Seq<ProcessSlot>, app: ProcessId, read: spec_fn(ProcessInfo) -> usize) -> usize {
    match process_at(slots, app) {
        Some(p) => read(p),
        None => 0usize,
    }
}

/// Inspection functions over the process table of the kernel.
pub struct KernelInfo<'a> {
    processes: &'a [ProcessSlot],
}

impl<'a> KernelInfo<'a> {
    /// The process table inspected.
    pub closed spec fn spec_processes(self) -> Seq<ProcessSlot> {
        self.processes@
    }

    /// Inspects the given process table.
    pub fn new(processes: &'a [ProcessSlot]) -> (r: KernelInfo<'a>)
        ensures
            r.spec_processes() == processes@,
    {
        KernelInfo { processes }
    }

    fn count(&self, active: bool, inactive: bool) -> (r: usize)
        requires
            active || inactive,
        ensures
            r == count_processes(self.spec_processes(), active, inactive),
    {
        let mut count: usize = 0;
        let mut i: usize = 0;
        while i < self.processes.len()
            invariant
                i <= self.processes@.len(),
                count == count_processes(self.processes@.subrange(0, i as int), active, inactive),
                count <= i,
            decreases self.processes@.len() - i,
        {
            assert(self.processes@.subrange(0, i as int) =~= self.processes@.subrange(
                0,
                i + 1,
            ).drop_last());
            match self.processes[i].get() {
                Some(process) => {
                    let is_act: bool = process.state == State::Running || process.state
                        == State::Yielded;
                    if (active && is_act) || (inactive && !is_act) {
                        count = count + 1;
                    }
                },
                None => {},
            }
            i = i + 1;
        }
        assert(self.processes@.subrange(0, i as int) =~= self.processes@);
        count
    }

    /// How many processes are loaded, whatever their state.
    pub fn number_loaded_processes(&self) -> (r: usize)
        ensures
            r == loaded_count(self.spec_processes()),
    {
        self.count(true, true)
    }

    /// How many processes are active: running or yielded.
    pub fn number_active_processes(&self) -> (r: usize)
        ensures
            r == active_count(self.spec_processes()),
            r == self.spec_processes().filter(
                |s: ProcessSlot|
                    s.spec_proc() matches Some(p) && (p.state == State::Running || p.state
                        == State::Yielded),
            ).len(),
    {
        proof {
            lemma_counts_are_filters(self.spec_processes());
        }
        self.count(true, false)
    }

    /// How many processes are inactive: in any state but running or yielded.
    pub fn number_inactive_processes(&self) -> (r: usize)
        ensures
            r == inactive_count(self.spec_processes()),
            r == self.spec_processes().filter(
                |s: ProcessSlot|
                    s.spec_proc() matches Some(p) && !(p.state == State::Running || p.state
                        == State::Yielded),
            ).len(),
    {
        proof {
            lemma_counts_are_filters(self.spec_processes());
        }
        self.count(false, true)
    }

    /// The name of the process, or `unknown` if it does not exist.
    pub fn process_name(&self, app: ProcessId) -> (r: Vec<u8>)
        ensures
            r@ == match process_at(self.spec_processes(), app) {
                Some(p) => p.name@,
                None => unknown_name(),
            },
    {
        match process_at_exec(self.processes, app) {
            Some(process) => vstd::slice::slice_to_vec(process.name.as_slice()),
            None => {
                let r: Vec<u8> = vec![117u8, 110u8, 107u8, 110u8, 111u8, 119u8, 110u8];
                assert(r@ =~= unknown_name());
                r
            },
        }
    }

    /// How many system calls the process made, or 0 if it does not exist.
    pub fn number_app_syscalls(&self, app: ProcessId) -> (r: usize)
        ensures
            r == read_or_zero(self.spec_processes(), app, |p: ProcessInfo| p.syscall_count),
    {
        match process_at_exec(self.processes, app) {
            Some(process) => process.syscall_count,
            None => 0,
        }
    }

    /// How many upcalls of the process were dropped, or 0 if it does not
    /// exist.
    pub fn number_app_dropped_callbacks(&self, app: ProcessId) -> (r: usize)
        ensures
            r == read_or_zero(self.spec_processes(), app, |p: ProcessInfo| p.dropped_upcall_count),
    {
        match process_at_exec(self.processes, app) {
            Some(process) => process.dropped_upcall_count,
            None => 0,
        }
    }

    /// How many times the process was restarted, or 0 if it does not exist.
    pub fn number_app_restarts(&self, app: ProcessId) -> (r: usize)
        ensures
            r == read_or_zero(self.spec_processes(), app, |p: ProcessInfo| p.restart_count),
    {
        match process_at_exec(self.processes, app) {
            Some(process) => process.restart_count,
            None => 0,
        }
    }

    /// How many times the timeslice of the process expired, or 0 if it does
    /// not exist.
    pub fn number_app_timeslice_expirations(&self, app: ProcessId) -> (r: usize)
        ensures
            r == read_or_zero(
                self.spec_processes(),
                app,
                |p: ProcessInfo| p.timeslice_expiration_count,
            ),
    {
        match process_at_exec(self.processes, app) {
            Some(process) => process.timeslice_expiration_count,
            None => 0,
        }
    }

    /// The total number of times the timeslices of all processes expired.
    pub fn timeslice_expirations(&self) -> (r: usize)
        requires
            total_timeslice_expirations(self.spec_processes()) <= usize::MAX,
        ensures
            r == total_timeslice_expirations(self.spec_processes()),
    {
        let mut total: usize = 0;
        let mut i: usize = 0;
        while i < self.processes.len()
            invariant
                i <= self.processes@.len(),
                total == total_timeslice_expirations(self.processes@.subrange(0, i as int)),
                total_timeslice_expirations(self.processes@) <= usize::MAX,
            decreases self.processes@.len() - i,
        {
            assert(self.processes@.subrange(0, i as int) =~= self.processes@.subrange(
                0,
                i + 1,
            ).drop_last());
            proof {
                lemma_total_prefix(self.processes@, i as int + 1);
            }
            match self.processes[i].get() {
                Some(process) => {
                    total = total + process.timeslice_expiration_count;
                },
                None => {},
            }
            i = i + 1;
        }
        assert(self.processes@.subrange(0, i as int) =~= self.processes@);
        total
    }
}

/// Every loaded process is either active or inactive: the two counts add up
/// to the number of loaded processes.
pub proof fn lemma_loaded_is_active_plus_inactive(slots: Seq<ProcessSlot>)
    ensures
        loaded_count(slots) == active_count(slots) + inactive_count(slots),
    decreases slots.len(),
{
    if slots.len() > 0 {
        lemma_loaded_is_active_plus_inactive(slots.drop_last());
    }
}

/// The total over a prefix of the table is at most the total over the table.
proof fn lemma_total_prefix(slots: Seq<ProcessSlot>, n: int)
    requires
        0 <= n <= slots.len(),
    ensures
        total_timeslice_expirations(slots.subrange(0, n)) <= total_timeslice_expirations(slots),
    decreases slots.len(),
{
    if n < slots.len() {
        assert(slots.drop_last().subrange(0, n) =~= slots.subrange(0, n));
        lemma_total_prefix(slots.drop_last(), n);
    } else {
        assert(slots.subrange(0, n) =~= slots);
    }
}

/// A process counts as active exactly when it is running or yielded: adding
/// a slot to a table adds one to the active count when the slot holds a
/// process in state `Running` or `Yielded`, and one to the inactive count
/// when it holds a process in any other state (`YieldedFor`, `Stopped`,
/// `Faulted` or `Terminated`); an empty slot adds to neither.
pub proof fn lemma_counts_of_added_slot(slots: Seq<ProcessSlot>, slot: ProcessSlot)
    ensures
        active_count(slots.push(slot)) == active_count(slots) + match slot.spec_proc() {
            Some(p) => if p.state == State::Running || p.state == State::Yielded {
                1int
            } else {
                0int
            },
            None => 0int,
        },
        inactive_count(slots.push(slot)) == inactive_count(slots) + match slot.spec_proc() {
            Some(p) => if p.state == State::Running || p.state == State::Yielded {
                0int
            } else {
                1int
            },
            None => 0int,
        },
        loaded_count(slots.push(slot)) == loaded_count(slots) + if slot.spec_proc() is Some {
            1int
        } else {
            0int
        },
{
    assert(slots.push(slot).drop_last() =~= slots);
}

/// An empty table has no process of any kind.
pub proof fn lemma_counts_of_empty_table()
    ensures
        active_count(Seq::<ProcessSlot>::empty()) == 0,
        inactive_count(Seq::<ProcessSlot>::empty()) == 0,
        loaded_count(Seq::<ProcessSlot>::empty()) == 0,
{
}

/// The active count is the number of slots that hold a process in state
/// `Running` or `Yielded`, and the inactive count the number of slots that
/// hold a process in any other state.
pub proof fn lemma_counts_are_filters(slots: Seq<ProcessSlot>)
    ensures
        active_count(slots) == slots.filter(
            |s: ProcessSlot|
                s.spec_proc() matches Some(p) && (p.state == State::Running || p.state
                    == State::Yielded),
        ).len(),
        inactive_count(slots) == slots.filter(
            |s: ProcessSlot|
                s.spec_proc() matches Some(p) && !(p.state == State::Running || p.state
                    == State::Yielded),
        ).len(),
    decreases slots.len(),
{
    reveal(Seq::filter);
    if slots.len() > 0 {
        lemma_counts_are_filters(slots.drop_last());
        lemma_counts_of_added_slot(slots.drop_last(), slots.last());
        assert(slots.drop_last().push(slots.last()) =~= slots);
    }
}

} // verus!
