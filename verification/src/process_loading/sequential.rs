//! The decisions of the sequential process loader.
//!
//! The loader walks the binaries in flash one at a time, has the
//! credentials of each checked, keeps those that pass, and then turns them
//! into processes. Reading flash, checking credentials and creating
//! processes happen outside; the functions here decide, from what came
//! back, what the loader does next.

use crate::process::{short_ids_match, ProcessInfo, ShortId};
use crate::process_array::ProcessSlot;
use crate::process_binary::{ProcessBinary, ProcessBinaryError};
use crate::process_checker::{AppIdPolicy, ProcessCheckError};
use crate::process_loading::ProcessLoadError;
use vstd::prelude::*;

verus! {

/// What the loader does with the outcome of looking for a binary in flash.
#[derive(Clone, Copy, Debug)]
pub enum DiscoveryStep {
    /// Check the credentials of the binary found.
    Check(ProcessBinary),
    /// No binary is left in flash: go on to create processes.
    LoadProcesses,
    /// Report the error and look for the next binary.
    Report(ProcessLoadError),
}

/// The step that follows looking for a binary: the end of flash, or a
/// header that is not there, ends the search; any other error is reported.
pub open spec fn discovery_step(discovered: Result<ProcessBinary, ProcessBinaryError>) -> DiscoveryStep {
    match discovered {
        Ok(pb) => DiscoveryStep::Check(pb),
        Err(e) => if e is NotEnoughFlash || e is TbfHeaderNotFound {
            DiscoveryStep::LoadProcesses
        } else {
            DiscoveryStep::Report(ProcessLoadError::BinaryError(e))
        },
    }
}

/// Decides what follows looking for a binary in flash.
pub fn load_and_check_step(discovered: Result<ProcessBinary, ProcessBinaryError>) -> (r:
    DiscoveryStep)
    ensures
        r == discovery_step(discovered),
{
    match discovered {
        Ok(pb) => DiscoveryStep::Check(pb),
        Err(ProcessBinaryError::NotEnoughFlash) => DiscoveryStep::LoadProcesses,
        Err(ProcessBinaryError::TbfHeaderNotFound) => DiscoveryStep::LoadProcesses,
        Err(e) => DiscoveryStep::Report(ProcessLoadError::BinaryError(e)),
    }
}

/// Whether `i` is the first empty slot of the process table.
pub open spec fn is_first_free_slot(procs: Seq<ProcessSlot>, i: int) -> bool {
    &&& 0 <= i < procs.len()
    &&& procs[i].spec_proc() is None
    &&& forall|j: int| 0 <= j < i ==> (#[trigger] procs[j]).spec_proc() is Some
}

/// Finds the first empty slot of the process table, if there is one.
pub fn find_open_process_slot(procs: &[ProcessSlot]) -> (r: Option<usize>)
    ensures
        match r {
            Some(i) => is_first_free_slot(procs@, i as int),
            None => forall|j: int| 0 <= j < procs@.len() ==> (#[trigger] procs@[j]).spec_proc() is Some,
        },
{
    let mut i: usize = 0;
    while i < procs.len()
        invariant
            i <= procs@.len(),
            forall|j: int| 0 <= j < i ==> (#[trigger] procs@[j]).spec_proc() is Some,
        decreases procs@.len() - i,
    {
        if procs[i].get().is_none() {
            return Some(i);
        }
        i = i + 1;
    }
    None
}

/// Whether `i` is the first empty entry of the table of checked binaries.
pub open spec fn is_first_free_binary_slot(bins: Seq<Option<ProcessBinary>>, i: int) -> bool {
    &&& 0 <= i < bins.len()
    &&& bins[i] is None
    &&& forall|j: int| 0 <= j < i ==> (#[trigger] bins[j]) is Some
}

/// Finds the first empty entry of the table of checked binaries, if any.
pub fn find_open_process_binary_slot(bins: &[Option<ProcessBinary>]) -> (r: Option<usize>)
    ensures
        match r {
            Some(i) => is_first_free_binary_slot(bins@, i as int),
            None => forall|j: int| 0 <= j < bins@.len() ==> (#[trigger] bins@[j]) is Some,
        },
{
    let mut i: usize = 0;
    while i < bins.len()
        invariant
            i <= bins@.len(),
            forall|j: int| 0 <= j < i ==> (#[trigger] bins@[j]) is Some,
        decreases bins@.len() - i,
    {
        if bins[i].is_none() {
            return Some(i);
        }
        i = i + 1;
    }
    None
}

/// Stores a binary whose check ended with `result`: a binary that passed
/// goes into the first empty entry of the table of checked binaries. Returns
/// the error to report, if any: the check's, or that the table is full.
pub fn process_checked(
    proc_binaries: &mut [Option<ProcessBinary>],
    process_binary: ProcessBinary,
    result: Result<(), ProcessCheckError>,
) -> (r: Option<ProcessLoadError>)
    ensures
        match result {
            Err(e) => r == Some(ProcessLoadError::CheckError(e)) && final(proc_binaries)@ == old(
                proc_binaries,
            )@,
            Ok(()) => if exists|i: int| is_first_free_binary_slot(old(proc_binaries)@, i) {
                &&& r is None
                &&& exists|i: int|
                    is_first_free_binary_slot(old(proc_binaries)@, i) && final(proc_binaries)@
                        == old(proc_binaries)@.update(i, Some(process_binary))
            } else {
                r == Some(ProcessLoadError::NoProcessSlot) && final(proc_binaries)@ == old(
                    proc_binaries,
                )@
            },
        },
{
    match result {
        Ok(()) => match find_open_process_binary_slot(proc_binaries) {
            Some(index) => {
                proc_binaries[index] = Some(process_binary);
                None
            },
            None => {
                proof {
                    assert forall|i: int| !is_first_free_binary_slot(old(proc_binaries)@, i) by {
                        if 0 <= i < old(proc_binaries)@.len() {
                            assert(old(proc_binaries)@[i] is Some);
                        }
                    }
                }
                Some(ProcessLoadError::NoProcessSlot)
            },
        },
        Err(e) => Some(ProcessLoadError::CheckError(e)),
    }
}

/// What the application identifier policy answers of two binaries `a` and
/// `b`: whether they have different identifiers, and the short identifier
/// it gives each.
#[derive(Clone, Copy, Debug)]
pub struct BinaryPairVerdict {
    pub different_identifier: bool,
    pub short_id_a: ShortId,
    pub short_id_b: ShortId,
}

/// What the application identifier policy answers of a binary and a loaded
/// process: whether they have different identifiers, and the short
/// identifier it gives the binary.
#[derive(Clone, Copy, Debug)]
pub struct ProcessVerdict {
    pub different_identifier: bool,
    pub short_id: ShortId,
}

/// Whether `pb2` keeps `pb1` from loading: with a policy that says they have
/// the same identifier or gives them the same short identifier, when `pb2`
/// has the higher version. Without a policy no binary blocks another.
pub open spec fn blocks_binary(
    pb1: ProcessBinary,
    pb2: ProcessBinary,
    verdict: Option<BinaryPairVerdict>,
) -> bool {
    match verdict {
        Some(v) => (!v.different_identifier || short_ids_match(v.short_id_a, v.short_id_b))
            && pb2.header.binary_version > pb1.header.binary_version,
        None => false,
    }
}

/// Whether `pb2` keeps `pb1` from loading, given what the policy answered
/// of the two (`None` without a policy).
pub fn is_blocked_from_loading_by(
    pb1: &ProcessBinary,
    pb2: &ProcessBinary,
    verdict: Option<BinaryPairVerdict>,
) -> (r: bool)
    ensures
        r == blocks_binary(*pb1, *pb2, verdict),
{
    let same_app_id: bool = match verdict {
        Some(v) => !v.different_identifier,
        None => false,
    };
    let same_short_app_id: bool = match verdict {
        Some(v) => v.short_id_a == v.short_id_b,
        None => false,
    };
    let other_newer: bool = pb2.header.binary_version > pb1.header.binary_version;
    (same_app_id || same_short_app_id) && other_newer
}

/// Whether a loaded process keeps a binary from loading: with a policy that
/// says they have the same identifier, or that gives the binary the short
/// identifier of the process. Without a policy nothing blocks.
pub open spec fn blocks_by_process(verdict: Option<ProcessVerdict>, process: ProcessInfo) -> bool {
    match verdict {
        Some(v) => !v.different_identifier || short_ids_match(v.short_id, process.short_app_id),
        None => false,
    }
}

/// Whether the loaded `process` keeps a binary from loading, given what the
/// policy answered of the two (`None` without a policy).
pub fn is_blocked_from_loading_by_process(
    verdict: Option<ProcessVerdict>,
    process: &ProcessInfo,
) -> (r: bool)
    ensures
        r == blocks_by_process(verdict, *process),
{
    let same_app_id: bool = match verdict {
        Some(v) => !v.different_identifier,
        None => false,
    };
    let same_short_app_id: bool = match verdict {
        Some(v) => v.short_id == process.short_app_id,
        None => false,
    };
    same_app_id || same_short_app_id
}

/// Whether `v` holds answers that `policy` can give of the binaries `pb1`
/// and `pb2`: whether they have different identifiers, and the short
/// identifier of each.
pub open spec fn pair_answers<P: AppIdPolicy>(
    policy: &P,
    pb1: &ProcessBinary,
    pb2: &ProcessBinary,
    v: BinaryPairVerdict,
) -> bool {
    &&& call_ensures(P::different_identifier, (policy, pb1, pb2), v.different_identifier)
    &&& call_ensures(P::to_short_id, (policy, pb1), v.short_id_a)
    &&& call_ensures(P::to_short_id, (policy, pb2), v.short_id_b)
}

/// Whether `v` holds answers that `policy` can give of the binary `pb` and
/// the loaded `process`: whether they have different identifiers, and the
/// short identifier of the binary.
pub open spec fn process_answers<P: AppIdPolicy>(
    policy: &P,
    pb: &ProcessBinary,
    process: &ProcessInfo,
    v: ProcessVerdict,
) -> bool {
    &&& call_ensures(P::different_identifier_process, (policy, pb, process), v.different_identifier)
    &&& call_ensures(P::to_short_id, (policy, pb), v.short_id)
}

/// What `policy` answers of the binaries `pb1` and `pb2`.
pub fn binary_pair_verdict<P: AppIdPolicy>(policy: &P, pb1: &ProcessBinary, pb2: &ProcessBinary) -> (r:
    BinaryPairVerdict)
    ensures
        pair_answers(policy, pb1, pb2, r),
{
    BinaryPairVerdict {
        different_identifier: policy.different_identifier(pb1, pb2),
        short_id_a: policy.to_short_id(pb1),
        short_id_b: policy.to_short_id(pb2),
    }
}

/// What `policy` answers of the binary `pb` and the loaded `process`.
pub fn process_verdict<P: AppIdPolicy>(policy: &P, pb: &ProcessBinary, process: &ProcessInfo) -> (r:
    ProcessVerdict)
    ensures
        process_answers(policy, pb, process, r),
{
    ProcessVerdict {
        different_identifier: policy.different_identifier_process(pb, process),
        short_id: policy.to_short_id(pb),
    }
}

/// Whether `pb2` keeps `pb1` from loading under `policy`, if any: never
/// without a policy; with one, as `blocks_binary` decides from what the
/// policy answers of the two, so only when `pb2` has the higher version.
pub fn is_blocked_under_policy<P: AppIdPolicy>(
    policy: Option<&P>,
    pb1: &ProcessBinary,
    pb2: &ProcessBinary,
) -> (r: bool)
    ensures
        policy is None ==> !r,
        policy matches Some(p) ==> exists|v: BinaryPairVerdict|
            #[trigger] pair_answers(p, pb1, pb2, v) && r == blocks_binary(*pb1, *pb2, Some(v)),
        r ==> pb2.header.binary_version > pb1.header.binary_version,
{
    let verdict: Option<BinaryPairVerdict> = match policy {
        Some(p) => Some(binary_pair_verdict(p, pb1, pb2)),
        None => None,
    };
    is_blocked_from_loading_by(pb1, pb2, verdict)
}

/// Whether the loaded `process` keeps `pb` from loading under `policy`, if
/// any: never without a policy; with one, as `blocks_by_process` decides
/// from what the policy answers of the two.
pub fn is_blocked_by_process_under_policy<P: AppIdPolicy>(
    policy: Option<&P>,
    pb: &ProcessBinary,
    process: &ProcessInfo,
) -> (r: bool)
    ensures
        policy is None ==> !r,
        policy matches Some(p) ==> exists|v: ProcessVerdict|
            #[trigger] process_answers(p, pb, process, v) && r == blocks_by_process(
                Some(v),
                *process,
            ),
{
    let verdict: Option<ProcessVerdict> = match policy {
        Some(p) => Some(process_verdict(p, pb, process)),
        None => None,
    };
    is_blocked_from_loading_by_process(verdict, process)
}

/// Two binaries never keep each other from loading, whatever the policy
/// answers of them: only the one with the higher version can block.
pub proof fn lemma_binaries_never_block_each_other(
    pb1: ProcessBinary,
    pb2: ProcessBinary,
    verdict_12: Option<BinaryPairVerdict>,
    verdict_21: Option<BinaryPairVerdict>,
)
    ensures
        !(blocks_binary(pb1, pb2, verdict_12) && blocks_binary(pb2, pb1, verdict_21)),
{
}

/// What the loader does with a checked binary.
#[derive(Clone, Copy, Debug, PartialEq, Eq, Structural)]
pub enum LoadDecision {
    /// Another binary or a loaded process blocks it: it is dropped.
    Blocked,
    /// It may load, but no slot of the process table is free.
    NoProcessSlot,
    /// Create its process in the slot `index` of the process table.
    Load { index: usize },
}

/// Whether any entry is `true`.
fn any_true(flags: &[bool]) -> (r: bool)
    ensures
        r == flags@.contains(true),
{
    let mut i: usize = 0;
    while i < flags.len()
        invariant
            i <= flags@.len(),
            forall|j: int| 0 <= j < i ==> !(#[trigger] flags@[j]),
        decreases flags@.len() - i,
    {
        if flags[i] {
            assert(flags@[i as int]);
            return true;
        }
        i = i + 1;
    }
    assert(!flags@.contains(true)) by {
        if flags@.contains(true) {
            let k = choose|k: int| 0 <= k < flags@.len() && flags@[k] == true;
            assert(!flags@[k]);
        }
    }
    false
}

/// Decides whether a checked binary becomes a process, given for each other
/// checked binary whether it blocks this one, and for each loaded process
/// whether it blocks it: a blocked binary is dropped; otherwise it goes into
/// the first free slot of the process table, if there is one.
pub fn decide_load(
    blocked_by_binaries: &[bool],
    blocked_by_processes: &[bool],
    procs: &[ProcessSlot],
) -> (r: LoadDecision)
    ensures
        blocked_by_binaries@.contains(true) || blocked_by_processes@.contains(true) ==> r
            == LoadDecision::Blocked,
        !(blocked_by_binaries@.contains(true) || blocked_by_processes@.contains(true)) ==> match r {
            LoadDecision::Blocked => false,
            LoadDecision::NoProcessSlot => forall|j: int|
                0 <= j < procs@.len() ==> (#[trigger] procs@[j]).spec_proc() is Some,
            LoadDecision::Load { index } => is_first_free_slot(procs@, index as int),
        },
{
    if any_true(blocked_by_binaries) || any_true(blocked_by_processes) {
        return LoadDecision::Blocked;
    }
    match find_open_process_slot(procs) {
        Some(index) => LoadDecision::Load { index },
        None => LoadDecision::NoProcessSlot,
    }
}

} // verus!
