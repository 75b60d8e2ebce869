//! Placement of new process binaries in flash.
//!
//! A new binary goes into the first gap between existing binaries that
//! holds it at an address aligned to its size, or after the last binary.
//! Padding is then needed between the new binary and its neighbours when
//! they are not adjacent.

pub mod sequential;

use crate::process_binary::{
    binary_outcome, ProcessBinary, ProcessBinaryError, TbfHeaderInfo, TbfHeaderLengths,
};
use crate::process::ProcessInfo;
use crate::process_array::ProcessSlot;
use crate::process_checker::ProcessCheckError;
use vstd::prelude::*;

verus! {

/// Why a process could not be loaded.
#[derive(Clone, Copy, Debug)]
pub enum ProcessLoadError {
    /// Not enough memory is left for what the process asks for.
    NotEnoughMemory,
    /// The memory protection unit does not support the length of the
    /// process in flash.
    MpuInvalidFlashLength,
    /// The memory protection unit could not be configured for the process.
    MpuConfigurationError,
    /// The process asked for its memory at a fixed address that it did not
    /// get.
    MemoryAddressMismatch { actual_address: u32, expected_address: u32 },
    /// No slot of the process table is free.
    NoProcessSlot,
    /// The binary of the process could not be used.
    BinaryError(ProcessBinaryError),
    /// Checking the credentials of the process failed.
    CheckError(ProcessCheckError),
    /// An error in the kernel.
    InternalError,
}

/// The header length and binary length that the first eight bytes give, or
/// `None` when they mark the end of the binaries.
pub open spec fn header_and_app_length(lengths: TbfHeaderLengths) -> Option<(usize, u32)> {
    match lengths {
        TbfHeaderLengths::Valid { header_length, app_length, .. } => Some(
            (header_length as usize, app_length),
        ),
        TbfHeaderLengths::InvalidHeader { app_length } => Some((0usize, app_length)),
        TbfHeaderLengths::UnableToParse => None,
    }
}

/// What looking for a binary at the start of `flash_len` bytes of flash
/// gives: the number of bytes to step over to reach the next binary, with
/// the binary found or the reason it cannot be loaded.
pub open spec fn discovery_outcome(
    flash_start: usize,
    flash_len: usize,
    lengths: TbfHeaderLengths,
    header: Option<TbfHeaderInfo>,
) -> Result<(usize, ProcessBinary), (usize, ProcessBinaryError)> {
    if flash_len < 8 {
        Err((0usize, ProcessBinaryError::NotEnoughFlash))
    } else {
        match header_and_app_length(lengths) {
            None => Err((0usize, ProcessBinaryError::TbfHeaderNotFound)),
            Some((header_length, app_length)) => if app_length > flash_len {
                Err((0usize, ProcessBinaryError::NotEnoughFlash))
            } else {
                match binary_outcome(flash_start, app_length as usize, header_length, header, true) {
                    Ok(pb) => Ok((app_length as usize, pb)),
                    Err(e) => Err((app_length as usize, e)),
                }
            },
        }
    }
}

/// Looks for a binary at the start of `flash_len` bytes of flash from
/// `flash_start`. `lengths` is what the header parser read of the first
/// eight bytes, and `header` what it parsed of the header whose length they
/// give. Returns the number of bytes to step over to reach the next binary,
/// with the binary or the reason it cannot be loaded; a binary must give a
/// kernel version.
pub fn discover_process_binary(
    flash_start: usize,
    flash_len: usize,
    lengths: TbfHeaderLengths,
    header: Option<TbfHeaderInfo>,
) -> (r: Result<(usize, ProcessBinary), (usize, ProcessBinaryError)>)
    requires
        header is Some && header->0.fixed_address_flash is Some ==> (flash_start as u32)
            + header->0.protected_size <= u32::MAX,
    ensures
        r == discovery_outcome(flash_start, flash_len, lengths, header),
{
    if flash_len < 8 {
        return Err((0, ProcessBinaryError::NotEnoughFlash));
    }
    let (header_length, app_length): (usize, u32) = match lengths {
        TbfHeaderLengths::Valid { version: _, header_length, app_length } => (
            header_length as usize,
            app_length,
        ),
        TbfHeaderLengths::InvalidHeader { app_length } => (0, app_length),
        TbfHeaderLengths::UnableToParse => {
            return Err((0, ProcessBinaryError::TbfHeaderNotFound));
        },
    };
    let app_len: usize = app_length as usize;
    if app_len > flash_len {
        return Err((0, ProcessBinaryError::NotEnoughFlash));
    }
    match ProcessBinary::create(flash_start, app_len, header_length, header, true) {
        Ok(pb) => Ok((app_len, pb)),
        Err(e) => Err((app_len, e)),
    }
}

/// The padding that a new binary needs around it.
#[derive(Clone, Copy, PartialEq, Eq, Structural, Debug)]
pub enum PaddingRequirement {
    /// No padding.
    NONE,
    /// Padding between the previous binary and the new one.
    PrePad,
    /// Padding between the new binary and the next one.
    PostPad,
    /// Padding on both sides.
    PreAndPostPad,
}

impl Default for PaddingRequirement {
    fn default() -> (r: Self)
        ensures
            r == PaddingRequirement::NONE,
    {
        PaddingRequirement::NONE
    }
}

/// `address` rounded up to a multiple of `align`.
pub open spec fn aligned_up(address: int, align: int) -> int {
    if address % align == 0 {
        address
    } else {
        address + (align - address % align)
    }
}

/// The non-zero entries of `s`, in order.
pub open spec fn nonzero(s: Seq<usize>) -> Seq<usize>
    decreases s.len(),
{
    if s.len() == 0 {
        Seq::empty()
    } else if s.last() != 0 {
        nonzero(s.drop_last()).push(s.last())
    } else {
        nonzero(s.drop_last())
    }
}

proof fn lemma_nonzero_len(s: Seq<usize>)
    ensures
        nonzero(s).len() <= s.len(),
        forall|j: int| 0 <= j < nonzero(s).len() ==> #[trigger] nonzero(s)[j] != 0,
    decreases s.len(),
{
    if s.len() > 0 {
        lemma_nonzero_len(s.drop_last());
    }
}

/// The smallest address, at least `address`, that is a multiple of
/// `app_length`: where a binary of that size can start under Cortex-M
/// alignment rules.
pub fn find_next_cortex_m_aligned_address(address: usize, app_length: usize) -> (r: usize)
    requires
        app_length > 0,
        address + app_length <= usize::MAX,
    ensures
        r == aligned_up(address as int, app_length as int),
        r % app_length == 0,
        address <= r < address + app_length,
{
    let remaining: usize = address % app_length;
    if remaining == 0 {
        address
    } else {
        let r: usize = address + (app_length - remaining);
        assert(r % app_length == 0) by (nonlinear_arith)
            requires
                remaining == address % app_length,
                r == address + (app_length - remaining),
                app_length > 0,
        ;
        r
    }
}

/// Moves the non-zero addresses to the front, in order; returns how many
/// there are. The entries from there on are left as they were.
pub fn compact_nonzero(addresses: &mut [usize]) -> (count: usize)
    ensures
        final(addresses)@.len() == old(addresses)@.len(),
        count == nonzero(old(addresses)@).len(),
        final(addresses)@.subrange(0, count as int) == nonzero(old(addresses)@),
        forall|j: int|
            count <= j < old(addresses)@.len() ==> #[trigger] final(addresses)@[j] == old(
                addresses,
            )@[j],
{
    let ghost before: Seq<usize> = addresses@;
    let mut count: usize = 0;
    let mut i: usize = 0;
    while i < addresses.len()
        invariant
            i <= before.len(),
            count <= i,
            addresses@.len() == before.len(),
            addresses@.subrange(0, count as int) == nonzero(before.subrange(0, i as int)),
            forall|j: int| count <= j < before.len() ==> #[trigger] addresses@[j] == before[j],
        decreases before.len() - i,
    {
        assert(before.subrange(0, i as int) =~= before.subrange(0, i + 1).drop_last());
        let value: usize = addresses[i];
        if value != 0 {
            addresses[count] = value;
            assert(addresses@.subrange(0, count + 1) =~= addresses@.subrange(0, count as int).push(
                value,
            ));
            count = count + 1;
        }
        i = i + 1;
    }
    assert(before.subrange(0, i as int) =~= before);
    count
}

/// The address of the first gap, from the gap after binary `i` on, that
/// holds a binary of `app_size` bytes at an aligned address with room to
/// spare: a gap runs from the end of a binary to the start of the next.
pub open spec fn gap_address_from(
    starts: Seq<usize>,
    ends: Seq<usize>,
    start_count: int,
    app_size: int,
    i: int,
) -> Option<int>
    decreases start_count - 1 - i,
{
    if i < 0 || i >= start_count - 1 {
        None
    } else {
        let gap_start = ends[i] as int;
        let gap_end = starts[i + 1] as int;
        if gap_end != 0 && gap_end > gap_start && aligned_up(gap_start, app_size) + app_size
            < gap_end {
            Some(aligned_up(gap_start, app_size))
        } else {
            gap_address_from(starts, ends, start_count, app_size, i + 1)
        }
    }
}

/// Where a new binary of `app_size` bytes goes, given the start and end
/// addresses of the binaries, non-zero ones first: after the only binary,
/// else in the first gap that holds it, else after the last binary.
pub open spec fn new_binary_address(
    starts: Seq<usize>,
    ends: Seq<usize>,
    start_count: int,
    end_count: int,
    app_size: int,
) -> int {
    if start_count == 1 {
        aligned_up(ends[0] as int, app_size)
    } else {
        match gap_address_from(starts, ends, start_count, app_size, 0) {
            Some(address) => address,
            None => aligned_up(ends[end_count - 1] as int, app_size),
        }
    }
}

/// Computes the address for a new binary of `app_size` bytes from the start
/// and end addresses of the binaries in flash, where 0 marks no binary. The
/// addresses are first compacted in place, non-zero ones first.
pub fn compute_new_process_binary_address(
    app_size: usize,
    process_binaries_start_addresses: &mut [usize],
    process_binaries_end_addresses: &mut [usize],
) -> (r: usize)
    requires
        app_size > 0,
        old(process_binaries_start_addresses)@.len() == old(process_binaries_end_addresses)@.len(),
        nonzero(old(process_binaries_start_addresses)@).len() >= 1,
        nonzero(old(process_binaries_end_addresses)@).len() >= 1,
        forall|j: int|
            0 <= j < old(process_binaries_end_addresses)@.len() ==> #[trigger] old(
                process_binaries_end_addresses,
            )@[j] + 2 * app_size <= usize::MAX,
    ensures
        final(process_binaries_start_addresses)@.subrange(
            0,
            nonzero(old(process_binaries_start_addresses)@).len() as int,
        ) == nonzero(old(process_binaries_start_addresses)@),
        final(process_binaries_end_addresses)@.subrange(
            0,
            nonzero(old(process_binaries_end_addresses)@).len() as int,
        ) == nonzero(old(process_binaries_end_addresses)@),
        r == new_binary_address(
            final(process_binaries_start_addresses)@,
            final(process_binaries_end_addresses)@,
            nonzero(old(process_binaries_start_addresses)@).len() as int,
            nonzero(old(process_binaries_end_addresses)@).len() as int,
            app_size as int,
        ),
        r % app_size == 0,
{
    let ghost old_ends: Seq<usize> = process_binaries_end_addresses@;
    let start_count: usize = compact_nonzero(process_binaries_start_addresses);
    let end_count: usize = compact_nonzero(process_binaries_end_addresses);
    proof {
        lemma_nonzero_len(old(process_binaries_start_addresses)@);
        lemma_nonzero_len(old_ends);
        assert forall|j: int| 0 <= j < process_binaries_end_addresses@.len() implies #[trigger] process_binaries_end_addresses@[j]
            + 2 * app_size <= usize::MAX by {
            if j < end_count {
                assert(process_binaries_end_addresses@[j] == process_binaries_end_addresses@.subrange(
                    0,
                    end_count as int,
                )[j]);
                assert(nonzero(old_ends).contains(process_binaries_end_addresses@[j]));
                lemma_nonzero_from(old_ends, j);
            }
        }
    }
    if start_count == 1 {
        return find_next_cortex_m_aligned_address(process_binaries_end_addresses[0], app_size);
    }
    let ghost compacted_starts: Seq<usize> = process_binaries_start_addresses@;
    let ghost compacted_ends: Seq<usize> = process_binaries_end_addresses@;
    let mut i: usize = 0;
    while i < start_count - 1
        invariant
            process_binaries_start_addresses@ == compacted_starts,
            process_binaries_end_addresses@ == compacted_ends,
            compacted_starts.subrange(0, start_count as int) == nonzero(
                old(process_binaries_start_addresses)@,
            ),
            compacted_ends.subrange(0, end_count as int) == nonzero(
                old(process_binaries_end_addresses)@,
            ),
            start_count == nonzero(old(process_binaries_start_addresses)@).len(),
            end_count == nonzero(old(process_binaries_end_addresses)@).len(),
            start_count >= 1,
            start_count <= process_binaries_start_addresses@.len(),
            process_binaries_start_addresses@.len() == process_binaries_end_addresses@.len(),
            i <= start_count - 1,
            app_size > 0,
            forall|j: int|
                0 <= j < process_binaries_end_addresses@.len()
                    ==> #[trigger] process_binaries_end_addresses@[j] + 2 * app_size <= usize::MAX,
            gap_address_from(
                process_binaries_start_addresses@,
                process_binaries_end_addresses@,
                start_count as int,
                app_size as int,
                0,
            ) == gap_address_from(
                process_binaries_start_addresses@,
                process_binaries_end_addresses@,
                start_count as int,
                app_size as int,
                i as int,
            ),
        decreases start_count - 1 - i,
    {
        let gap_start: usize = process_binaries_end_addresses[i];
        let gap_end: usize = process_binaries_start_addresses[i + 1];
        if gap_end != 0 && gap_end > gap_start {
            let potential_address: usize = find_next_cortex_m_aligned_address(gap_start, app_size);
            if potential_address + app_size < gap_end {
                return potential_address;
            }
        }
        i = i + 1;
    }
    let last_app_end_address: usize = process_binaries_end_addresses[end_count - 1];
    find_next_cortex_m_aligned_address(last_app_end_address, app_size)
}

/// Every entry of `nonzero(s)` is an entry of `s`.
proof fn lemma_nonzero_from(s: Seq<usize>, j: int)
    requires
        0 <= j < nonzero(s).len(),
    ensures
        exists|k: int| 0 <= k < s.len() && s[k] == #[trigger] nonzero(s)[j],
    decreases s.len(),
{
    lemma_nonzero_len(s.drop_last());
    if s.last() != 0 && j == nonzero(s).len() - 1 {
        assert(s[s.len() - 1] == nonzero(s)[j]);
    } else {
        lemma_nonzero_from(s.drop_last(), j);
        let k = choose|k: int| 0 <= k < s.drop_last().len() && s.drop_last()[k] == nonzero(s.drop_last())[j];
        assert(s[k] == nonzero(s)[j]);
    }
}

/// Whether `x` is the smallest entry of `s` that is at least `bound`.
pub open spec fn is_least_at_least(s: Seq<usize>, bound: int, x: usize) -> bool {
    &&& s.contains(x)
    &&& x >= bound
    &&& forall|k: int| 0 <= k < s.len() && s[k] >= bound ==> x <= #[trigger] s[k]
}

/// Whether `x` is the largest entry of `s` that is at most `bound`.
pub open spec fn is_greatest_at_most(s: Seq<usize>, bound: int, x: usize) -> bool {
    &&& s.contains(x)
    &&& x <= bound
    &&& forall|k: int| 0 <= k < s.len() && s[k] <= bound ==> #[trigger] s[k] <= x
}

/// The smallest entry of `s` that is at least `bound`, if any.
pub open spec fn least_at_least(s: Seq<usize>, bound: int) -> Option<usize> {
    if exists|x: usize| is_least_at_least(s, bound, x) {
        Some(choose|x: usize| is_least_at_least(s, bound, x))
    } else {
        None
    }
}

/// The largest entry of `s` that is at most `bound`, if any.
pub open spec fn greatest_at_most(s: Seq<usize>, bound: int) -> Option<usize> {
    if exists|x: usize| is_greatest_at_most(s, bound, x) {
        Some(choose|x: usize| is_greatest_at_most(s, bound, x))
    } else {
        None
    }
}

/// The padding needed before and after a new binary.
pub open spec fn padding_of(pre: bool, post: bool) -> PaddingRequirement {
    if pre && post {
        PaddingRequirement::PreAndPostPad
    } else if pre {
        PaddingRequirement::PrePad
    } else if post {
        PaddingRequirement::PostPad
    } else {
        PaddingRequirement::NONE
    }
}

fn least_at_least_exec(s: &[usize], bound: usize) -> (r: Option<usize>)
    ensures
        r == least_at_least(s@, bound as int),
{
    let mut best: Option<usize> = None;
    let mut i: usize = 0;
    while i < s.len()
        invariant
            i <= s@.len(),
            best is None ==> forall|k: int| 0 <= k < i ==> #[trigger] s@[k] < bound,
            best matches Some(x) ==> is_least_at_least(s@.subrange(0, i as int), bound as int, x),
        decreases s@.len() - i,
    {
        let v: usize = s[i];
        assert(s@.subrange(0, i + 1) =~= s@.subrange(0, i as int).push(v));
        if v >= bound {
            match best {
                Some(x) => {
                    if v < x {
                        best = Some(v);
                    }
                },
                None => {
                    best = Some(v);
                },
            }
        }
        proof {
            if let Some(x) = best {
                assert forall|k: int|
                    0 <= k < i + 1 && s@.subrange(0, i + 1)[k] >= bound implies x
                    <= #[trigger] s@.subrange(0, i + 1)[k] by {
                    if k < i {
                        assert(s@.subrange(0, i + 1)[k] == s@.subrange(0, i as int)[k]);
                    }
                }
                if x != v {
                    assert(s@.subrange(0, i as int).contains(x));
                    let w = choose|w: int| 0 <= w < i && s@.subrange(0, i as int)[w] == x;
                    assert(s@.subrange(0, i + 1)[w] == x);
                } else {
                    assert(s@.subrange(0, i + 1)[i as int] == x);
                }
            }
        }
        i = i + 1;
    }
    assert(s@.subrange(0, i as int) =~= s@);
    proof {
        match best {
            Some(x) => {
                assert forall|y: usize| is_least_at_least(s@, bound as int, y) implies y == x by {
                    let a = choose|a: int| 0 <= a < s@.len() && s@[a] == y;
                    let b = choose|b: int| 0 <= b < s@.len() && s@[b] == x;
                }
            },
            None => {
                assert forall|y: usize| !is_least_at_least(s@, bound as int, y) by {
                    if s@.contains(y) && y >= bound {
                        let a = choose|a: int| 0 <= a < s@.len() && s@[a] == y;
                    }
                }
            },
        }
    }
    best
}

fn greatest_at_most_exec(s: &[usize], bound: usize) -> (r: Option<usize>)
    ensures
        r == greatest_at_most(s@, bound as int),
{
    let mut best: Option<usize> = None;
    let mut i: usize = 0;
    while i < s.len()
        invariant
            i <= s@.len(),
            best is None ==> forall|k: int| 0 <= k < i ==> #[trigger] s@[k] > bound,
            best matches Some(x) ==> is_greatest_at_most(s@.subrange(0, i as int), bound as int, x),
        decreases s@.len() - i,
    {
        let v: usize = s[i];
        assert(s@.subrange(0, i + 1) =~= s@.subrange(0, i as int).push(v));
        if v <= bound {
            match best {
                Some(x) => {
                    if v > x {
                        best = Some(v);
                    }
                },
                None => {
                    best = Some(v);
                },
            }
        }
        proof {
            if let Some(x) = best {
                assert forall|k: int|
                    0 <= k < i + 1 && s@.subrange(0, i + 1)[k] <= bound implies #[trigger] s@.subrange(
                    0,
                    i + 1,
                )[k] <= x by {
                    if k < i {
                        assert(s@.subrange(0, i + 1)[k] == s@.subrange(0, i as int)[k]);
                    }
                }
                if x != v {
                    assert(s@.subrange(0, i as int).contains(x));
                    let w = choose|w: int| 0 <= w < i && s@.subrange(0, i as int)[w] == x;
                    assert(s@.subrange(0, i + 1)[w] == x);
                } else {
                    assert(s@.subrange(0, i + 1)[i as int] == x);
                }
            }
        }
        i = i + 1;
    }
    assert(s@.subrange(0, i as int) =~= s@);
    proof {
        match best {
            Some(x) => {
                assert forall|y: usize| is_greatest_at_most(s@, bound as int, y) implies y == x by {
                    let a = choose|a: int| 0 <= a < s@.len() && s@[a] == y;
                    let b = choose|b: int| 0 <= b < s@.len() && s@[b] == x;
                }
            },
            None => {
                assert forall|y: usize| !is_greatest_at_most(s@, bound as int, y) by {
                    if s@.contains(y) && y <= bound {
                        let a = choose|a: int| 0 <= a < s@.len() && s@[a] == y;
                    }
                }
            },
        }
    }
    best
}

/// The padding a binary of `app_length` bytes at `address` needs, with the
/// end of the closest binary before it and the start of the closest binary
/// after it (0 where there is none).
pub open spec fn padding_and_neighbors(
    address: int,
    app_length: int,
    starts: Seq<usize>,
    ends: Seq<usize>,
) -> (PaddingRequirement, usize, usize) {
    let next = least_at_least(starts, address + app_length);
    let previous = greatest_at_most(ends, address);
    (
        padding_of(previous matches Some(p) && p != address, next matches Some(n) && n != 0),
        match previous {
            Some(p) => p,
            None => 0usize,
        },
        match next {
            Some(n) => n,
            None => 0usize,
        },
    )
}

/// The padding a new binary of `app_length` bytes at `new_app_start_address`
/// needs, with the end of the closest binary before it and the start of the
/// closest binary after it (0 where there is none).
///
/// Padding goes after the new binary when some binary starts at or after
/// its end, and before it when the closest binary ending at or before its
/// start does not end exactly there.
pub fn compute_padding_requirement_and_neighbors(
    new_app_start_address: usize,
    app_length: usize,
    process_binaries_start_addresses: &[usize],
    process_binaries_end_addresses: &[usize],
) -> (r: (PaddingRequirement, usize, usize))
    requires
        1 <= new_app_start_address + app_length <= usize::MAX,
        new_app_start_address < usize::MAX,
    ensures
        r == padding_and_neighbors(
            new_app_start_address as int,
            app_length as int,
            process_binaries_start_addresses@,
            process_binaries_end_addresses@,
        ),
{
    let new_app_end_address: usize = new_app_start_address + app_length;
    let mut next_app_start_addr: usize = 0;
    let mut previous_app_end_addr: usize = 0;
    let mut padding_requirement: PaddingRequirement = PaddingRequirement::NONE;
    match least_at_least_exec(process_binaries_start_addresses, new_app_end_address) {
        Some(next_closest_neighbor) => {
            next_app_start_addr = next_closest_neighbor;
            if next_app_start_addr != 0 {
                padding_requirement = PaddingRequirement::PostPad;
            }
        },
        None => {},
    }
    match greatest_at_most_exec(process_binaries_end_addresses, new_app_start_address) {
        Some(previous_closest_neighbor) => {
            previous_app_end_addr = previous_closest_neighbor;
            if new_app_start_address - previous_app_end_addr != 0 {
                if padding_requirement == PaddingRequirement::PostPad {
                    padding_requirement = PaddingRequirement::PreAndPostPad;
                } else {
                    padding_requirement = PaddingRequirement::PrePad;
                }
            }
        },
        None => {},
    }
    (padding_requirement, previous_app_end_addr, next_app_start_addr)
}

/// Whether `length` bytes from `offset` fit in the flash of `flash_len`
/// bytes from `flash_start`, measured from the last byte of the flash.
pub fn check_if_within_flash_bounds(
    flash_start: usize,
    flash_len: usize,
    offset: usize,
    length: usize,
) -> (r: bool)
    requires
        flash_len >= 1,
        flash_start + flash_len <= usize::MAX,
        offset <= flash_start + flash_len - 1,
    ensures
        r == (flash_start + flash_len - 1 - offset >= length),
{
    let flash_end: usize = flash_start + flash_len - 1;
    (flash_end - offset) >= length
}

/// Whether `table` starts with the non-zero entries of `source`, in order.
pub open spec fn compacted(table: Seq<usize>, source: Seq<usize>) -> bool {
    table.subrange(0, nonzero(source).len() as int) == nonzero(source)
}

/// What loading processes at boot does after looking for a binary.
#[derive(Clone, Copy, Debug)]
pub enum BootStep {
    /// Create a process from the binary.
    Load(ProcessBinary),
    /// The binary cannot be used: go on with the next one.
    Skip,
    /// No binary is left in flash: loading is done.
    Stop,
}

/// The step that follows looking for a binary at boot: the end of flash, or
/// a header that is not there, ends loading; a binary that cannot be used is
/// skipped.
pub open spec fn boot_step_of(discovered: Result<ProcessBinary, ProcessBinaryError>) -> BootStep {
    match discovered {
        Ok(pb) => BootStep::Load(pb),
        Err(e) => if e is NotEnoughFlash || e is TbfHeaderNotFound {
            BootStep::Stop
        } else {
            BootStep::Skip
        },
    }
}

/// Decides what loading processes at boot does after looking for a binary.
pub fn boot_step(discovered: Result<ProcessBinary, ProcessBinaryError>) -> (r: BootStep)
    ensures
        r == boot_step_of(discovered),
{
    match discovered {
        Ok(pb) => BootStep::Load(pb),
        Err(ProcessBinaryError::NotEnoughFlash) => BootStep::Stop,
        Err(ProcessBinaryError::TbfHeaderNotFound) => BootStep::Stop,
        Err(_) => BootStep::Skip,
    }
}

/// Takes the outcome of creating a process at boot for slot `index` of the
/// process table: a process created goes into that slot and the next one
/// goes into the slot after it; otherwise the table and the slot stay.
/// Returns the slot for the next process.
pub fn store_loaded_process(
    procs: &mut [ProcessSlot],
    index: usize,
    loaded: Result<Option<ProcessInfo>, ProcessLoadError>,
) -> (r: usize)
    requires
        index < old(procs)@.len(),
    ensures
        match loaded {
            Ok(Some(p)) => {
                &&& r == index + 1
                &&& final(procs)@.len() == old(procs)@.len()
                &&& final(procs)@[index as int].spec_proc() == Some(p)
                &&& forall|j: int|
                    0 <= j < old(procs)@.len() && j != index ==> #[trigger] final(procs)@[j]
                        == old(procs)@[j]
            },
            _ => r == index && final(procs)@ == old(procs)@,
        },
{
    match loaded {
        Ok(Some(process)) => {
            let mut slot: ProcessSlot = ProcessSlot::empty();
            slot.set(process);
            procs[index] = slot;
            index + 1
        },
        _ => index,
    }
}

/// What one step of the scan of flash for binaries does.
#[derive(Clone, Copy, PartialEq, Eq, Structural, Debug)]
pub enum ScanStep {
    /// Nothing more reads as a header: the scan is complete.
    Finished,
    /// The flash does not hold what a header says, or the tables of
    /// addresses are full: the scan fails.
    Failed,
    /// The scan goes on at `next_offset`; `recorded` tells whether the
    /// binary stepped over was recorded (padding is not).
    Continue { next_offset: usize, recorded: bool },
}

/// The header and binary lengths of the binary at `offset` when the flash
/// holds its header, of more than the 16 bytes of a padding header, and the
/// binary: the binaries that a scan step records.
pub open spec fn scanned_binary(flash_len: usize, offset: usize, lengths: TbfHeaderLengths) -> Option<
    (usize, u32),
> {
    match header_and_app_length(lengths) {
        Some((header_length, app_length)) => if flash_len - offset >= 8 && app_length <= flash_len
            - offset && header_length <= flash_len - offset && header_length > 16 {
            Some((header_length, app_length))
        } else {
            None
        },
        None => None,
    }
}

/// The outcome of a scan step at `offset`, with `index` binaries recorded
/// in tables of `capacity` entries.
pub open spec fn scan_outcome(
    flash_len: usize,
    offset: usize,
    lengths: TbfHeaderLengths,
    index: usize,
    capacity: int,
) -> ScanStep {
    if flash_len - offset < 8 {
        ScanStep::Failed
    } else {
        match header_and_app_length(lengths) {
            None => ScanStep::Finished,
            Some((header_length, app_length)) => if app_length > flash_len - offset
                || header_length > flash_len - offset || header_length < 16 {
                ScanStep::Failed
            } else if header_length == 16 {
                ScanStep::Continue { next_offset: (offset + app_length) as usize, recorded: false }
            } else if index + 1 > capacity - 1 {
                ScanStep::Failed
            } else {
                ScanStep::Continue { next_offset: (offset + app_length) as usize, recorded: true }
            },
        }
    }
}

/// One step of the scan of `flash_len` bytes of flash from `flash_start`
/// for binaries, at `offset`, where `lengths` is what the header parser read
/// of the eight bytes there. A binary that is not padding has its start and
/// end addresses recorded at `index` of the two tables.
pub fn scan_step(
    flash_start: usize,
    flash_len: usize,
    offset: usize,
    lengths: TbfHeaderLengths,
    process_binaries_start_addresses: &mut [usize],
    process_binaries_end_addresses: &mut [usize],
    index: usize,
) -> (r: ScanStep)
    requires
        flash_start + flash_len <= usize::MAX,
        offset < flash_len,
        index < old(process_binaries_start_addresses)@.len(),
        index < old(process_binaries_end_addresses)@.len(),
    ensures
        r == scan_outcome(
            flash_len,
            offset,
            lengths,
            index,
            old(process_binaries_start_addresses)@.len() as int,
        ),
        match scanned_binary(flash_len, offset, lengths) {
            Some((_, app_length)) => {
                &&& final(process_binaries_start_addresses)@ == old(
                    process_binaries_start_addresses,
                )@.update(index as int, (flash_start + offset) as usize)
                &&& final(process_binaries_end_addresses)@ == old(
                    process_binaries_end_addresses,
                )@.update(index as int, (flash_start + offset + app_length) as usize)
            },
            None => {
                &&& final(process_binaries_start_addresses)@ == old(
                    process_binaries_start_addresses,
                )@
                &&& final(process_binaries_end_addresses)@ == old(process_binaries_end_addresses)@
            },
        },
{
    let remaining: usize = flash_len - offset;
    if remaining < 8 {
        return ScanStep::Failed;
    }
    let (header_length, app_length): (usize, u32) = match lengths {
        TbfHeaderLengths::Valid { version: _, header_length, app_length } => (
            header_length as usize,
            app_length,
        ),
        TbfHeaderLengths::InvalidHeader { app_length } => (0, app_length),
        TbfHeaderLengths::UnableToParse => {
            return ScanStep::Finished;
        },
    };
    let app_len: usize = app_length as usize;
    if app_len > remaining || header_length > remaining || header_length < 16 {
        return ScanStep::Failed;
    }
    let next_offset: usize = offset + app_len;
    if header_length == 16 {
        return ScanStep::Continue { next_offset, recorded: false };
    }
    process_binaries_start_addresses[index] = flash_start + offset;
    process_binaries_end_addresses[index] = flash_start + offset + app_len;
    if index + 1 > process_binaries_start_addresses.len() - 1 {
        return ScanStep::Failed;
    }
    ScanStep::Continue { next_offset, recorded: true }
}

/// Where a new binary of `app_size` bytes goes in the flash of `flash_len`
/// bytes from `flash_start`, given whether the scan for binaries succeeded
/// and the address tables after compaction, with their counts of non-zero
/// entries: the flash must hold the binary there.
pub open spec fn placement_outcome(
    flash_start: usize,
    flash_len: usize,
    app_size: usize,
    scanned: bool,
    starts: Seq<usize>,
    ends: Seq<usize>,
    start_count: int,
    end_count: int,
) -> Result<usize, ProcessBinaryError> {
    if !scanned {
        Err(ProcessBinaryError::NotEnoughFlash)
    } else {
        let address = new_binary_address(starts, ends, start_count, end_count, app_size as int);
        if address + app_size - 1 > flash_start + flash_len - 1 {
            Err(ProcessBinaryError::NotEnoughFlash)
        } else {
            Ok(address as usize)
        }
    }
}

/// Finds an address for a new binary of `app_size` bytes in the flash of
/// `flash_len` bytes from `flash_start`, from the start and end addresses of
/// the binaries that the scan of flash recorded (0 where none), given
/// whether that scan succeeded. The tables are compacted in place.
pub fn check_flash_for_valid_address(
    flash_start: usize,
    flash_len: usize,
    app_size: usize,
    scanned: bool,
    process_binaries_start_addresses: &mut [usize],
    process_binaries_end_addresses: &mut [usize],
) -> (r: Result<usize, ProcessBinaryError>)
    requires
        1 <= flash_start + flash_len <= usize::MAX,
        scanned ==> {
            &&& app_size > 0
            &&& old(process_binaries_start_addresses)@.len() == old(
                process_binaries_end_addresses,
            )@.len()
            &&& nonzero(old(process_binaries_start_addresses)@).len() >= 1
            &&& nonzero(old(process_binaries_end_addresses)@).len() >= 1
            &&& forall|j: int|
                0 <= j < old(process_binaries_end_addresses)@.len() ==> #[trigger] old(
                    process_binaries_end_addresses,
                )@[j] + 2 * app_size <= usize::MAX
        },
    ensures
        !scanned ==> final(process_binaries_start_addresses)@ == old(
            process_binaries_start_addresses,
        )@ && final(process_binaries_end_addresses)@ == old(process_binaries_end_addresses)@,
        scanned ==> compacted(final(process_binaries_start_addresses)@, old(process_binaries_start_addresses)@),
        scanned ==> compacted(final(process_binaries_end_addresses)@, old(process_binaries_end_addresses)@),
        r == placement_outcome(
            flash_start,
            flash_len,
            app_size,
            scanned,
            final(process_binaries_start_addresses)@,
            final(process_binaries_end_addresses)@,
            nonzero(old(process_binaries_start_addresses)@).len() as int,
            nonzero(old(process_binaries_end_addresses)@).len() as int,
        ),
        r matches Ok(address) ==> address % app_size == 0 && address + app_size <= flash_start
            + flash_len,
{
    let flash_end: usize = flash_start + flash_len - 1;
    if !scanned {
        return Err(ProcessBinaryError::NotEnoughFlash);
    }
    let new_app_address: usize = compute_new_process_binary_address(
        app_size,
        process_binaries_start_addresses,
        process_binaries_end_addresses,
    );
    if new_app_address > flash_end || flash_end - new_app_address < app_size - 1 {
        Err(ProcessBinaryError::NotEnoughFlash)
    } else {
        Ok(new_app_address)
    }
}

/// Finds an address for a new binary of `app_size` bytes, as
/// `check_flash_for_valid_address` does, with the padding it needs and the
/// end of the binary before it and the start of the binary after it.
pub fn check_flash_for_new_address(
    flash_start: usize,
    flash_len: usize,
    app_size: usize,
    scanned: bool,
    process_binaries_start_addresses: &mut [usize],
    process_binaries_end_addresses: &mut [usize],
) -> (r: Result<(usize, PaddingRequirement, usize, usize), ProcessBinaryError>)
    requires
        1 <= flash_start + flash_len <= usize::MAX,
        scanned ==> {
            &&& app_size > 0
            &&& old(process_binaries_start_addresses)@.len() == old(
                process_binaries_end_addresses,
            )@.len()
            &&& nonzero(old(process_binaries_start_addresses)@).len() >= 1
            &&& nonzero(old(process_binaries_end_addresses)@).len() >= 1
            &&& forall|j: int|
                0 <= j < old(process_binaries_end_addresses)@.len() ==> #[trigger] old(
                    process_binaries_end_addresses,
                )@[j] + 2 * app_size <= usize::MAX
        },
    ensures
        !scanned ==> final(process_binaries_start_addresses)@ == old(
            process_binaries_start_addresses,
        )@ && final(process_binaries_end_addresses)@ == old(process_binaries_end_addresses)@,
        scanned ==> compacted(final(process_binaries_start_addresses)@, old(process_binaries_start_addresses)@),
        scanned ==> compacted(final(process_binaries_end_addresses)@, old(process_binaries_end_addresses)@),
        r == match placement_outcome(
            flash_start,
            flash_len,
            app_size,
            scanned,
            final(process_binaries_start_addresses)@,
            final(process_binaries_end_addresses)@,
            nonzero(old(process_binaries_start_addresses)@).len() as int,
            nonzero(old(process_binaries_end_addresses)@).len() as int,
        ) {
            Ok(address) => {
                let p = padding_and_neighbors(
                    address as int,
                    app_size as int,
                    final(process_binaries_start_addresses)@,
                    final(process_binaries_end_addresses)@,
                );
                Ok((address, p.0, p.1, p.2))
            },
            Err(e) => Err(e),
        },
{
    match check_flash_for_valid_address(
        flash_start,
        flash_len,
        app_size,
        scanned,
        process_binaries_start_addresses,
        process_binaries_end_addresses,
    ) {
        Ok(app_address) => {
            let (padding_requirement, previous_app_end_addr, next_app_start_addr) =
                compute_padding_requirement_and_neighbors(
                app_address,
                app_size,
                process_binaries_start_addresses,
                process_binaries_end_addresses,
            );
            Ok((app_address, padding_requirement, previous_app_end_addr, next_app_start_addr))
        },
        Err(e) => Err(e),
    }
}

/// The flash to look for a new binary in, as an offset into the flash and a
/// length, when a binary of `app_size` bytes at `app_address` starts with a
/// header that parses (`lengths` is what the header parser read of its first
/// eight bytes) and lies in the flash.
pub open spec fn new_binary_window(
    flash_start: usize,
    flash_len: usize,
    app_address: usize,
    app_size: usize,
    lengths: TbfHeaderLengths,
) -> Result<(usize, usize), ProcessLoadError> {
    let offset = app_address - flash_start;
    if offset + 8 <= flash_len && lengths is Valid && offset + app_size <= flash_len {
        Ok((offset as usize, app_size))
    } else {
        Err(ProcessLoadError::BinaryError(ProcessBinaryError::TbfHeaderNotFound))
    }
}

/// Starts loading a new binary of `app_size` bytes written at `app_address`
/// in the flash of `flash_len` bytes from `flash_start`: returns the part of
/// the flash to look for it in, as an offset and a length, if it has a valid
/// header there. `lengths` is what the header parser read of the eight
/// bytes at `app_address`.
pub fn load_new_process_binary(
    flash_start: usize,
    flash_len: usize,
    app_address: usize,
    app_size: usize,
    lengths: TbfHeaderLengths,
) -> (r: Result<(usize, usize), ProcessLoadError>)
    requires
        flash_start <= app_address,
        app_address - flash_start + 8 <= usize::MAX,
        app_address - flash_start + app_size <= usize::MAX,
    ensures
        r == new_binary_window(flash_start, flash_len, app_address, app_size, lengths),
{
    let process_address: usize = app_address - flash_start;
    let process_flash_fits: bool = process_address + app_size <= flash_len;
    let valid: bool = process_address + 8 <= flash_len && match lengths {
        TbfHeaderLengths::Valid { .. } => true,
        TbfHeaderLengths::InvalidHeader { .. } => false,
        TbfHeaderLengths::UnableToParse => false,
    };
    if valid {
        if process_flash_fits {
            Ok((process_address, app_size))
        } else {
            Err(ProcessLoadError::BinaryError(ProcessBinaryError::TbfHeaderNotFound))
        }
    } else {
        Err(ProcessLoadError::BinaryError(ProcessBinaryError::TbfHeaderNotFound))
    }
}

} // verus!
