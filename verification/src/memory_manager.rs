//! Memory region allocator for process loading.
//!
//! [`MemoryManager`] finds a best-fit free region in the board's memory pool,
//! given the memory regions of the processes that are running. The regions
//! in use are supplied on every call, so memory that a process no longer uses
//! is free again on the next call.
//!
//! A request is rounded up to the next power of two, and the region handed out
//! is aligned to that size, as the Cortex-M MPU requires. Among the gaps
//! between the regions in use, the one with the least room left from the
//! aligned start wins; of two equal ones, the lower.

use vstd::prelude::*;

verus! {

/// The most process regions taken into account.
pub const MAX_PROCS: usize = 16;

/// A region in use: it starts at a non-null address and is not empty.
pub open spec fn is_occupied(entry: (usize, usize)) -> bool {
    entry.0 != 0 && entry.0 < entry.1
}

/// The regions in use among `active`, in order, at most [`MAX_PROCS`] of them.
pub open spec fn collect_occupied(active: Seq<(usize, usize)>) -> Seq<(usize, usize)>
    decreases active.len(),
{
    if active.len() == 0 {
        Seq::empty()
    } else {
        let collected = collect_occupied(active.drop_last());
        if is_occupied(active.last()) && collected.len() < MAX_PROCS {
            collected.push(active.last())
        } else {
            collected
        }
    }
}

/// `entry` inserted into `sorted` after every region that starts no later than it.
pub open spec fn insert_by_start(sorted: Seq<(usize, usize)>, entry: (usize, usize)) -> Seq<(usize, usize)>
    decreases sorted.len(),
{
    if sorted.len() == 0 {
        seq![entry]
    } else if sorted.last().0 <= entry.0 {
        sorted.push(entry)
    } else {
        insert_by_start(sorted.drop_last(), entry).push(sorted.last())
    }
}

/// The regions sorted by starting address; regions with equal starts keep
/// their order.
pub open spec fn sort_by_start(regions: Seq<(usize, usize)>) -> Seq<(usize, usize)>
    decreases regions.len(),
{
    if regions.len() == 0 {
        Seq::empty()
    } else {
        insert_by_start(sort_by_start(regions.drop_last()), regions.last())
    }
}

/// Where gap `i` starts: the start of the pool, or the end of region `i - 1`.
pub open spec fn gap_start(pool_start: int, occupied: Seq<(usize, usize)>, i: int) -> int {
    if i == 0 {
        pool_start
    } else {
        occupied[i - 1].1 as int
    }
}

/// Where gap `i` ends: the start of region `i`, or the end of the pool.
pub open spec fn gap_end(pool_end: int, occupied: Seq<(usize, usize)>, i: int) -> int {
    if i == occupied.len() {
        pool_end
    } else {
        occupied[i].0 as int
    }
}

/// The smallest multiple of `alignment` not below `address`.
pub open spec fn round_up(address: int, alignment: int) -> int {
    ((address + alignment - 1) / alignment) * alignment
}

/// The aligned start of a region of `size` bytes within the gap, and the room
/// from there to the end of the gap, if the region fits.
pub open spec fn fit_in_gap(gap_start: int, gap_end: int, size: int) -> Option<(int, int)> {
    if gap_end <= gap_start {
        None
    } else {
        let candidate = round_up(gap_start, size);
        if candidate + size <= gap_end {
            Some((candidate, gap_end - candidate))
        } else {
            None
        }
    }
}

/// The best fit among the first `n` gaps: the one with the least room, the
/// earliest among equals.
pub open spec fn best_fit_upto(
    pool_start: int,
    pool_end: int,
    occupied: Seq<(usize, usize)>,
    size: int,
    n: int,
) -> Option<(int, int)>
    decreases n,
{
    if n <= 0 {
        None
    } else {
        let best = best_fit_upto(pool_start, pool_end, occupied, size, n - 1);
        match fit_in_gap(gap_start(pool_start, occupied, n - 1), gap_end(pool_end, occupied, n - 1), size) {
            None => best,
            Some(region) => match best {
                None => Some(region),
                Some(current) => if region.1 < current.1 {
                    Some(region)
                } else {
                    best
                },
            },
        }
    }
}

/// The best fit among all the gaps of the pool around the occupied regions.
pub open spec fn best_fit(pool_start: int, pool_end: int, occupied: Seq<(usize, usize)>, size: int) -> Option<(int, int)> {
    best_fit_upto(pool_start, pool_end, occupied, size, occupied.len() + 1int)
}

/// Rounding the start of each non-empty gap up does not overflow.
pub open spec fn rounding_fits(pool_start: int, pool_end: int, occupied: Seq<(usize, usize)>, size: int) -> bool {
    forall|i: int|
        0 <= i <= occupied.len() && gap_start(pool_start, occupied, i) < gap_end(pool_end, occupied, i)
            ==> #[trigger] gap_start(pool_start, occupied, i) + size - 1 <= usize::MAX
}

/// The smallest power of two that is at least `n`, searching upward from `power`.
pub open spec fn power_of_two_from(n: nat, power: nat) -> nat
    decreases (if power < n { n - power } else { 0 }),
    when power > 0
{
    if power >= n {
        power
    } else {
        power_of_two_from(n, 2 * power)
    }
}

/// The smallest power of two that is at least `n`.
pub open spec fn next_power_of_two(n: nat) -> nat {
    power_of_two_from(n, 1)
}

/// The smallest power of two that is at least `n`.
pub fn compute_next_power_of_two(n: usize) -> (r: usize)
    requires
        n <= usize::MAX / 2 + 1,
    ensures
        r == next_power_of_two(n as nat),
        r >= n,
        r > 0,
{
    let mut power: usize = 1;
    while power < n
        invariant
            0 < power,
            n <= usize::MAX / 2 + 1,
            power_of_two_from(n as nat, power as nat) == next_power_of_two(n as nat),
        decreases (if power < n { n - power } else { 0 }),
    {
        power = power * 2;
    }
    power
}

/// A free contiguous region of memory described by its start address and
/// available size from that address to the end of the gap.
#[derive(Clone, Copy)]
pub struct FreeRegion {
    pub start: usize,
    pub size: usize,
}

/// The view of an optional free region as a pair of integers.
pub open spec fn region_view(region: Option<FreeRegion>) -> Option<(int, int)> {
    match region {
        Some(region) => Some((region.start as int, region.size as int)),
        None => None,
    }
}

/// Allocates memory regions for processes out of the board's app-memory pool.
pub struct MemoryManager {
    app_memory_start: usize,
    app_memory_size: usize,
}

/// Inserting after every region that starts no later than the new one is
/// inserting at the position found by scanning back over the later ones.
proof fn lemma_insert_by_start(sorted: Seq<(usize, usize)>, entry: (usize, usize), position: int)
    requires
        0 <= position <= sorted.len(),
        position == 0 || sorted[position - 1].0 <= entry.0,
        forall|k: int| position <= k < sorted.len() ==> sorted[k].0 > entry.0,
    ensures
        insert_by_start(sorted, entry) == sorted.insert(position, entry),
    decreases sorted.len(),
{
    if sorted.len() == 0 {
        assert(sorted.insert(position, entry) =~= seq![entry]);
    } else if sorted.last().0 <= entry.0 {
        assert(position == sorted.len());
        assert(sorted.insert(position, entry) =~= sorted.push(entry));
    } else {
        lemma_insert_by_start(sorted.drop_last(), entry, position);
        assert(sorted.drop_last().insert(position, entry).push(sorted.last()) =~= sorted.insert(position, entry));
    }
}

/// The first `n` elements of `s`, or all of them if it is shorter.
pub open spec fn first_at_most<A>(s: Seq<A>, n: int) -> Seq<A> {
    if s.len() <= n {
        s
    } else {
        s.take(n)
    }
}

impl MemoryManager {
    #[verifier::type_invariant]
    closed spec fn pool_fits(self) -> bool {
        self.app_memory_start + self.app_memory_size <= usize::MAX
    }

    /// The first address of the pool.
    pub closed spec fn spec_pool_start(self) -> nat {
        self.app_memory_start as nat
    }

    /// The address just past the pool.
    pub closed spec fn spec_pool_end(self) -> nat {
        (self.app_memory_start + self.app_memory_size) as nat
    }

    /// A manager of the `app_memory_size` bytes from `app_memory_start`.
    pub fn new(app_memory_start: usize, app_memory_size: usize) -> (r: Self)
        requires
            app_memory_start + app_memory_size <= usize::MAX,
        ensures
            r.spec_pool_start() == app_memory_start,
            r.spec_pool_end() == app_memory_start + app_memory_size,
    {
        Self { app_memory_start, app_memory_size }
    }

    /// Finds the best-fit region for `required_size` bytes among the gaps
    /// around the memory regions `(start, end)` of the running processes, of
    /// which the first [`MAX_PROCS`] count. The region is as large as the next
    /// power of two and aligned to it; the result is its start and length, or
    /// `None` if `required_size` is zero or no gap fits it.
    pub fn allocate(&self, required_size: usize, process_regions: &[(usize, usize)]) -> (r: Option<(usize, usize)>)
        requires
            required_size <= usize::MAX / 2 + 1,
            required_size > 0 ==> rounding_fits(
                self.spec_pool_start() as int,
                self.spec_pool_end() as int,
                sort_by_start(collect_occupied(first_at_most(process_regions@, MAX_PROCS as int))),
                next_power_of_two(required_size as nat) as int,
            ),
        ensures
            required_size == 0 ==> r is None,
            required_size > 0 ==> {
                let size = next_power_of_two(required_size as nat) as int;
                let best = best_fit(
                    self.spec_pool_start() as int,
                    self.spec_pool_end() as int,
                    sort_by_start(collect_occupied(first_at_most(process_regions@, MAX_PROCS as int))),
                    size,
                );
                &&& (r is Some <==> best is Some)
                &&& (r matches Some((start, length)) ==> (best matches Some((best_start, _)) && best_start == start) && length == size)
            },
            required_size > 0 ==> {
                let size = next_power_of_two(required_size as nat) as int;
                let occupied = sort_by_start(collect_occupied(first_at_most(process_regions@, MAX_PROCS as int)));
                let pool_start = self.spec_pool_start() as int;
                let pool_end = self.spec_pool_end() as int;
                &&& (r is None <==> forall|i: int|
                    0 <= i <= occupied.len() ==> #[trigger] gap_fit(pool_start, pool_end, occupied, size, i) is None)
                &&& (r matches Some((start, _)) ==> exists|i: int, room: int|
                    #[trigger] is_tightest(pool_start, pool_end, occupied, size, occupied.len() + 1int, i, start as int, room))
            },
            required_size > 0 && disjoint_in_pool(
                self.spec_pool_start() as int,
                self.spec_pool_end() as int,
                sort_by_start(collect_occupied(first_at_most(process_regions@, MAX_PROCS as int))),
            ) ==> (r matches Some((start, length)) ==> {
                let occupied = sort_by_start(collect_occupied(first_at_most(process_regions@, MAX_PROCS as int)));
                &&& start % length == 0
                &&& self.spec_pool_start() <= start
                &&& start + length <= self.spec_pool_end()
                &&& forall|k: int|
                    0 <= k < occupied.len() ==> (#[trigger] occupied[k]).1 <= start || start + length
                        <= occupied[k].0
            }),
    {
        if required_size == 0 {
            return None;
        }
        let aligned_size: usize = compute_next_power_of_two(required_size);
        proof {
            use_type_invariant(self);
            let occupied = sort_by_start(collect_occupied(first_at_most(process_regions@, MAX_PROCS as int)));
            lemma_best_fit_is_tightest(
                self.spec_pool_start() as int,
                self.spec_pool_end() as int,
                occupied,
                aligned_size as int,
            );
            if disjoint_in_pool(self.spec_pool_start() as int, self.spec_pool_end() as int, occupied) {
                lemma_best_fit_is_free(
                    self.spec_pool_start() as int,
                    self.spec_pool_end() as int,
                    occupied,
                    aligned_size as int,
                );
            }
        }
        let mut active: Vec<(usize, usize)> = Vec::new();
        let mut i: usize = 0;
        while i < process_regions.len() && i < MAX_PROCS
            invariant
                i <= process_regions.len(),
                i <= MAX_PROCS,
                active@ == process_regions@.take(i as int),
            decreases process_regions.len() - i,
        {
            active.push(process_regions[i]);
            i = i + 1;
            assert(active@ =~= process_regions@.take(i as int));
        }
        assert(active@ =~= first_at_most(process_regions@, MAX_PROCS as int));
        match self.find_best_fit(aligned_size, active.as_slice()) {
            Some(best) => Some((best.start, aligned_size)),
            None => None,
        }
    }

    /// The regions in use among `active_regions`, sorted by start.
    fn sorted_occupied(active_regions: &[(usize, usize)]) -> (r: Vec<(usize, usize)>)
        ensures
            r@ == sort_by_start(collect_occupied(active_regions@)),
            r@.len() <= MAX_PROCS,
    {
        let mut occupied: Vec<(usize, usize)> = Vec::new();
        let mut index: usize = 0;
        while index < active_regions.len()
            invariant
                index <= active_regions.len(),
                occupied@ == collect_occupied(active_regions@.take(index as int)),
                occupied@.len() <= MAX_PROCS,
            decreases active_regions.len() - index,
        {
            let (start, end) = active_regions[index];
            assert(active_regions@.take(index + 1).drop_last() =~= active_regions@.take(index as int));
            if start != 0 && start < end && occupied.len() < MAX_PROCS {
                occupied.push((start, end));
            }
            index = index + 1;
        }
        assert(active_regions@.take(active_regions.len() as int) =~= active_regions@);
        let mut sorted: Vec<(usize, usize)> = Vec::new();
        let mut count: usize = 0;
        while count < occupied.len()
            invariant
                count <= occupied@.len(),
                occupied@.len() <= MAX_PROCS,
                sorted@ == sort_by_start(occupied@.take(count as int)),
                sorted@.len() == count,
            decreases occupied@.len() - count,
        {
            let key = occupied[count];
            let mut position: usize = sorted.len();
            while position > 0 && sorted[position - 1].0 > key.0
                invariant
                    position <= sorted@.len(),
                    forall|k: int| position <= k < sorted@.len() ==> sorted@[k].0 > key.0,
                decreases position,
            {
                position = position - 1;
            }
            proof {
                lemma_insert_by_start(sorted@, key, position as int);
                assert(occupied@.take(count + 1).drop_last() =~= occupied@.take(count as int));
            }
            sorted.insert(position, key);
            count = count + 1;
        }
        assert(occupied@.take(occupied@.len() as int) =~= occupied@);
        sorted
    }

    /// Finds the best fit for a region of `aligned_size` bytes among the gaps
    /// around the regions in use.
    fn find_best_fit(&self, aligned_size: usize, active_regions: &[(usize, usize)]) -> (r: Option<FreeRegion>)
        requires
            aligned_size > 0,
            rounding_fits(
                self.spec_pool_start() as int,
                self.spec_pool_end() as int,
                sort_by_start(collect_occupied(active_regions@)),
                aligned_size as int,
            ),
        ensures
            region_view(r) == best_fit(
                self.spec_pool_start() as int,
                self.spec_pool_end() as int,
                sort_by_start(collect_occupied(active_regions@)),
                aligned_size as int,
            ),
    {
        proof {
            use_type_invariant(self);
        }
        let pool_start: usize = self.app_memory_start;
        let pool_end: usize = self.app_memory_start + self.app_memory_size;
        let occupied = Self::sorted_occupied(active_regions);
        let count: usize = occupied.len();
        let ghost occupied_view = occupied@;
        let mut best: Option<FreeRegion> = None;
        let mut gap: usize = 0;
        while gap <= count
            invariant
                gap <= count + 1,
                count == occupied_view.len(),
                count <= MAX_PROCS,
                occupied@ == occupied_view,
                pool_start == self.spec_pool_start(),
                pool_end == self.spec_pool_end(),
                aligned_size > 0,
                rounding_fits(pool_start as int, pool_end as int, occupied_view, aligned_size as int),
                region_view(best) == best_fit_upto(
                    pool_start as int,
                    pool_end as int,
                    occupied_view,
                    aligned_size as int,
                    gap as int,
                ),
            decreases count + 1 - gap,
        {
            let start: usize = if gap == 0 {
                pool_start
            } else {
                occupied[gap - 1].1
            };
            let end: usize = if gap == count {
                pool_end
            } else {
                occupied[gap].0
            };
            assert(start == gap_start(pool_start as int, occupied_view, gap as int));
            assert(end == gap_end(pool_end as int, occupied_view, gap as int));
            match self.fit_in_gap(start, end, aligned_size) {
                Some(region) => {
                    match best {
                        None => best = Some(region),
                        Some(current) => {
                            if region.size < current.size {
                                best = Some(region);
                            }
                        },
                    }
                },
                None => {},
            }
            gap = gap + 1;
        }
        best
    }

    /// Given a gap `[gap_start, gap_end)`, the lowest address within it aligned
    /// to `aligned_size` from which `aligned_size` bytes fit in the gap, with
    /// the room left from there to the end of the gap.
    fn fit_in_gap(&self, gap_start: usize, gap_end: usize, aligned_size: usize) -> (r: Option<FreeRegion>)
        requires
            aligned_size > 0,
            gap_start < gap_end ==> gap_start + aligned_size - 1 <= usize::MAX,
        ensures
            region_view(r) == fit_in_gap(gap_start as int, gap_end as int, aligned_size as int),
    {
        if gap_end <= gap_start {
            return None;
        }
        let mask: usize = aligned_size - 1;
        let total: usize = gap_start + mask;
        let quotient: usize = total / aligned_size;
        proof {
            assert(quotient * aligned_size <= total) by (nonlinear_arith)
                requires
                    quotient == total / aligned_size,
                    aligned_size > 0,
            {
            }
        }
        let candidate_start: usize = quotient * aligned_size;
        match candidate_start.checked_add(aligned_size) {
            None => None,
            Some(candidate_end) => {
                if candidate_end <= gap_end {
                    Some(FreeRegion { start: candidate_start, size: gap_end - candidate_start })
                } else {
                    None
                }
            },
        }
    }
}

/// Whether the regions in use, in order of their start, lie in the pool and
/// do not overlap: each ends before the next one starts.
pub open spec fn disjoint_in_pool(pool_start: int, pool_end: int, occupied: Seq<(usize, usize)>) -> bool {
    &&& forall|k: int| 0 <= k < occupied.len() ==> (#[trigger] occupied[k]).0 < occupied[k].1
    &&& forall|k: int| 0 <= k < occupied.len() - 1 ==> (#[trigger] occupied[k]).1 <= occupied[k + 1].0
    &&& occupied.len() > 0 ==> pool_start <= occupied[0].0 && occupied[occupied.len() - 1].1 <= pool_end
}

/// Rounding up to a multiple of `alignment` gives a multiple of it, no lower
/// than the address and less than one alignment above it.
proof fn lemma_round_up(address: int, alignment: int)
    requires
        address >= 0,
        alignment > 0,
    ensures
        address <= round_up(address, alignment) < address + alignment,
        round_up(address, alignment) % alignment == 0,
{
    let x = address + alignment - 1;
    vstd::arithmetic::div_mod::lemma_fundamental_div_mod(x, alignment);
    vstd::arithmetic::div_mod::lemma_mod_bound(x, alignment);
    vstd::arithmetic::div_mod::lemma_mod_multiples_basic(x / alignment, alignment);
    assert(round_up(address, alignment) == alignment * (x / alignment)) by {
        vstd::arithmetic::mul::lemma_mul_is_commutative(x / alignment, alignment);
    }
}

/// In regions that do not overlap, an earlier region ends no later than a
/// later one starts.
proof fn lemma_ordered(occupied: Seq<(usize, usize)>, pool_start: int, pool_end: int, j: int, k: int)
    requires
        disjoint_in_pool(pool_start, pool_end, occupied),
        0 <= j < k < occupied.len(),
    ensures
        occupied[j].1 <= occupied[k].0,
    decreases k - j,
{
    if j + 1 < k {
        lemma_ordered(occupied, pool_start, pool_end, j + 1, k);
        assert(occupied[j].1 <= occupied[j + 1].0);
        assert(occupied[j + 1].0 < occupied[j + 1].1);
    }
}

/// The best fit among the first `n` gaps fits in one of them.
proof fn lemma_best_fit_upto_in_gap(
    pool_start: int,
    pool_end: int,
    occupied: Seq<(usize, usize)>,
    size: int,
    n: int,
)
    ensures
        best_fit_upto(pool_start, pool_end, occupied, size, n) matches Some(region) ==> exists|i: int|
            0 <= i < n && fit_in_gap(
                gap_start(pool_start, occupied, i),
                gap_end(pool_end, occupied, i),
                size,
            ) == Some(region),
    decreases n,
{
    if n > 0 {
        lemma_best_fit_upto_in_gap(pool_start, pool_end, occupied, size, n - 1);
        let here = fit_in_gap(
            gap_start(pool_start, occupied, n - 1),
            gap_end(pool_end, occupied, n - 1),
            size,
        );
        if best_fit_upto(pool_start, pool_end, occupied, size, n) == here && here is Some {
            assert(fit_in_gap(
                gap_start(pool_start, occupied, n - 1),
                gap_end(pool_end, occupied, n - 1),
                size,
            ) == here);
        }
    }
}

/// The region the best fit hands out is free: aligned to its size, inside
/// the pool, and clear of every region in use, provided the regions in use
/// lie in the pool and do not overlap each other.
pub proof fn lemma_best_fit_is_free(pool_start: int, pool_end: int, occupied: Seq<(usize, usize)>, size: int)
    requires
        0 <= pool_start <= pool_end,
        size > 0,
        disjoint_in_pool(pool_start, pool_end, occupied),
    ensures
        best_fit(pool_start, pool_end, occupied, size) matches Some((start, _)) ==> {
            &&& start % size == 0
            &&& pool_start <= start
            &&& start + size <= pool_end
            &&& forall|k: int|
                0 <= k < occupied.len() ==> (#[trigger] occupied[k]).1 <= start || start + size
                    <= occupied[k].0
        },
{
    let n: int = occupied.len() + 1int;
    lemma_best_fit_upto_in_gap(pool_start, pool_end, occupied, size, n);
    if let Some((start, room)) = best_fit(pool_start, pool_end, occupied, size) {
        let i = choose|i: int|
            0 <= i < n && fit_in_gap(
                gap_start(pool_start, occupied, i),
                gap_end(pool_end, occupied, i),
                size,
            ) == Some((start, room));
        let gs = gap_start(pool_start, occupied, i);
        let ge = gap_end(pool_end, occupied, i);
        assert(gs >= 0);
        lemma_round_up(gs, size);
        assert(gs <= start && start + size <= ge && start % size == 0);
        if i > 0 {
            if i - 1 > 0 {
                lemma_ordered(occupied, pool_start, pool_end, 0, i - 1);
            }
            assert(occupied[i - 1].0 < occupied[i - 1].1);
        }
        if i < occupied.len() {
            if i < occupied.len() - 1 {
                lemma_ordered(occupied, pool_start, pool_end, i, occupied.len() - 1);
            }
            assert(occupied[occupied.len() - 1].0 < occupied[occupied.len() - 1].1);
        }
        assert forall|k: int| 0 <= k < occupied.len() implies (#[trigger] occupied[k]).1 <= start
            || start + size <= occupied[k].0 by {
            if k < i {
                if k < i - 1 {
                    lemma_ordered(occupied, pool_start, pool_end, k, i - 1);
                    assert(occupied[i - 1].0 < occupied[i - 1].1);
                }
            } else {
                if k > i {
                    lemma_ordered(occupied, pool_start, pool_end, i, k);
                    assert(occupied[i].0 < occupied[i].1);
                }
            }
        }
    }
}

/// What gap `i` offers a region of `size` bytes: its aligned start and the
/// room from there to the end of the gap, if the region fits.
pub open spec fn gap_fit(pool_start: int, pool_end: int, occupied: Seq<(usize, usize)>, size: int, i: int) -> Option<(int, int)> {
    fit_in_gap(gap_start(pool_start, occupied, i), gap_end(pool_end, occupied, i), size)
}

/// Whether gap `i`, among the first `n`, offers `start` with `room`, and no
/// gap among them that fits leaves less room, and every earlier gap that
/// fits leaves more.
pub open spec fn is_tightest(
    pool_start: int,
    pool_end: int,
    occupied: Seq<(usize, usize)>,
    size: int,
    n: int,
    i: int,
    start: int,
    room: int,
) -> bool {
    &&& 0 <= i < n
    &&& gap_fit(pool_start, pool_end, occupied, size, i) == Some((start, room))
    &&& forall|j: int|
        0 <= j < n ==> (#[trigger] gap_fit(pool_start, pool_end, occupied, size, j) matches Some(
            (_, other_room),
        ) ==> room <= other_room)
    &&& forall|j: int|
        0 <= j < i ==> (#[trigger] gap_fit(pool_start, pool_end, occupied, size, j) matches Some(
            (_, other_room),
        ) ==> room < other_room)
}

/// Among the first `n` gaps, a region is found exactly when some gap fits
/// it, and the region found is the tightest: it comes from a gap that fits,
/// no gap that fits leaves less room, and every earlier gap that fits leaves
/// more room.
pub proof fn lemma_best_fit_upto_is_tightest(
    pool_start: int,
    pool_end: int,
    occupied: Seq<(usize, usize)>,
    size: int,
    n: int,
)
    ensures
        best_fit_upto(pool_start, pool_end, occupied, size, n) is None <==> forall|i: int|
            0 <= i < n ==> #[trigger] gap_fit(pool_start, pool_end, occupied, size, i) is None,
        best_fit_upto(pool_start, pool_end, occupied, size, n) matches Some((start, room))
            ==> exists|i: int| #[trigger]
            is_tightest(pool_start, pool_end, occupied, size, n, i, start, room),
    decreases n,
{
    if n > 0 {
        lemma_best_fit_upto_is_tightest(pool_start, pool_end, occupied, size, n - 1);
        let here = gap_fit(pool_start, pool_end, occupied, size, n - 1);
        let previous = best_fit_upto(pool_start, pool_end, occupied, size, n - 1);
        let best = best_fit_upto(pool_start, pool_end, occupied, size, n);
        match here {
            None => {
                assert(best == previous);
                if let Some((start, room)) = previous {
                    let i = choose|i: int|
                        #[trigger] is_tightest(pool_start, pool_end, occupied, size, n - 1, i, start, room);
                    assert forall|j: int|
                        0 <= j < n implies (#[trigger] gap_fit(pool_start, pool_end, occupied, size, j) matches Some(
                            (_, other_room),
                        ) ==> room <= other_room) by {
                        if j < n - 1 {
                            assert(0 <= j < n - 1);
                        }
                    }
                    assert(is_tightest(pool_start, pool_end, occupied, size, n, i, start, room));
                } else {
                    assert forall|i: int|
                        0 <= i < n implies #[trigger] gap_fit(pool_start, pool_end, occupied, size, i) is None by {
                        if i < n - 1 {
                            assert(0 <= i < n - 1);
                        }
                    }
                }
            },
            Some((here_start, here_room)) => {
                assert(gap_fit(pool_start, pool_end, occupied, size, n - 1) is Some);
                match previous {
                    None => {
                        assert(best == here);
                        assert forall|j: int|
                            0 <= j < n - 1 implies #[trigger] gap_fit(pool_start, pool_end, occupied, size, j) is None by {
                        }
                        assert(is_tightest(pool_start, pool_end, occupied, size, n, n - 1, here_start, here_room));
                    },
                    Some((start, room)) => {
                        let i = choose|i: int|
                            #[trigger] is_tightest(pool_start, pool_end, occupied, size, n - 1, i, start, room);
                        if here_room < room {
                            assert(best == here);
                            assert forall|j: int|
                                0 <= j < n implies (#[trigger] gap_fit(pool_start, pool_end, occupied, size, j) matches Some(
                                    (_, other_room),
                                ) ==> here_room <= other_room) by {
                                if j < n - 1 {
                                    assert(0 <= j < n - 1);
                                }
                            }
                            assert forall|j: int|
                                0 <= j < n - 1 implies (#[trigger] gap_fit(pool_start, pool_end, occupied, size, j) matches Some(
                                    (_, other_room),
                                ) ==> here_room < other_room) by {
                                assert(0 <= j < n - 1);
                            }
                            assert(is_tightest(pool_start, pool_end, occupied, size, n, n - 1, here_start, here_room));
                        } else {
                            assert(best == previous);
                            assert forall|j: int|
                                0 <= j < n implies (#[trigger] gap_fit(pool_start, pool_end, occupied, size, j) matches Some(
                                    (_, other_room),
                                ) ==> room <= other_room) by {
                                if j < n - 1 {
                                    assert(0 <= j < n - 1);
                                }
                            }
                            assert(is_tightest(pool_start, pool_end, occupied, size, n, i, start, room));
                        }
                    },
                }
            },
        }
    }
}

/// The best fit is the tightest gap: a region is found exactly when some gap
/// fits it; no gap that fits leaves less room from its aligned start to its
/// end than the one chosen, and every gap before the chosen one that fits
/// leaves more.
pub proof fn lemma_best_fit_is_tightest(pool_start: int, pool_end: int, occupied: Seq<(usize, usize)>, size: int)
    ensures
        best_fit(pool_start, pool_end, occupied, size) is None <==> forall|i: int|
            0 <= i <= occupied.len() ==> #[trigger] gap_fit(pool_start, pool_end, occupied, size, i) is None,
        best_fit(pool_start, pool_end, occupied, size) matches Some((start, room)) ==> exists|i: int|
            #[trigger] is_tightest(pool_start, pool_end, occupied, size, occupied.len() + 1int, i, start, room),
{
    lemma_best_fit_upto_is_tightest(pool_start, pool_end, occupied, size, occupied.len() + 1int);
}

} // verus!
