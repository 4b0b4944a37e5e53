//! Process-wide counters of allocated bytes.
//!
//! The counters record requested sizes only, so they are a lower bound on the memory of the
//! process, and they are process-global: none of them measures a single operation. The live and
//! peak totals are those of the `peak_alloc` crate. Its peak is reset without regard to
//! allocations at the same time, so a caller that wants a meaningful peak after a reset has to
//! keep native work away from it.

use vstd::prelude::*;

verus! {

/// One call of an allocator.
#[derive(Debug, Clone, Copy, PartialEq, Eq, Structural)]
pub enum AllocatorCall {
    /// A block of this size is requested.
    Alloc { size: usize },
    /// A block of this size is freed.
    Dealloc { size: usize },
    /// A zeroed block of this size is requested.
    AllocZeroed { size: usize },
    /// A block is to get a new size.
    Realloc { old_size: usize, new_size: usize },
}

impl AllocatorCall {
    /// How many bytes the call adds to the allocated total.
    pub open spec fn adds_allocated(self, succeeded: bool) -> nat {
        match self {
            AllocatorCall::Alloc { size } => if succeeded {
                size as nat
            } else {
                0
            },
            AllocatorCall::Dealloc { .. } => 0,
            AllocatorCall::AllocZeroed { size } => if succeeded {
                size as nat
            } else {
                0
            },
            AllocatorCall::Realloc { new_size, .. } => if succeeded {
                new_size as nat
            } else {
                0
            },
        }
    }

    /// How many bytes the call adds to the freed total. Freeing cannot fail.
    pub open spec fn adds_freed(self, succeeded: bool) -> nat {
        match self {
            AllocatorCall::Dealloc { size } => size as nat,
            AllocatorCall::Realloc { old_size, .. } => if succeeded {
                old_size as nat
            } else {
                0
            },
            _ => 0,
        }
    }

    /// How many bytes the call adds to the allocated total and to the freed total.
    pub fn charges(self, succeeded: bool) -> (res: (usize, usize))
        ensures
            res.0 == self.adds_allocated(succeeded),
            res.1 == self.adds_freed(succeeded),
    {
        match self {
            AllocatorCall::Alloc { size } => if succeeded {
                (size, 0)
            } else {
                (0, 0)
            },
            AllocatorCall::Dealloc { size } => (0, size),
            AllocatorCall::AllocZeroed { size } => if succeeded {
                (size, 0)
            } else {
                (0, 0)
            },
            AllocatorCall::Realloc { old_size, new_size } => if succeeded {
                (new_size, old_size)
            } else {
                (0, 0)
            },
        }
    }
}

/// The sum, or the largest counter value where the sum is larger.
pub open spec fn capped(total: int) -> int {
    if total > u64::MAX {
        u64::MAX as int
    } else {
        total
    }
}

/// The counter with `bytes` more, at most the largest value.
pub fn add_bytes(counter: u64, bytes: usize) -> (res: u64)
    ensures
        res == capped(counter + bytes),
{
    let bytes: u64 = bytes as u64;
    counter.saturating_add(bytes)
}

/// The cumulative counters of an allocator.
#[derive(Debug, Clone, Copy, PartialEq, Eq, Structural)]
pub struct TrackingAlloc {
    /// The bytes that were allocated so far.
    pub total_allocated: u64,
    /// The bytes that were freed so far.
    pub total_freed: u64,
}

impl TrackingAlloc {
    /// The counters at the start.
    pub fn new() -> (res: Self)
        ensures
            res.total_allocated == 0,
            res.total_freed == 0,
    {
        TrackingAlloc { total_allocated: 0, total_freed: 0 }
    }

    /// The counters after a call of the allocator.
    pub open spec fn after(self, call: AllocatorCall, succeeded: bool) -> TrackingAlloc {
        TrackingAlloc {
            total_allocated: capped(self.total_allocated + call.adds_allocated(succeeded)) as u64,
            total_freed: capped(self.total_freed + call.adds_freed(succeeded)) as u64,
        }
    }

    /// The counters after calls of the allocator, each with whether it succeeded.
    pub open spec fn after_all(self, calls: Seq<(AllocatorCall, bool)>) -> TrackingAlloc
        decreases calls.len(),
    {
        if calls.len() == 0 {
            self
        } else {
            self.after_all(calls.drop_last()).after(calls.last().0, calls.last().1)
        }
    }

    /// Records a call of the allocator.
    pub fn record(&mut self, call: AllocatorCall, succeeded: bool)
        ensures
            *final(self) == old(self).after(call, succeeded),
    {
        let (allocated, freed) = call.charges(succeeded);
        self.total_allocated = add_bytes(self.total_allocated, allocated);
        self.total_freed = add_bytes(self.total_freed, freed);
    }
}

/// The bytes that the calls allocate.
pub open spec fn allocated_by(calls: Seq<(AllocatorCall, bool)>) -> nat
    decreases calls.len(),
{
    if calls.len() == 0 {
        0
    } else {
        allocated_by(calls.drop_last()) + calls.last().0.adds_allocated(calls.last().1)
    }
}

/// The bytes that the calls free.
pub open spec fn freed_by(calls: Seq<(AllocatorCall, bool)>) -> nat
    decreases calls.len(),
{
    if calls.len() == 0 {
        0
    } else {
        freed_by(calls.drop_last()) + calls.last().0.adds_freed(calls.last().1)
    }
}

/// After any calls, each counter has grown by what the calls amount to, up to the largest value,
/// where it stays.
pub proof fn law_counters_are_capped_totals(start: TrackingAlloc, calls: Seq<(AllocatorCall, bool)>)
    ensures
        start.after_all(calls).total_allocated == capped(
            start.total_allocated + allocated_by(calls),
        ),
        start.after_all(calls).total_freed == capped(start.total_freed + freed_by(calls)),
    decreases calls.len(),
{
    if calls.len() > 0 {
        law_counters_are_capped_totals(start, calls.drop_last());
    }
}

/// The counters never fall.
pub proof fn law_counters_never_fall(
    counters: TrackingAlloc,
    call: AllocatorCall,
    succeeded: bool,
)
    ensures
        counters.after(call, succeeded).total_allocated >= counters.total_allocated,
        counters.after(call, succeeded).total_freed >= counters.total_freed,
{
}

/// A call that fails changes neither counter.
pub proof fn law_failed_call_counts_nothing(counters: TrackingAlloc, call: AllocatorCall)
    requires
        !(call is Dealloc),
    ensures
        counters.after(call, false) == counters,
{
}

/// The calls of the life of a block that is allocated with the first size, then resized to each
/// of the others.
pub open spec fn resized_block(sizes: Seq<usize>) -> Seq<(AllocatorCall, bool)>
    decreases sizes.len(),
{
    if sizes.len() <= 1 {
        seq![(AllocatorCall::Alloc { size: sizes.last() }, true)]
    } else {
        resized_block(sizes.drop_last()).push(
            (
                AllocatorCall::Realloc {
                    old_size: sizes.drop_last().last(),
                    new_size: sizes.last(),
                },
                true,
            ),
        )
    }
}

/// While a block lives, what was allocated for it exceeds what was freed by its present size;
/// once it is freed, the two are equal.
pub proof fn law_block_life_balances(sizes: Seq<usize>)
    requires
        sizes.len() > 0,
    ensures
        ({
            let live = resized_block(sizes);
            let freed = live.push((AllocatorCall::Dealloc { size: sizes.last() }, true));
            &&& allocated_by(live) == freed_by(live) + sizes.last()
            &&& allocated_by(freed) == freed_by(freed)
        }),
    decreases sizes.len(),
{
    let live = resized_block(sizes);
    let freed = live.push((AllocatorCall::Dealloc { size: sizes.last() }, true));
    assert(freed.drop_last() =~= live);
    if sizes.len() <= 1 {
        assert(live.drop_last() =~= Seq::empty());
        reveal_with_fuel(allocated_by, 2);
        reveal_with_fuel(freed_by, 2);
    } else {
        law_block_life_balances(sizes.drop_last());
        assert(live.drop_last() =~= resized_block(sizes.drop_last()));
    }
}

/// What a process keeps of its allocations.
#[derive(Debug, Clone, Copy, PartialEq, Eq, Structural)]
pub struct AllocStats {
    /// Whether allocations are tracked.
    pub tracking: bool,
    /// The cumulative counters.
    pub counters: TrackingAlloc,
}

/// What is reported of a sampled value: zero where allocations are not tracked.
pub fn reported_bytes(tracking: bool, sample: u64) -> (res: u64)
    ensures
        res == if tracking {
            sample
        } else {
            0
        },
{
    if tracking {
        sample
    } else {
        0
    }
}

/// Calls `peak_alloc::PeakAlloc::peak_usage`, which reads a counter of the process. Nothing is
/// said of the value, which depends on everything that the process has allocated.
#[verifier::external_body]
fn peak_usage() -> usize {
    peak_alloc::PeakAlloc.peak_usage()
}

/// Calls `peak_alloc::PeakAlloc::current_usage`, which reads a counter of the process. Nothing is
/// said of the value, which depends on everything that the process has allocated.
#[verifier::external_body]
fn current_usage() -> usize {
    peak_alloc::PeakAlloc.current_usage()
}

/// Calls `peak_alloc::PeakAlloc::reset_peak_usage`, which sets one counter of the process to
/// another. Nothing is said of either.
#[verifier::external_body]
fn reset_peak_usage() {
    peak_alloc::PeakAlloc.reset_peak_usage()
}

/// Whether `sample` is what a read of the peak counter gave.
pub closed spec fn peak_sample(sample: usize) -> bool {
    call_ensures(peak_usage, (), sample)
}

/// Whether `sample` is what a read of the counter of live bytes gave.
pub closed spec fn current_sample(sample: usize) -> bool {
    call_ensures(current_usage, (), sample)
}

/// Whether the peak counter was set to the counter of live bytes once `sample` had been read.
pub closed spec fn peak_was_reset_after(sample: usize) -> bool {
    call_ensures(reset_after, (sample,), sample)
}

/// Resets the peak after `sample` was read, and hands the sample back.
fn reset_after(sample: usize) -> (res: usize)
    ensures
        res == sample,
        call_ensures(reset_peak_usage, (), ()),
{
    reset_peak_usage();
    sample
}

/// Whether allocations are tracked. The other getters return zero where they are not.
pub fn alloc_tracking_enabled(stats: &AllocStats) -> (res: bool)
    ensures
        res == stats.tracking,
{
    stats.tracking
}

/// The peak of the bytes that were live at one time, since the process started or the peak was
/// reset.
pub fn peak_native_bytes(stats: &AllocStats) -> (res: u64)
    ensures
        if stats.tracking {
            exists|sample: usize| #[trigger] peak_sample(sample) && res == sample
        } else {
            res == 0
        },
{
    if !stats.tracking {
        return 0;
    }
    let sample = peak_usage();
    assert(peak_sample(sample));
    sample as u64
}

/// The bytes that are live.
pub fn current_native_bytes(stats: &AllocStats) -> (res: u64)
    ensures
        if stats.tracking {
            exists|sample: usize| #[trigger] current_sample(sample) && res == sample
        } else {
            res == 0
        },
{
    if !stats.tracking {
        return 0;
    }
    let sample = current_usage();
    assert(current_sample(sample));
    sample as u64
}

/// Resets the peak to the bytes that are live, and returns the peak from just before. The two
/// steps are separate, so an allocation between them is lost to both.
///
/// The contract says that the peak was sampled, that it was reset after that, and that the sample is
/// what is returned. The values of the counters afterwards depend on everything that the process
/// allocates meanwhile, and it does not speak of them.
pub fn reset_peak_native_bytes(stats: &AllocStats) -> (res: u64)
    ensures
        if stats.tracking {
            exists|sample: usize| #[trigger]
                peak_sample(sample) && peak_was_reset_after(sample) && res == sample
        } else {
            res == 0
        },
{
    if !stats.tracking {
        return 0;
    }
    let previous_peak = peak_usage();
    assert(peak_sample(previous_peak));
    let sample = reset_after(previous_peak);
    assert(peak_was_reset_after(sample));
    sample as u64
}

/// The bytes that were allocated so far, at most the largest counter value. A block that gets a
/// new size counts with the new size.
pub fn total_allocated_native_bytes(stats: &AllocStats) -> (res: u64)
    ensures
        res == if stats.tracking {
            stats.counters.total_allocated
        } else {
            0
        },
{
    reported_bytes(stats.tracking, stats.counters.total_allocated)
}

/// The bytes that were freed so far, at most the largest counter value. A block that gets a new
/// size counts with the old size.
pub fn total_freed_native_bytes(stats: &AllocStats) -> (res: u64)
    ensures
        res == if stats.tracking {
            stats.counters.total_freed
        } else {
            0
        },
{
    reported_bytes(stats.tracking, stats.counters.total_freed)
}

/// A block that is allocated counts as allocated, one that is freed as freed, and one that gets a
/// new size as allocated with the new size and freed with the old one; what fails counts nothing.
pub proof fn law_what_a_call_counts(size: usize, old_size: usize, new_size: usize)
    ensures
        (AllocatorCall::Alloc { size }).adds_allocated(true) == size,
        (AllocatorCall::Alloc { size }).adds_freed(true) == 0,
        (AllocatorCall::AllocZeroed { size }).adds_allocated(true) == size,
        (AllocatorCall::AllocZeroed { size }).adds_freed(true) == 0,
        (AllocatorCall::Dealloc { size }).adds_allocated(true) == 0,
        (AllocatorCall::Dealloc { size }).adds_freed(true) == size,
        (AllocatorCall::Realloc { old_size, new_size }).adds_allocated(true) == new_size,
        (AllocatorCall::Realloc { old_size, new_size }).adds_freed(true) == old_size,
        (AllocatorCall::Alloc { size }).adds_allocated(false) == 0,
        (AllocatorCall::AllocZeroed { size }).adds_allocated(false) == 0,
        (AllocatorCall::Realloc { old_size, new_size }).adds_allocated(false) == 0,
        (AllocatorCall::Realloc { old_size, new_size }).adds_freed(false) == 0,
{
}

/// A sample of the peak is what the peak counter gave, a sample of the live bytes what the counter
/// of live bytes gave, and a reset after a sample sets the peak counter.
proof fn law_samples_are_of_their_counters(sample: usize)
    ensures
        peak_sample(sample) ==> call_ensures(peak_usage, (), sample),
        current_sample(sample) ==> call_ensures(current_usage, (), sample),
        peak_was_reset_after(sample) ==> call_ensures(reset_peak_usage, (), ()),
{
}

} // verus!
