use vstd::prelude::*;
use vstd::set_lib::set_int_range;
use crate::config::{norm_hi, AllocatorKind, DeallocFault};
use crate::strategy::{alloc_succeeds, count_step, lemma_fault_within_range, FrameAllocatorImpl,
    FrameOp};
use crate::tracker::FrameTracker;

verus! {

/// The owner of the whole frame pool: one strategy instance plus the
/// page range it was initialized with.  Exclusive access is the owner's
/// business — every mutating operation takes `&mut self`, so at most one
/// caller can be inside the registry at a time.
///
/// It is constructed once, initialized once at boot, and lives for the
/// process lifetime.
pub struct FrameRegistry {
    /// The chosen frame-allocation strategy.
    pub allocator: FrameAllocatorImpl,
    /// First page number of the initialized range.
    pub start: usize,
    /// One past the last page number of the initialized range.
    pub end: usize,
}

impl FrameRegistry {
    /// The strategy is well formed, tracks only pages of the initialized
    /// range as free, and agrees with the registry on that range.
    pub open spec fn wf(&self) -> bool {
        &&& self.start <= self.end
        &&& self.allocator.wf()
        &&& self.allocator.free_set().subset_of(
            set_int_range(self.start as int, self.end as int),
        )
        &&& self.allocator.bounds_ok(self.start as int, self.end as int)
    }

    /// Every page number of the initialized range.
    pub open spec fn range_set(&self) -> Set<int> {
        set_int_range(self.start as int, self.end as int)
    }

    /// The pages currently free.
    pub open spec fn free_set(&self) -> Set<int> {
        self.allocator.free_set()
    }

    /// How many pages are currently free.
    pub open spec fn free_count(&self) -> nat {
        self.allocator.free_count()
    }

    /// The pages currently owned by live `FrameTracker` handles: the
    /// initialized range minus the free pages.
    pub open spec fn allocated_set(&self) -> Set<int> {
        self.range_set().difference(self.free_set())
    }

    /// A registry over an empty range, with a fresh strategy of the
    /// chosen kind; `init` gives it its real range, once, at boot.
    pub fn new(kind: AllocatorKind) -> (reg: FrameRegistry)
        ensures
            reg.wf(),
            reg.allocator.is_blank(),
            reg.allocator.kind() == kind,
            reg.start == 0,
            reg.end == 0,
            reg.free_count() == 0,
    {
        FrameRegistry { allocator: FrameAllocatorImpl::new(kind), start: 0, end: 0 }
    }

    /// Adopt the page range `[l, r)`: every page of it becomes free, and
    /// an empty or inverted range yields a registry that always reports
    /// exhaustion rather than a fault.  Called exactly once, at boot.
    pub fn init(&mut self, l: usize, r: usize)
        requires
            old(self).allocator.is_blank(),
        ensures
            final(self).wf(),
            final(self).start == l,
            final(self).end == norm_hi(l as int, r as int),
            final(self).free_set() == final(self).range_set(),
            final(self).free_count() == norm_hi(l as int, r as int) - l,
    {
        self.start = l;
        self.end = if r < l {
            l
        } else {
            r
        };
        self.allocator.init(l, r);
    }

    /// Hand out one frame as an owning, zero-filled `FrameTracker`, or
    /// `None` exactly when the pool is exhausted.
    pub fn frame_alloc(&mut self) -> (r: Option<FrameTracker>)
        requires
            old(self).wf(),
        ensures
            final(self).wf(),
            final(self).start == old(self).start,
            final(self).end == old(self).end,
            r is Some <==> alloc_succeeds(old(self).free_count()),
            final(self).free_count() == count_step(old(self).free_count(), FrameOp::Alloc),
            match r {
                Some(t) => {
                    &&& t.zeroed()
                    &&& old(self).free_set().contains(t.ppn as int)
                    &&& final(self).free_set() == old(self).free_set().remove(t.ppn as int)
                    &&& final(self).allocated_set() == old(self).allocated_set().insert(
                        t.ppn as int,
                    )
                },
                None => final(self).free_set() == old(self).free_set(),
            },
    {
        match self.allocator.allocate() {
            Some(ppn) => {
                proof {
                    assert(self.allocated_set() =~= old(self).allocated_set().insert(ppn as int));
                }
                Some(FrameTracker::new(ppn))
            },
            None => None,
        }
    }

    /// Release the frame owned by `tracker`, returning its page to the
    /// pool.  The fatal fault is reported exactly when the page is not
    /// one of the registry's currently allocated pages (a double free, a
    /// foreign handle, or an uninitialized registry); the pool is then
    /// left unchanged.
    pub fn frame_dealloc(&mut self, tracker: FrameTracker) -> (r: Result<(), DeallocFault>)
        requires
            old(self).wf(),
        ensures
            final(self).wf(),
            final(self).start == old(self).start,
            final(self).end == old(self).end,
            r is Ok <==> old(self).allocated_set().contains(tracker.ppn as int),
            r is Ok ==> final(self).free_set() == old(self).free_set().insert(tracker.ppn as int)
                && final(self).allocated_set() == old(self).allocated_set().remove(
                tracker.ppn as int,
            ) && final(self).free_count() == count_step(old(self).free_count(), FrameOp::Dealloc),
            r is Err ==> final(self).free_set() == old(self).free_set() && final(self).free_count()
                == old(self).free_count(),
    {
        let ppn = tracker.ppn;
        if ppn < self.start || ppn >= self.end {
            return Err(DeallocFault);
        }
        proof {
            lemma_fault_within_range(&self.allocator, self.start as int, self.end as int, ppn);
        }
        match self.allocator.dealloc(ppn) {
            Ok(u) => {
                proof {
                    assert(self.allocated_set() =~= old(self).allocated_set().remove(ppn as int));
                }
                Ok(u)
            },
            Err(f) => Err(f),
        }
    }

    /// Count the pages currently free.
    pub fn remaining(&self) -> (n: usize)
        requires
            self.wf(),
        ensures
            n == self.free_count(),
    {
        self.allocator.remaining()
    }
}

/// No double ownership: in every well-formed registry state, the pages
/// the strategy considers free and the pages owned by live
/// `FrameTracker` handles are disjoint, and together they are exactly
/// the initialized range.  `frame_alloc` only hands out pages of the
/// free set and removes them from it, and `frame_dealloc` only accepts
/// pages of the allocated set and returns them to the free set, so every
/// alloc/dealloc sequence keeps this partition.
pub proof fn lemma_no_double_ownership(reg: &FrameRegistry)
    requires
        reg.wf(),
    ensures
        reg.free_set().disjoint(reg.allocated_set()),
        reg.free_set().union(reg.allocated_set()) == reg.range_set(),
{
    assert(reg.free_set().union(reg.allocated_set()) =~= reg.range_set());
}

} // verus!
