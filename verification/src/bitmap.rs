use vstd::prelude::*;
use vstd::set_lib::set_int_range;
use crate::config::{norm_hi, DeallocFault};
use crate::counting::{count_false, lemma_count_false_push, lemma_count_false_set_false,
    lemma_count_false_set_true, lemma_count_false_take_step,
    lemma_count_false_zero_iff_all_true};

verus! {

/// A frame allocator that keeps one allocation flag per page of its
/// range: `true` means allocated.  Allocation scans for the first free
/// flag, so it always hands out the lowest free page number.
pub struct BitMapFrameAllocator {
    /// One flag per page in `[start_ppn, end_ppn)`; `true` = allocated.
    pub bitmap: Vec<bool>,
    /// First page number of the managed range.
    pub start_ppn: usize,
    /// One past the last page number of the managed range.
    pub end_ppn: usize,
}

impl BitMapFrameAllocator {
    /// The flags cover the managed range exactly.
    pub open spec fn wf(&self) -> bool {
        self.start_ppn + self.bitmap@.len() == self.end_ppn
    }

    /// Not yet initialized with a range.
    pub open spec fn is_blank(&self) -> bool {
        &&& self.bitmap@.len() == 0
        &&& self.start_ppn == 0
        &&& self.end_ppn == 0
    }

    /// The page numbers currently considered free.
    pub open spec fn free_set(&self) -> Set<int> {
        Set::new(
            |p: int|
                self.start_ppn <= p < self.end_ppn && !self.bitmap@[p - self.start_ppn],
        )
    }

    /// How many pages are currently free.
    pub open spec fn free_count(&self) -> nat {
        count_false(self.bitmap@)
    }

    /// `dealloc(ppn)` takes the fatal-fault path: the page is outside the
    /// managed range or not currently allocated.
    pub open spec fn fault_on(&self, ppn: usize) -> bool {
        ||| ppn < self.start_ppn
        ||| ppn >= self.end_ppn
        ||| self.free_set().contains(ppn as int)
    }

    /// An empty, uninitialized allocator: no range, no free pages.
    pub fn new() -> (a: BitMapFrameAllocator)
        ensures
            a.wf(),
            a.is_blank(),
            a.free_count() == 0,
            a.free_set() == Set::<int>::empty(),
    {
        let a = BitMapFrameAllocator { bitmap: Vec::new(), start_ppn: 0, end_ppn: 0 };
        proof {
            assert(a.free_set() =~= Set::<int>::empty());
        }
        a
    }

    /// Adopt the page range `[l, r)` (an inverted range collapses to the
    /// empty range), with every page initially free.
    pub fn init(&mut self, l: usize, r: usize)
        requires
            old(self).is_blank(),
        ensures
            final(self).wf(),
            final(self).start_ppn == l,
            final(self).end_ppn == norm_hi(l as int, r as int),
            final(self).free_set() == set_int_range(l as int, norm_hi(l as int, r as int)),
            final(self).free_count() == norm_hi(l as int, r as int) - l,
    {
        let hi = if r < l {
            l
        } else {
            r
        };
        self.start_ppn = l;
        self.end_ppn = hi;
        let length: usize = hi - l;
        let mut i: usize = 0;
        while i < length
            invariant
                i <= length,
                self.bitmap@.len() == i,
                self.start_ppn == l,
                self.end_ppn == hi,
                count_false(self.bitmap@) == i,
                forall|j: int| 0 <= j < i ==> !self.bitmap@[j],
            decreases length - i,
        {
            proof {
                lemma_count_false_push(self.bitmap@, false);
            }
            self.bitmap.push(false);
            i = i + 1;
        }
        proof {
            assert(self.free_set() =~= set_int_range(l as int, hi as int));
        }
    }

    /// Hand out the lowest free page number, or `None` when every page is
    /// allocated.
    pub fn allocate(&mut self) -> (r: Option<usize>)
        requires
            old(self).wf(),
        ensures
            final(self).wf(),
            final(self).start_ppn == old(self).start_ppn,
            final(self).end_ppn == old(self).end_ppn,
            match r {
                Some(p) => {
                    &&& old(self).free_set().contains(p as int)
                    &&& forall|q: int| old(self).free_set().contains(q) ==> p as int <= q
                    &&& final(self).free_set() == old(self).free_set().remove(p as int)
                    &&& final(self).free_count() == old(self).free_count() - 1
                },
                None => {
                    &&& *final(self) == *old(self)
                    &&& old(self).free_count() == 0
                },
            },
    {
        let length = self.bitmap.len();
        let mut i: usize = 0;
        while i < length
            invariant
                self == old(self),
                self.wf(),
                length == self.bitmap@.len(),
                i <= length,
                forall|j: int| 0 <= j < i ==> self.bitmap@[j],
            decreases length - i,
        {
            if !self.bitmap[i] {
                proof {
                    lemma_count_false_set_true(self.bitmap@, i as int);
                }
                self.bitmap[i] = true;
                let p = self.start_ppn + i;
                proof {
                    assert(self.free_set() =~= old(self).free_set().remove(p as int));
                }
                return Some(p);
            }
            i = i + 1;
        }
        proof {
            lemma_count_false_zero_iff_all_true(self.bitmap@);
        }
        None
    }

    /// Take back page `ppn`.  The fatal fault is reported when the page
    /// is outside the range or was not currently allocated (a double
    /// free); the allocator is then left unchanged.
    pub fn dealloc(&mut self, ppn: usize) -> (r: Result<(), DeallocFault>)
        requires
            old(self).wf(),
        ensures
            final(self).wf(),
            final(self).start_ppn == old(self).start_ppn,
            final(self).end_ppn == old(self).end_ppn,
            r is Err <==> old(self).fault_on(ppn),
            r is Err ==> *final(self) == *old(self),
            r is Ok ==> final(self).free_set() == old(self).free_set().insert(ppn as int)
                && final(self).free_count() == old(self).free_count() + 1,
    {
        if ppn < self.start_ppn || ppn >= self.end_ppn {
            return Err(DeallocFault);
        }
        let index = ppn - self.start_ppn;
        if self.bitmap[index] {
            proof {
                lemma_count_false_set_false(self.bitmap@, index as int);
            }
            self.bitmap[index] = false;
            proof {
                assert(self.free_set() =~= old(self).free_set().insert(ppn as int));
            }
            Ok(())
        } else {
            Err(DeallocFault)
        }
    }

    /// Count the pages currently free: the `false` flags.
    pub fn remaining(&self) -> (n: usize)
        ensures
            n == self.free_count(),
    {
        let length = self.bitmap.len();
        let mut n: usize = 0;
        let mut i: usize = 0;
        while i < length
            invariant
                length == self.bitmap@.len(),
                i <= length,
                n <= i,
                n == count_false(self.bitmap@.take(i as int)),
            decreases length - i,
        {
            proof {
                lemma_count_false_take_step(self.bitmap@, i as int);
            }
            if !self.bitmap[i] {
                n = n + 1;
            }
            i = i + 1;
        }
        proof {
            assert(self.bitmap@.take(length as int) =~= self.bitmap@);
        }
        n
    }
}

} // verus!
