use vstd::prelude::*;
use vstd::set_lib::set_int_range;
use crate::config::{norm_hi, DeallocFault};
use crate::list::List;

verus! {

/// A frame allocator that keeps an explicit free sequence of page
/// numbers.  Allocation removes the tail element and deallocation
/// appends, so freed pages are reused last-in, first-out.
pub struct LinkedListAllocator {
    /// The free pages, in insertion order.
    pub list: List<usize>,
}

impl LinkedListAllocator {
    /// No page appears on the free sequence twice.
    pub open spec fn wf(&self) -> bool {
        self.list@.no_duplicates()
    }

    /// Not yet initialized with a range.
    pub open spec fn is_blank(&self) -> bool {
        self.list@.len() == 0
    }

    /// The page numbers currently considered free.
    pub open spec fn free_set(&self) -> Set<int> {
        Set::new(|p: int| 0 <= p <= usize::MAX && self.list@.contains(p as usize))
    }

    /// How many pages are currently free.
    pub open spec fn free_count(&self) -> nat {
        self.list@.len()
    }

    /// `dealloc(ppn)` takes the fatal-fault path: the page is already on
    /// the free sequence (a double free).
    pub open spec fn fault_on(&self, ppn: usize) -> bool {
        self.list@.contains(ppn)
    }

    /// An empty, uninitialized allocator: no range, no free pages.
    pub fn new() -> (a: LinkedListAllocator)
        ensures
            a.wf(),
            a.is_blank(),
            a.free_count() == 0,
            a.free_set() == Set::<int>::empty(),
    {
        let a = LinkedListAllocator { list: List::new() };
        proof {
            assert(a.free_set() =~= Set::<int>::empty());
        }
        a
    }

    /// Adopt the page range `[l, r)` (an inverted range collapses to the
    /// empty range), pushing every page in ascending order, so the tail —
    /// the first page handed out — is the highest page number.
    pub fn init(&mut self, l: usize, r: usize)
        requires
            old(self).is_blank(),
        ensures
            final(self).wf(),
            final(self).list@.len() == norm_hi(l as int, r as int) - l,
            forall|j: int|
                0 <= j < final(self).list@.len() ==> final(self).list@[j] == l + j,
            final(self).free_set() == set_int_range(l as int, norm_hi(l as int, r as int)),
            final(self).free_count() == norm_hi(l as int, r as int) - l,
    {
        let hi = if r < l {
            l
        } else {
            r
        };
        let mut i: usize = l;
        while i < hi
            invariant
                l <= i <= hi,
                self.list@.len() == i - l,
                forall|j: int| 0 <= j < self.list@.len() ==> self.list@[j] == l + j,
            decreases hi - i,
        {
            self.list.push(i);
            i = i + 1;
        }
        proof {
            assert forall|a: int, b: int|
                0 <= a < self.list@.len() && 0 <= b < self.list@.len() && a != b implies self.list@[a]
                != self.list@[b] by {}
            assert forall|p: int| l <= p < hi implies #[trigger] self.list@.contains(p as usize) by {
                assert(self.list@[p - l] == p as usize);
            }
            assert forall|p: int|
                0 <= p <= usize::MAX && #[trigger] self.list@.contains(p as usize) implies l <= p
                < hi by {
                let k = choose|k: int| 0 <= k < self.list@.len() && self.list@[k] == p as usize;
                assert(self.list@[k] == l + k);
            }
            assert(self.free_set() =~= set_int_range(l as int, hi as int));
        }
    }

    /// Hand out the tail of the free sequence — the most recently freed
    /// page, or at first the highest page of the range — or `None` when
    /// the sequence is empty.
    pub fn allocate(&mut self) -> (r: Option<usize>)
        requires
            old(self).wf(),
        ensures
            final(self).wf(),
            match r {
                Some(p) => {
                    &&& old(self).free_set().contains(p as int)
                    &&& p == old(self).list@.last()
                    &&& final(self).list@ == old(self).list@.drop_last()
                    &&& final(self).free_set() == old(self).free_set().remove(p as int)
                    &&& final(self).free_count() == old(self).free_count() - 1
                },
                None => {
                    &&& *final(self) == *old(self)
                    &&& old(self).free_count() == 0
                },
            },
    {
        if self.list.len() == 0 {
            return None;
        }
        let p = *self.list.get_last_value().unwrap();
        self.list.pop();
        proof {
            let s = old(self).list@;
            assert(s.contains(p)) by {
                assert(s[s.len() - 1] == p);
            }
            assert forall|i: int, j: int|
                0 <= i < self.list@.len() && 0 <= j < self.list@.len() && i != j implies self.list@[i]
                != self.list@[j] by {
                assert(s[i] == self.list@[i]);
                assert(s[j] == self.list@[j]);
            }
            assert(self.list@.no_duplicates());
            assert forall|x: usize| self.list@.contains(x) implies s.contains(x) && x != p by {
                let i = choose|i: int| 0 <= i < self.list@.len() && self.list@[i] == x;
                assert(s[i] == x);
                assert(s[s.len() - 1] == p);
            }
            assert forall|x: usize| s.contains(x) && x != p implies self.list@.contains(x) by {
                let i = choose|i: int| 0 <= i < s.len() && s[i] == x;
                assert(i < s.len() - 1);
                assert(self.list@[i] == x);
            }
            assert(self.free_set() =~= old(self).free_set().remove(p as int));
        }
        Some(p)
    }

    /// Take back page `ppn`, appending it to the free sequence.  The
    /// fatal fault is reported when the page is already free (a double
    /// free); the allocator is then left unchanged.
    pub fn dealloc(&mut self, ppn: usize) -> (r: Result<(), DeallocFault>)
        requires
            old(self).wf(),
        ensures
            final(self).wf(),
            r is Err <==> old(self).fault_on(ppn),
            r is Err ==> *final(self) == *old(self),
            r is Ok ==> final(self).list@ == old(self).list@.push(ppn)
                && final(self).free_set() == old(self).free_set().insert(ppn as int)
                && final(self).free_count() == old(self).free_count() + 1,
    {
        let n = self.list.len();
        let mut i: usize = 0;
        while i < n
            invariant
                self == old(self),
                self.wf(),
                n == self.list@.len(),
                i <= n,
                forall|j: int| 0 <= j < i ==> self.list@[j] != ppn,
            decreases n - i,
        {
            if self.list.elems[i] == ppn {
                return Err(DeallocFault);
            }
            i = i + 1;
        }
        proof {
            assert(!old(self).list@.contains(ppn));
        }
        self.list.push(ppn);
        proof {
            let s = old(self).list@;
            assert forall|x: usize| self.list@.contains(x) implies s.contains(x) || x == ppn by {
                let k = choose|k: int| 0 <= k < self.list@.len() && self.list@[k] == x;
                if k < s.len() {
                    assert(s[k] == x);
                }
            }
            assert forall|x: usize| s.contains(x) implies self.list@.contains(x) by {
                let k = choose|k: int| 0 <= k < s.len() && s[k] == x;
                assert(self.list@[k] == x);
            }
            assert(self.list@.contains(ppn)) by {
                assert(self.list@[s.len() as int] == ppn);
            }
            assert(self.free_set() =~= old(self).free_set().insert(ppn as int));
        }
        Ok(())
    }

    /// Count the pages currently free: the length of the free sequence.
    pub fn remaining(&self) -> (n: usize)
        ensures
            n == self.free_count(),
    {
        self.list.len()
    }
}

} // verus!
