use vstd::prelude::*;
use vstd::set_lib::{lemma_len_subset, set_int_range};
use vstd::set_lib::lemma_int_range;
use crate::config::{norm_hi, DeallocFault};

verus! {

/// A frame allocator with a never-yet-used watermark and a recycle
/// stack: freed pages are pushed and reused last-in, first-out, which
/// favours pages that were touched recently.
pub struct StackFrameAllocator {
    /// The next never-yet-used page number.
    pub current: usize,
    /// One past the last page number of the managed range.
    pub end: usize,
    /// Pages freed and not yet reused, in the order they were freed.
    pub recycled: Vec<usize>,
}

/// A duplicate-free sequence of values below `bound` has at most `bound`
/// entries.
proof fn lemma_nodup_below_len_le(s: Seq<usize>, bound: usize)
    requires
        s.no_duplicates(),
        forall|i: int| 0 <= i < s.len() ==> s[i] < bound,
    ensures
        s.len() <= bound,
{
    let ints = s.map_values(|x: usize| x as int);
    assert(ints.no_duplicates());
    ints.unique_seq_to_set();
    assert forall|p: int| ints.to_set().contains(p) implies set_int_range(
        0,
        bound as int,
    ).contains(p) by {
        let i = choose|i: int| 0 <= i < ints.len() && ints[i] == p;
        assert(s[i] < bound);
    }
    lemma_int_range(0, bound as int);
    lemma_len_subset(ints.to_set(), set_int_range(0, bound as int));
}

impl StackFrameAllocator {
    /// The watermark has not passed the end, and the recycle stack holds
    /// no duplicates and only pages below the watermark.
    pub open spec fn wf(&self) -> bool {
        &&& self.current <= self.end
        &&& self.recycled@.no_duplicates()
        &&& forall|i: int| 0 <= i < self.recycled@.len() ==> self.recycled@[i] < self.current
    }

    /// Not yet initialized with a range.
    pub open spec fn is_blank(&self) -> bool {
        &&& self.current == 0
        &&& self.end == 0
        &&& self.recycled@.len() == 0
    }

    /// The page numbers currently considered free: the recycle stack plus
    /// everything from the watermark up.
    pub open spec fn free_set(&self) -> Set<int> {
        Set::new(
            |p: int|
                (self.current <= p < self.end) || (0 <= p <= usize::MAX && self.recycled@.contains(
                    p as usize,
                )),
        )
    }

    /// How many pages are currently free.
    pub open spec fn free_count(&self) -> nat {
        (self.recycled@.len() + self.end - self.current) as nat
    }

    /// `dealloc(ppn)` takes the fatal-fault path: the page is at or above
    /// the watermark (never handed out, or out of range) or already on
    /// the recycle stack (a double free).
    pub open spec fn fault_on(&self, ppn: usize) -> bool {
        ppn >= self.current || self.recycled@.contains(ppn)
    }

    /// An empty, uninitialized allocator: no range, no free pages.
    pub fn new() -> (a: StackFrameAllocator)
        ensures
            a.wf(),
            a.is_blank(),
            a.free_count() == 0,
            a.free_set() == Set::<int>::empty(),
    {
        let a = StackFrameAllocator { current: 0, end: 0, recycled: Vec::new() };
        proof {
            assert(a.free_set() =~= Set::<int>::empty());
        }
        a
    }

    /// Adopt the page range `[l, r)` (an inverted range collapses to the
    /// empty range), with every page initially free.
    pub fn init(&mut self, l: usize, r: usize)
        requires
            old(self).is_blank(),
        ensures
            final(self).wf(),
            final(self).current == l,
            final(self).end == norm_hi(l as int, r as int),
            final(self).recycled@.len() == 0,
            final(self).free_set() == set_int_range(l as int, norm_hi(l as int, r as int)),
            final(self).free_count() == norm_hi(l as int, r as int) - l,
    {
        self.current = l;
        self.end = if r < l {
            l
        } else {
            r
        };
        proof {
            assert(self.free_set() =~= set_int_range(l as int, self.end as int));
        }
    }

    /// Hand out a free page number, preferring the most recently recycled
    /// page and falling back to bumping the watermark; `None` when the
    /// pool is exhausted.
    pub fn allocate(&mut self) -> (r: Option<usize>)
        requires
            old(self).wf(),
        ensures
            final(self).wf(),
            final(self).end == old(self).end,
            final(self).current >= old(self).current,
            match r {
                Some(p) => {
                    &&& old(self).free_set().contains(p as int)
                    &&& final(self).free_set() == old(self).free_set().remove(p as int)
                    &&& final(self).free_count() == old(self).free_count() - 1
                    &&& old(self).recycled@.len() > 0 ==> p == old(self).recycled@.last()
                        && final(self).recycled@ == old(self).recycled@.drop_last()
                        && final(self).current == old(self).current
                    &&& old(self).recycled@.len() == 0 ==> p == old(self).current
                        && final(self).current == old(self).current + 1
                        && final(self).recycled@ == old(self).recycled@
                },
                None => {
                    &&& *final(self) == *old(self)
                    &&& old(self).free_count() == 0
                },
            },
    {
        if self.recycled.len() > 0 {
            let ppn = self.recycled.pop().unwrap();
            proof {
                let s = old(self).recycled@;
                assert(s.contains(ppn)) by {
                    assert(s[s.len() - 1] == ppn);
                }
                assert(old(self).free_set().contains(ppn as int));
                assert forall|i: int, j: int|
                    0 <= i < self.recycled@.len() && 0 <= j < self.recycled@.len() && i
                        != j implies self.recycled@[i] != self.recycled@[j] by {
                    assert(s[i] == self.recycled@[i]);
                    assert(s[j] == self.recycled@[j]);
                }
                assert(self.recycled@.no_duplicates());
                assert forall|i: int| 0 <= i < self.recycled@.len() implies self.recycled@[i]
                    < self.current by {
                    assert(s[i] == self.recycled@[i]);
                }
                assert forall|x: usize| self.recycled@.contains(x) implies s.contains(x) && x
                    != ppn by {
                    let i = choose|i: int| 0 <= i < self.recycled@.len() && self.recycled@[i] == x;
                    assert(s[i] == x);
                    assert(s[s.len() - 1] == ppn);
                }
                assert forall|x: usize| s.contains(x) && x != ppn implies
                    self.recycled@.contains(x) by {
                    let i = choose|i: int| 0 <= i < s.len() && s[i] == x;
                    assert(i < s.len() - 1);
                    assert(self.recycled@[i] == x);
                }
                assert(self.free_set() =~= old(self).free_set().remove(ppn as int));
            }
            Some(ppn)
        } else if self.current == self.end {
            None
        } else {
            let p = self.current;
            self.current = self.current + 1;
            proof {
                assert(!old(self).recycled@.contains(p));
                assert(self.free_set() =~= old(self).free_set().remove(p as int));
            }
            Some(p)
        }
    }

    /// Take back page `ppn`, pushing it on the recycle stack.  The fatal
    /// fault is reported when the page is at or above the watermark or
    /// already recycled (a double free); the allocator is then left
    /// unchanged.
    pub fn dealloc(&mut self, ppn: usize) -> (r: Result<(), DeallocFault>)
        requires
            old(self).wf(),
        ensures
            final(self).wf(),
            final(self).current == old(self).current,
            final(self).end == old(self).end,
            r is Err <==> old(self).fault_on(ppn),
            r is Err ==> *final(self) == *old(self),
            r is Ok ==> final(self).free_set() == old(self).free_set().insert(ppn as int)
                && final(self).free_count() == old(self).free_count() + 1
                && final(self).recycled@ == old(self).recycled@.push(ppn),
    {
        if ppn >= self.current {
            return Err(DeallocFault);
        }
        let n = self.recycled.len();
        let mut i: usize = 0;
        while i < n
            invariant
                self == old(self),
                self.wf(),
                n == self.recycled@.len(),
                i <= n,
                forall|j: int| 0 <= j < i ==> self.recycled@[j] != ppn,
            decreases n - i,
        {
            if self.recycled[i] == ppn {
                return Err(DeallocFault);
            }
            i = i + 1;
        }
        proof {
            assert(!old(self).recycled@.contains(ppn));
        }
        self.recycled.push(ppn);
        proof {
            let s = old(self).recycled@;
            assert forall|x: usize| self.recycled@.contains(x) implies s.contains(x) || x
                == ppn by {
                let k = choose|k: int| 0 <= k < self.recycled@.len() && self.recycled@[k] == x;
                if k < s.len() {
                    assert(s[k] == x);
                }
            }
            assert forall|x: usize| s.contains(x) implies self.recycled@.contains(x) by {
                let k = choose|k: int| 0 <= k < s.len() && s[k] == x;
                assert(self.recycled@[k] == x);
            }
            assert(self.recycled@.contains(ppn)) by {
                assert(self.recycled@[s.len() as int] == ppn);
            }
            assert(self.free_set() =~= old(self).free_set().insert(ppn as int));
        }
        Ok(())
    }

    /// Count the pages currently free: the recycle stack plus the pages
    /// the watermark has not reached.
    pub fn remaining(&self) -> (n: usize)
        requires
            self.wf(),
        ensures
            n == self.free_count(),
    {
        proof {
            lemma_nodup_below_len_le(self.recycled@, self.current);
        }
        self.recycled.len() + (self.end - self.current)
    }

    /// Bytes of bookkeeping held by the recycle stack, at one machine
    /// word per entry.
    pub fn get_size(&self) -> (n: usize)
        requires
            self.recycled@.len() * 8 <= usize::MAX,
        ensures
            n == self.recycled@.len() * 8,
    {
        self.recycled.len() * 8
    }
}

} // verus!
