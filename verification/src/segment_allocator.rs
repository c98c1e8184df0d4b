use vstd::prelude::*;
use crate::config::DeallocFault;
use crate::registry::FrameRegistry;
use crate::tracker::FrameTracker;

verus! {

/// An ownership group of `size` frames allocated together as one
/// coarser unit.  The frames need not be physically contiguous; the
/// group owns them jointly.
pub struct Segment {
    /// How many frames the group holds.
    pub size: usize,
    /// The owned frames.
    pub frames: Vec<FrameTracker>,
}

/// A handle identifying one segment by its index.
pub struct SegmentTracker {
    /// Index of the identified segment.
    pub seg_index: usize,
}

/// The geometric cycle of segment sizes: position `i` of the cycle asks
/// for 1, 2, 4, 8 or 16 frames.
pub open spec fn size_cycle(i: int) -> nat {
    if i % 5 == 0 {
        1
    } else if i % 5 == 1 {
        2
    } else if i % 5 == 2 {
        4
    } else if i % 5 == 3 {
        8
    } else {
        16
    }
}

/// The sizes of the segments carved out of `remaining` frames starting
/// at position `idx` of the cycle: each segment takes the next cycle
/// size, clamped to what remains, until nothing remains.
pub open spec fn segment_sizes(remaining: nat, idx: int) -> Seq<nat>
    decreases remaining,
{
    if remaining == 0 {
        Seq::empty()
    } else {
        let s: nat = if size_cycle(idx) < remaining {
            size_cycle(idx)
        } else {
            remaining
        };
        seq![s] + segment_sizes((remaining - s) as nat, idx + 1)
    }
}

/// Position `i` of the size cycle, as a machine integer.
fn cycle_size(i: usize) -> (s: usize)
    ensures
        s as nat == size_cycle(i as int),
        1 <= s <= 16,
{
    let m = i % 5;
    if m == 0 {
        1
    } else if m == 1 {
        2
    } else if m == 2 {
        4
    } else if m == 3 {
        8
    } else {
        16
    }
}

/// The page numbers of the frames in `frames`, in order.
pub open spec fn frame_ppns(frames: Seq<FrameTracker>) -> Seq<int> {
    frames.map_values(|t: FrameTracker| t.ppn as int)
}

/// The page numbers of every frame owned by `segs`, segment by segment.
pub open spec fn seg_ppns(segs: Seq<Segment>) -> Seq<int>
    decreases segs.len(),
{
    if segs.len() == 0 {
        Seq::empty()
    } else {
        seg_ppns(segs.drop_last()) + frame_ppns(segs.last().frames@)
    }
}

/// An ordered sequence of segments plus a parallel in-use bitmap, built
/// once by draining the frame registry, then serving first-fit requests
/// for multi-frame ownership groups.
pub struct SegmentAllocator {
    /// The segments, in the order they were carved.
    pub segments: Vec<Segment>,
    /// One in-use flag per segment; `true` = handed out.
    pub bitmap: Vec<bool>,
}

impl SegmentAllocator {
    /// The sizes of the segments, in order.
    pub open spec fn sizes(&self) -> Seq<nat> {
        self.segments@.map_values(|s: Segment| s.size as nat)
    }

    /// One flag per segment, and every segment holds exactly the frames
    /// its size announces.
    pub open spec fn wf(&self) -> bool {
        &&& self.bitmap@.len() == self.segments@.len()
        &&& forall|i: int|
            0 <= i < self.segments@.len() ==> (#[trigger] self.segments@[i]).frames@.len()
                == self.segments@[i].size
    }

    /// Not yet initialized: no segments carved.
    pub open spec fn is_blank(&self) -> bool {
        &&& self.segments@.len() == 0
        &&& self.bitmap@.len() == 0
    }

    /// An empty segment allocator; `init` carves its segments.
    pub fn new() -> (a: SegmentAllocator)
        ensures
            a.wf(),
            a.is_blank(),
    {
        SegmentAllocator { segments: Vec::new(), bitmap: Vec::new() }
    }

    /// Drain every remaining frame of `reg` into segments: the sizes
    /// follow the cycle 1, 2, 4, 8, 16, each clamped to what remains, and
    /// every segment starts not in use.  The registry is left exhausted.
    pub fn init(&mut self, reg: &mut FrameRegistry)
        requires
            old(self).is_blank(),
            old(reg).wf(),
        ensures
            final(reg).wf(),
            final(reg).free_count() == 0,
            final(reg).free_set() == Set::<int>::empty(),
            final(self).wf(),
            final(self).sizes() == segment_sizes(old(reg).free_count(), 0),
            final(self).bitmap@.len() == final(self).segments@.len(),
            forall|i: int| 0 <= i < final(self).bitmap@.len() ==> !final(self).bitmap@[i],
            forall|i: int, j: int|
                0 <= i < final(self).segments@.len() && 0 <= j
                    < final(self).segments@[i].frames@.len() ==> old(reg).free_set().contains(
                    (#[trigger] final(self).segments@[i].frames@[j]).ppn as int,
                ) && final(self).segments@[i].frames@[j].zeroed(),
            seg_ppns(final(self).segments@).no_duplicates(),
            seg_ppns(final(self).segments@).to_set() == old(reg).free_set(),
    {
        let ghost total = old(reg).free_count();
        let mut remaining = reg.remaining();
        let mut count: usize = 0;
        proof {
            assert(seg_ppns(self.segments@).to_set() =~= Set::<int>::empty());
            assert(seg_ppns(self.segments@).to_set().union(reg.free_set()) =~= reg.free_set());
        }
        while remaining > 0
            invariant
                reg.wf(),
                self.wf(),
                remaining == reg.free_count(),
                count == self.segments@.len(),
                count <= total - remaining,
                total <= usize::MAX,
                forall|i: int| 0 <= i < self.bitmap@.len() ==> !self.bitmap@[i],
                reg.free_set().subset_of(old(reg).free_set()),
                forall|i: int, j: int|
                    0 <= i < self.segments@.len() && 0 <= j
                        < self.segments@[i].frames@.len() ==> old(reg).free_set().contains(
                        (#[trigger] self.segments@[i].frames@[j]).ppn as int,
                    ) && self.segments@[i].frames@[j].zeroed(),
                seg_ppns(self.segments@).no_duplicates(),
                seg_ppns(self.segments@).to_set().disjoint(reg.free_set()),
                seg_ppns(self.segments@).to_set().union(reg.free_set()) == old(reg).free_set(),
                self.sizes() + segment_sizes(remaining as nat, count as int) == segment_sizes(
                    total,
                    0,
                ),
            decreases remaining,
        {
            let sz = cycle_size(count);
            let size = if sz < remaining {
                sz
            } else {
                remaining
            };
            let mut frames: Vec<FrameTracker> = Vec::new();
            let mut j: usize = 0;
            proof {
                assert(frame_ppns(frames@).to_set() =~= Set::<int>::empty());
                assert(seg_ppns(self.segments@).to_set().union(frame_ppns(frames@).to_set()).union(
                    reg.free_set(),
                ) =~= seg_ppns(self.segments@).to_set().union(reg.free_set()));
            }
            while j < size
                invariant
                    reg.wf(),
                    size <= remaining,
                    j <= size,
                    reg.free_count() == remaining - j,
                    frames@.len() == j,
                    reg.free_set().subset_of(old(reg).free_set()),
                    forall|k: int|
                        0 <= k < frames@.len() ==> old(reg).free_set().contains(
                            (#[trigger] frames@[k]).ppn as int,
                        ) && frames@[k].zeroed(),
                    frame_ppns(frames@).no_duplicates(),
                    frame_ppns(frames@).to_set().disjoint(reg.free_set()),
                    seg_ppns(self.segments@).to_set().disjoint(reg.free_set()),
                    seg_ppns(self.segments@).to_set().disjoint(frame_ppns(frames@).to_set()),
                    seg_ppns(self.segments@).to_set().union(frame_ppns(frames@).to_set()).union(
                        reg.free_set(),
                    ) == old(reg).free_set(),
                decreases size - j,
            {
                let ghost pre = frames@;
                let f = reg.frame_alloc().unwrap();
                let ghost p = f.ppn as int;
                frames.push(f);
                proof {
                    assert(frame_ppns(frames@) =~= frame_ppns(pre).push(p));
                    frame_ppns(pre).lemma_push_to_set_commute(p);
                    assert(!frame_ppns(pre).to_set().contains(p));
                    assert(frame_ppns(pre).push(p) =~= frame_ppns(pre) + seq![p]);
                    vstd::seq_lib::lemma_no_dup_in_concat(frame_ppns(pre), seq![p]);
                    assert(seg_ppns(self.segments@).to_set().union(
                        frame_ppns(frames@).to_set(),
                    ).union(reg.free_set()) =~= old(reg).free_set());
                }
                j = j + 1;
            }
            let ghost pre_sizes = self.sizes();
            let ghost pre_segs = self.segments@;
            let ghost fr = frames@;
            self.segments.push(Segment { size, frames });
            self.bitmap.push(false);
            proof {
                assert(self.sizes() =~= pre_sizes.push(size as nat));
                assert(seq![size as nat] + segment_sizes((remaining - size) as nat, count + 1)
                    == segment_sizes(remaining as nat, count as int));
                assert(pre_sizes.push(size as nat) + segment_sizes(
                    (remaining - size) as nat,
                    count + 1,
                ) =~= pre_sizes + segment_sizes(remaining as nat, count as int));
                assert(self.segments@.drop_last() =~= pre_segs);
                assert(seg_ppns(self.segments@) == seg_ppns(pre_segs) + frame_ppns(fr));
                assert forall|a: int, b: int|
                    0 <= a < seg_ppns(pre_segs).len() && 0 <= b
                        < frame_ppns(fr).len() implies seg_ppns(pre_segs)[a] != frame_ppns(
                    fr,
                )[b] by {
                    assert(seg_ppns(pre_segs).to_set().contains(seg_ppns(pre_segs)[a]));
                    assert(frame_ppns(fr).to_set().contains(frame_ppns(fr)[b]));
                }
                vstd::seq_lib::lemma_no_dup_in_concat(seg_ppns(pre_segs), frame_ppns(fr));
                vstd::seq_lib::seq_to_set_distributes_over_add(seg_ppns(pre_segs), frame_ppns(fr));
                assert(seg_ppns(self.segments@).to_set().union(reg.free_set()) =~= old(
                    reg,
                ).free_set());
            }
            remaining = remaining - size;
            count = count + 1;
        }
        proof {
            assert(self.sizes() + segment_sizes(0, count as int) =~= self.sizes());
            crate::strategy::lemma_exhausted_free_set_empty(&reg.allocator);
            assert(seg_ppns(self.segments@).to_set() =~= old(reg).free_set());
        }
    }

    /// First fit: hand out the lowest-indexed segment that is not in use
    /// and whose capacity strictly exceeds `alloc_size`, marking it in
    /// use; `None` when no segment qualifies.  A segment whose size
    /// equals the request exactly is deliberately not matched.
    pub fn allocate(&mut self, alloc_size: usize) -> (r: Option<usize>)
        requires
            old(self).wf(),
        ensures
            final(self).wf(),
            final(self).segments@ == old(self).segments@,
            match r {
                Some(i) => {
                    &&& i < old(self).segments@.len()
                    &&& !old(self).bitmap@[i as int]
                    &&& old(self).segments@[i as int].size > alloc_size
                    &&& forall|j: int|
                        0 <= j < i ==> !(old(self).segments@[j].size > alloc_size && !old(
                            self,
                        ).bitmap@[j])
                    &&& final(self).bitmap@ == old(self).bitmap@.update(i as int, true)
                },
                None => {
                    &&& *final(self) == *old(self)
                    &&& forall|j: int|
                        0 <= j < old(self).segments@.len() ==> !(old(self).segments@[j].size
                            > alloc_size && !old(self).bitmap@[j])
                },
            },
    {
        let n = self.segments.len();
        let mut idx: usize = 0;
        while idx < n
            invariant
                self == old(self),
                self.wf(),
                n == self.segments@.len(),
                idx <= n,
                forall|j: int|
                    0 <= j < idx ==> !(self.segments@[j].size > alloc_size && !self.bitmap@[j]),
            decreases n - idx,
        {
            if self.segments[idx].size > alloc_size && !self.bitmap[idx] {
                self.bitmap[idx] = true;
                return Some(idx);
            }
            idx = idx + 1;
        }
        None
    }

    /// Release segment `seg_index` for reuse.  The fatal fault is
    /// reported when the index is out of range or the segment is not in
    /// use (a double free); the allocator is then left unchanged.
    pub fn dealloc(&mut self, seg_index: usize) -> (r: Result<(), DeallocFault>)
        requires
            old(self).wf(),
        ensures
            final(self).wf(),
            final(self).segments@ == old(self).segments@,
            r is Err <==> (seg_index >= old(self).bitmap@.len() || !old(self).bitmap@[
                seg_index as int
            ]),
            r is Err ==> *final(self) == *old(self),
            r is Ok ==> final(self).bitmap@ == old(self).bitmap@.update(seg_index as int, false),
    {
        if seg_index >= self.bitmap.len() {
            return Err(DeallocFault);
        }
        if self.bitmap[seg_index] {
            self.bitmap[seg_index] = false;
            Ok(())
        } else {
            Err(DeallocFault)
        }
    }
}

} // verus!
