use vstd::prelude::*;
use crate::config::PAGE_SIZE;

verus! {

/// An owning handle over exactly one allocated physical page frame.
///
/// A `FrameTracker` is created only by a successful allocation and is
/// move-only (it is deliberately not `Clone`): copying it would create
/// two simultaneous owners of the same page.  It is released exactly
/// once, by handing it back to the registry that issued it.
pub struct FrameTracker {
    /// The page number this handle owns.
    pub ppn: usize,
    /// The contents of the owned page, one entry per byte.
    pub page: Vec<u8>,
}

impl FrameTracker {
    /// Every byte of the owned page reads as zero.
    pub open spec fn zeroed(&self) -> bool {
        &&& self.page@.len() == PAGE_SIZE
        &&& forall|i: int| 0 <= i < self.page@.len() ==> self.page@[i] == 0u8
    }

    /// Acquire ownership of page `ppn`.  Every byte of the page is
    /// zero-filled, so a caller can never observe residual contents of a
    /// previous use of the frame.
    pub fn new(ppn: usize) -> (t: FrameTracker)
        ensures
            t.ppn == ppn,
            t.zeroed(),
    {
        let mut page: Vec<u8> = Vec::new();
        let mut i: usize = 0;
        while i < PAGE_SIZE
            invariant
                i <= PAGE_SIZE,
                page@.len() == i,
                forall|j: int| 0 <= j < i ==> page@[j] == 0u8,
            decreases PAGE_SIZE - i,
        {
            page.push(0u8);
            i = i + 1;
        }
        FrameTracker { ppn, page }
    }
}

} // verus!
