use vstd::prelude::*;

verus! {

/// Number of bytes in one physical page frame.
pub const PAGE_SIZE: usize = 4096;

/// Which coarse allocation model the virtual-memory layer is built on:
/// whole segments of frames, or single frames.
#[derive(Clone, Copy, Debug, PartialEq, Eq, Structural)]
pub enum MemoryAllocator {
    Segment,
    Frame,
}

/// Which frame-allocation strategy a registry is built with.  The choice
/// is made once, when the registry is constructed.
#[derive(Clone, Copy, Debug, PartialEq, Eq, Structural)]
pub enum AllocatorKind {
    Bitmap,
    Stack,
    LinkedList,
}

/// The fatal invariant-violation fault: `dealloc` was invoked on a page
/// or segment number not currently recorded as allocated (a double free,
/// a bad pointer, or an out-of-range index).  It signals memory
/// corruption elsewhere in the kernel and is never recoverable: the
/// caller must halt, not continue.
#[derive(Clone, Copy, Debug, PartialEq, Eq, Structural)]
pub struct DeallocFault;

/// Upper page number of a requested range: an inverted range (`r < l`)
/// collapses to the empty range at `l`.
pub open spec fn norm_hi(l: int, r: int) -> int {
    if r < l {
        l
    } else {
        r
    }
}

/// Page number of the page containing the byte address `addr`.
pub fn ppn_floor(addr: usize) -> (p: usize)
    ensures
        p == addr as int / PAGE_SIZE as int,
{
    addr / PAGE_SIZE
}

/// Page number of the first page boundary at or above the byte address
/// `addr`.
pub fn ppn_ceil(addr: usize) -> (p: usize)
    requires
        addr + PAGE_SIZE - 1 <= usize::MAX,
    ensures
        p == (addr + PAGE_SIZE - 1) as int / PAGE_SIZE as int,
        addr as int <= p * PAGE_SIZE,
{
    (addr + (PAGE_SIZE - 1)) / PAGE_SIZE
}

} // verus!
