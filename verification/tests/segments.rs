use frame_allocator::config::{AllocatorKind, DeallocFault};
use frame_allocator::registry::FrameRegistry;
use frame_allocator::segment_allocator::SegmentAllocator;

fn segmented_registry(pages: usize) -> SegmentAllocator {
    let mut reg = FrameRegistry::new(AllocatorKind::Stack);
    reg.init(0, pages);
    let mut sa = SegmentAllocator::new();
    sa.init(&mut reg);
    assert_eq!(reg.remaining(), 0);
    sa
}

#[test]
fn init_carves_sizes_along_the_cycle() {
    let sa = segmented_registry(7);
    let sizes: Vec<usize> = sa.segments.iter().map(|s| s.size).collect();
    assert_eq!(sizes, vec![1, 2, 4]);
    assert!(sa.bitmap.iter().all(|b| !*b));
    for seg in sa.segments.iter() {
        assert_eq!(seg.frames.len(), seg.size);
    }
}

#[test]
fn init_clamps_the_last_segment_to_what_remains() {
    let sa = segmented_registry(40);
    let sizes: Vec<usize> = sa.segments.iter().map(|s| s.size).collect();
    // 1+2+4+8+16 = 31 frames, then the cycle restarts: 1, 2, 4, and the
    // remaining 2 frames are clamped into the final segment.
    assert_eq!(sizes, vec![1, 2, 4, 8, 16, 1, 2, 4, 2]);
}

// First fit is strict: with segments of sizes [1, 2, 4], a request of
// size 2 skips the size-2 segment and matches the size-4 segment.
#[test]
fn first_fit_needs_strictly_greater_capacity() {
    let mut sa = segmented_registry(7);
    let idx = sa.allocate(2).unwrap();
    assert_eq!(idx, 2);
    assert_eq!(sa.segments[idx].size, 4);
    // An exact-size match never qualifies.
    let mut sb = segmented_registry(7);
    assert_eq!(sb.allocate(4), None);
}

#[test]
fn allocation_marks_the_segment_in_use() {
    let mut sa = segmented_registry(7);
    assert_eq!(sa.allocate(2), Some(2));
    assert!(sa.bitmap[2]);
    // The only segment larger than 2 is now in use.
    assert_eq!(sa.allocate(2), None);
    // Smaller requests still find the earlier segments, lowest index first.
    assert_eq!(sa.allocate(0), Some(0));
    assert_eq!(sa.allocate(0), Some(1));
    assert_eq!(sa.allocate(0), None);
}

#[test]
fn dealloc_frees_a_segment_for_reuse() {
    let mut sa = segmented_registry(7);
    assert_eq!(sa.allocate(2), Some(2));
    assert_eq!(sa.dealloc(2), Ok(()));
    assert_eq!(sa.allocate(2), Some(2));
}

#[test]
fn segment_double_free_is_fatal_fault() {
    let mut sa = segmented_registry(7);
    let idx = sa.allocate(1).unwrap();
    assert_eq!(sa.dealloc(idx), Ok(()));
    assert_eq!(sa.dealloc(idx), Err(DeallocFault));
    // Out-of-range indexes and never-allocated segments fault too.
    assert_eq!(sa.dealloc(99), Err(DeallocFault));
    assert_eq!(sa.dealloc(0), Err(DeallocFault));
}
