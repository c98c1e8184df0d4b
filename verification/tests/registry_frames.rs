use frame_allocator::config::{ppn_ceil, ppn_floor, AllocatorKind, DeallocFault, PAGE_SIZE};
use frame_allocator::registry::FrameRegistry;
use frame_allocator::tracker::FrameTracker;

#[test]
fn tracker_new_zeroes_every_byte() {
    let t = FrameTracker::new(7);
    assert_eq!(t.ppn, 7);
    assert_eq!(t.page.len(), PAGE_SIZE);
    assert!(t.page.iter().all(|b| *b == 0));
}

#[test]
fn registry_allocation_zeroes_the_page() {
    let mut reg = FrameRegistry::new(AllocatorKind::Stack);
    reg.init(0, 2);
    let t = reg.frame_alloc().unwrap();
    assert_eq!(t.page.len(), PAGE_SIZE);
    assert!(t.page.iter().all(|b| *b == 0));
}

#[test]
fn registry_exhaustion_boundary() {
    let mut reg = FrameRegistry::new(AllocatorKind::Bitmap);
    reg.init(3, 7);
    assert_eq!(reg.remaining(), 4);
    let mut held = Vec::new();
    for _ in 0..4 {
        held.push(reg.frame_alloc().unwrap());
    }
    assert!(reg.frame_alloc().is_none());
    let t = held.pop().unwrap();
    assert_eq!(reg.frame_dealloc(t), Ok(()));
    assert!(reg.frame_alloc().is_some());
    assert!(reg.frame_alloc().is_none());
}

#[test]
fn registry_rejects_double_free_and_foreign_handles() {
    let mut reg = FrameRegistry::new(AllocatorKind::LinkedList);
    reg.init(0, 3);
    let t = reg.frame_alloc().unwrap();
    let ppn = t.ppn;
    assert_eq!(reg.frame_dealloc(t), Ok(()));
    // A second handle over the same (now free) page: the double free.
    let forged = FrameTracker::new(ppn);
    assert_eq!(reg.frame_dealloc(forged), Err(DeallocFault));
    // A handle over a page outside the range.
    let foreign = FrameTracker::new(100);
    assert_eq!(reg.frame_dealloc(foreign), Err(DeallocFault));
}

#[test]
fn registry_over_empty_or_inverted_range_is_exhausted() {
    let mut reg = FrameRegistry::new(AllocatorKind::Stack);
    reg.init(9, 4);
    assert_eq!(reg.remaining(), 0);
    assert!(reg.frame_alloc().is_none());
}

#[test]
fn page_number_rounding() {
    assert_eq!(ppn_floor(0), 0);
    assert_eq!(ppn_floor(PAGE_SIZE - 1), 0);
    assert_eq!(ppn_floor(PAGE_SIZE), 1);
    assert_eq!(ppn_ceil(0), 0);
    assert_eq!(ppn_ceil(1), 1);
    assert_eq!(ppn_ceil(PAGE_SIZE), 1);
    assert_eq!(ppn_ceil(PAGE_SIZE + 1), 2);
}
