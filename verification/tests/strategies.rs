use frame_allocator::bitmap::BitMapFrameAllocator;
use frame_allocator::config::{AllocatorKind, DeallocFault};
use frame_allocator::linked_list::LinkedListAllocator;
use frame_allocator::registry::FrameRegistry;
use frame_allocator::stack::StackFrameAllocator;
use frame_allocator::strategy::FrameAllocatorImpl;

#[test]
fn bitmap_hands_out_lowest_free_page_first() {
    let mut a = BitMapFrameAllocator::new();
    a.init(10, 13);
    assert_eq!(a.remaining(), 3);
    assert_eq!(a.allocate(), Some(10));
    assert_eq!(a.allocate(), Some(11));
    assert_eq!(a.allocate(), Some(12));
    assert_eq!(a.allocate(), None);
    assert_eq!(a.remaining(), 0);
}

#[test]
fn bitmap_exhaustion_boundary() {
    let mut a = BitMapFrameAllocator::new();
    a.init(0, 5);
    for _ in 0..5 {
        assert!(a.allocate().is_some());
    }
    assert_eq!(a.allocate(), None);
    assert_eq!(a.dealloc(3), Ok(()));
    assert_eq!(a.allocate(), Some(3));
    assert_eq!(a.allocate(), None);
}

#[test]
fn bitmap_double_free_is_fatal_fault() {
    let mut a = BitMapFrameAllocator::new();
    a.init(0, 4);
    let p = a.allocate().unwrap();
    assert_eq!(a.dealloc(p), Ok(()));
    assert_eq!(a.dealloc(p), Err(DeallocFault));
}

#[test]
fn bitmap_out_of_range_dealloc_is_fatal_fault() {
    let mut a = BitMapFrameAllocator::new();
    a.init(4, 8);
    assert_eq!(a.dealloc(3), Err(DeallocFault));
    assert_eq!(a.dealloc(8), Err(DeallocFault));
}

#[test]
fn stack_reuses_most_recently_freed_page_first() {
    let mut a = StackFrameAllocator::new();
    a.init(0, 4);
    assert_eq!(a.allocate(), Some(0));
    assert_eq!(a.allocate(), Some(1));
    assert_eq!(a.allocate(), Some(2));
    assert_eq!(a.dealloc(0), Ok(()));
    assert_eq!(a.dealloc(2), Ok(()));
    // LIFO: 2 was freed last, so it comes back first.
    assert_eq!(a.allocate(), Some(2));
    assert_eq!(a.allocate(), Some(0));
    // Recycle stack drained; the watermark continues.
    assert_eq!(a.allocate(), Some(3));
    assert_eq!(a.allocate(), None);
}

#[test]
fn stack_exhaustion_boundary() {
    let mut a = StackFrameAllocator::new();
    a.init(0, 3);
    for _ in 0..3 {
        assert!(a.allocate().is_some());
    }
    assert_eq!(a.allocate(), None);
    assert_eq!(a.dealloc(1), Ok(()));
    assert_eq!(a.allocate(), Some(1));
    assert_eq!(a.allocate(), None);
}

#[test]
fn stack_double_free_and_watermark_faults() {
    let mut a = StackFrameAllocator::new();
    a.init(0, 8);
    let p = a.allocate().unwrap();
    assert_eq!(a.dealloc(p), Ok(()));
    // Already recycled: double free.
    assert_eq!(a.dealloc(p), Err(DeallocFault));
    // At or above the watermark: never handed out.
    assert_eq!(a.dealloc(5), Err(DeallocFault));
    assert_eq!(a.get_size(), 8);
}

#[test]
fn linked_list_hands_out_tail_first() {
    let mut a = LinkedListAllocator::new();
    a.init(0, 3);
    assert_eq!(a.remaining(), 3);
    // Pages were pushed in ascending order, so the tail is the highest.
    assert_eq!(a.allocate(), Some(2));
    assert_eq!(a.allocate(), Some(1));
    assert_eq!(a.allocate(), Some(0));
    assert_eq!(a.allocate(), None);
}

#[test]
fn linked_list_exhaustion_boundary() {
    let mut a = LinkedListAllocator::new();
    a.init(0, 4);
    for _ in 0..4 {
        assert!(a.allocate().is_some());
    }
    assert_eq!(a.allocate(), None);
    assert_eq!(a.dealloc(2), Ok(()));
    assert_eq!(a.allocate(), Some(2));
    assert_eq!(a.allocate(), None);
}

#[test]
fn linked_list_double_free_is_fatal_fault() {
    let mut a = LinkedListAllocator::new();
    a.init(0, 3);
    let p = a.allocate().unwrap();
    assert_eq!(a.dealloc(p), Ok(()));
    assert_eq!(a.dealloc(p), Err(DeallocFault));
    // A page still on the free sequence is also rejected.
    let mut b = LinkedListAllocator::new();
    b.init(0, 3);
    assert_eq!(b.dealloc(1), Err(DeallocFault));
}

#[test]
fn empty_and_inverted_ranges_report_exhaustion() {
    let mut a = BitMapFrameAllocator::new();
    a.init(5, 5);
    assert_eq!(a.remaining(), 0);
    assert_eq!(a.allocate(), None);

    let mut b = StackFrameAllocator::new();
    b.init(7, 3);
    assert_eq!(b.remaining(), 0);
    assert_eq!(b.allocate(), None);

    let mut c = LinkedListAllocator::new();
    c.init(9, 2);
    assert_eq!(c.remaining(), 0);
    assert_eq!(c.allocate(), None);
}

#[test]
fn strategy_enum_dispatches_to_the_chosen_variant() {
    let mut a = FrameAllocatorImpl::new(AllocatorKind::Bitmap);
    a.init(0, 2);
    assert_eq!(a.remaining(), 2);
    // The bitmap variant hands out the lowest free page.
    assert_eq!(a.allocate(), Some(0));
    assert_eq!(a.dealloc(0), Ok(()));
    assert_eq!(a.dealloc(0), Err(DeallocFault));

    let mut b = FrameAllocatorImpl::new(AllocatorKind::LinkedList);
    b.init(0, 2);
    // The linked-list variant hands out the tail: the highest page.
    assert_eq!(b.allocate(), Some(1));
    assert_eq!(b.remaining(), 1);
}

// Identical alloc/dealloc request patterns give identical remaining
// counts and identical exhaustion points on all three strategies, even
// though the specific page numbers handed out differ.
#[test]
fn strategies_report_equal_counts_under_equal_operations() {
    let kinds = [AllocatorKind::Bitmap, AllocatorKind::Stack, AllocatorKind::LinkedList];
    let mut regs: Vec<FrameRegistry> = kinds.iter().map(|k| FrameRegistry::new(*k)).collect();
    for reg in regs.iter_mut() {
        reg.init(0, 5);
    }
    let mut held: Vec<Vec<frame_allocator::tracker::FrameTracker>> =
        regs.iter().map(|_| Vec::new()).collect();

    // alloc, alloc, alloc, dealloc one, alloc, alloc, alloc, alloc:
    // success and remaining must agree at every step.
    let pattern = ["a", "a", "a", "d", "a", "a", "a", "a"];
    for step in pattern.iter() {
        let mut successes = Vec::new();
        let mut counts = Vec::new();
        for (reg, own) in regs.iter_mut().zip(held.iter_mut()) {
            match *step {
                "a" => match reg.frame_alloc() {
                    Some(t) => {
                        own.push(t);
                        successes.push(true);
                    }
                    None => successes.push(false),
                },
                _ => {
                    let t = own.pop().expect("pattern deallocates only held frames");
                    assert_eq!(reg.frame_dealloc(t), Ok(()));
                    successes.push(true);
                }
            }
            counts.push(reg.remaining());
        }
        assert!(successes.windows(2).all(|w| w[0] == w[1]));
        assert!(counts.windows(2).all(|w| w[0] == w[1]));
    }
    // 5 pages: 3 allocated, 1 freed, then 3 more succeed and the last fails.
    for reg in regs.iter() {
        assert_eq!(reg.remaining(), 0);
    }
}
