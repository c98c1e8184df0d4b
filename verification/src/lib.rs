//! Physical page-frame management for an operating-system kernel:
//! frame-ownership handles, three interchangeable frame-allocation
//! strategies, a registry owning the frame pool, and a segment
//! allocator that groups frames into coarser first-fit units.

pub mod bitmap;
pub mod config;
pub mod counting;
pub mod linked_list;
pub mod list;
pub mod registry;
pub mod segment_allocator;
pub mod stack;
pub mod strategy;
pub mod tracker;

pub use bitmap::BitMapFrameAllocator;
pub use config::{AllocatorKind, DeallocFault, MemoryAllocator, PAGE_SIZE};
pub use linked_list::LinkedListAllocator;
pub use list::List;
pub use registry::FrameRegistry;
pub use segment_allocator::{Segment, SegmentAllocator, SegmentTracker};
pub use stack::StackFrameAllocator;
pub use strategy::{FrameAllocatorImpl, FrameOp};
pub use tracker::FrameTracker;
