//! The kernel's integer types and the numbers it names its notify actions by.
#![allow(non_upper_case_globals)]
#![allow(non_snake_case)]
use vstd::prelude::*;

verus! {

/// The kernel's signed base type.
pub type BaseType_t = i32;

/// The kernel's unsigned base type.
pub type UBaseType_t = u32;

/// The unit a task's stack is sized in.
pub type StackType_t = u32;

/// What the kernel names a queue by.
pub type QueueHandle_t = usize;

/// What the kernel names a task by.
pub type TaskHandle_t = usize;

/// The number of a notify action.
pub type eNotifyAction = u32;

/// Wake the task and leave its notification value alone.
pub const eNotifyAction_eNoAction: eNotifyAction = 0;

/// Or the given bits into the notification value.
pub const eNotifyAction_eSetBits: eNotifyAction = 1;

/// Add one to the notification value.
pub const eNotifyAction_eIncrement: eNotifyAction = 2;

/// Replace the notification value.
pub const eNotifyAction_eSetValueWithOverwrite: eNotifyAction = 3;

/// Replace the notification value unless a notification is still pending.
pub const eNotifyAction_eSetValueWithoutOverwrite: eNotifyAction = 4;

/// Bytes of heap the kernel has to give out.
pub const TOTAL_HEAP_SIZE: usize = 65536;

/// What the kernel reports of its heap.
#[derive(Debug, Clone, Copy, PartialEq, Eq, Structural)]
pub struct HeapStats_t {
    pub xAvailableHeapSpaceInBytes: usize,
    pub xSizeOfLargestFreeBlockInBytes: usize,
    pub xSizeOfSmallestFreeBlockInBytes: usize,
    pub xNumberOfFreeBlocks: usize,
    pub xMinimumEverFreeBytesRemaining: usize,
    pub xNumberOfSuccessfulAllocations: usize,
    pub xNumberOfSuccessfulFrees: usize,
}

/// The report of a heap that keeps no statistics: every number is zero.
pub open spec fn no_heap_stats() -> HeapStats_t {
    HeapStats_t {
        xAvailableHeapSpaceInBytes: 0,
        xSizeOfLargestFreeBlockInBytes: 0,
        xSizeOfSmallestFreeBlockInBytes: 0,
        xNumberOfFreeBlocks: 0,
        xMinimumEverFreeBytesRemaining: 0,
        xNumberOfSuccessfulAllocations: 0,
        xNumberOfSuccessfulFrees: 0,
    }
}

/// Hands on what the kernel reported of its heap only where it is sensible.
///
/// A report of nothing but zeros comes from a heap that keeps no statistics,
/// or that has no memory to give out: it yields `None`.
pub fn vPortGetHeapStats(heap_stats: HeapStats_t) -> (stats: Option<HeapStats_t>)
    ensures
        heap_stats == no_heap_stats() ==> stats is None,
        heap_stats != no_heap_stats() ==> stats == Some(heap_stats),
{
    let has_real_values = heap_stats.xAvailableHeapSpaceInBytes != 0
        || heap_stats.xSizeOfLargestFreeBlockInBytes != 0
        || heap_stats.xSizeOfSmallestFreeBlockInBytes != 0
        || heap_stats.xNumberOfFreeBlocks != 0
        || heap_stats.xMinimumEverFreeBytesRemaining != 0
        || heap_stats.xNumberOfSuccessfulAllocations != 0
        || heap_stats.xNumberOfSuccessfulFrees != 0;
    if has_real_values {
        Some(heap_stats)
    } else {
        None
    }
}

} // verus!
