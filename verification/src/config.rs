use vstd::prelude::*;

verus! {

/// The number of task slots the kernel has.
pub const MAX_APP_NUM: usize = 16;

/// Where the first application image is loaded.
pub const APP_BASE_ADDRESS: usize = 0x80400000;

/// The space reserved for each application image.
pub const APP_SIZE_LIMIT: usize = 0x20000;

/// The size of each per-application kernel stack.
pub const KERNEL_STACK_SIZE: usize = 4096;

/// The size of each per-application user stack.
pub const USER_STACK_SIZE: usize = 4096;

/// The frequency of the `time` counter, in ticks per second.
pub const CLOCK_FREQ: u64 = 10000000;

/// The size of the kernel heap.
pub const KERNEL_HEAP_SIZE: usize = 0x300000;

} // verus!
