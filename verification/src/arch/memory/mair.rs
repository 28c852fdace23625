//! The slots of the memory attribute indirection register that the kernel
//! uses, by the index that a page descriptor names them with.

use vstd::prelude::*;

verus! {

/// The slot that describes device memory.
pub const DEVICE: u64 = 0;

/// The slot that describes cacheable normal DRAM.
pub const NORMAL: u64 = 1;

} // verus!
