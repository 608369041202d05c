//! The errors of the allocators.

use vstd::prelude::*;

verus! {

/// Why an allocation failed.
#[derive(Clone, Copy, Debug, PartialEq, Eq, Structural)]
pub enum AllocError {
    /// A size or an alignment is not acceptable.
    InvalidParam,
    /// The memory added overlaps memory that is managed already.
    MemoryOverlap,
    /// Not enough free memory.
    NoMemory,
    /// The memory given back was never handed out.
    NotAllocated,
}

} // verus!
