//! The byte allocator of the lab: a shell around a heap that is set up
//! after the allocator itself.
//!
//! The heap works on raw memory and is the caller's. The shell holds it,
//! knows whether it is there yet, and hands it out.

use crate::error::AllocError;
use vstd::prelude::*;

verus! {

/// A byte allocator that forwards to a heap of type `H`, once it has one.
pub struct LabByteAllocator<H> {
    inner: Option<H>,
}

impl<H> LabByteAllocator<H> {
    /// The heap, if the allocator has been given one.
    pub closed spec fn heap(&self) -> Option<H> {
        self.inner
    }

    /// An allocator without a heap.
    pub fn new() -> (r: Self)
        ensures
            r.heap() is None,
    {
        Self { inner: None }
    }

    /// Gives the allocator its heap. A heap that it had before is dropped.
    pub fn init(&mut self, heap: H)
        ensures
            final(self).heap() == Some(heap),
    {
        self.inner = Some(heap);
    }

    /// Whether the allocator has a heap.
    pub fn is_initialized(&self) -> (b: bool)
        ensures
            b == self.heap() is Some,
    {
        self.inner.is_some()
    }

    /// What an allocation returns, from what the heap returned: the address
    /// that the heap gave, or `NoMemory` whatever the heap's error was.
    pub fn alloc_result<E>(heap_result: Result<usize, E>) -> (r: Result<usize, AllocError>)
        ensures
            heap_result matches Ok(addr) ==> r == Ok::<usize, AllocError>(addr),
            heap_result is Err ==> r == Err::<usize, AllocError>(AllocError::NoMemory),
    {
        match heap_result {
            Ok(addr) => Ok(addr),
            Err(_) => Err(AllocError::NoMemory),
        }
    }

    /// The heap, to change it. The allocator must have one.
    pub fn inner_mut(&mut self) -> (heap: &mut H)
        requires
            old(self).heap() is Some,
        ensures
            *heap == old(self).heap()->0,
            final(self).heap() == Some(*final(heap)),
    {
        self.inner.as_mut().unwrap()
    }

    /// The heap. The allocator must have one.
    pub fn inner(&self) -> (heap: &H)
        requires
            self.heap() is Some,
        ensures
            *heap == self.heap()->0,
    {
        self.inner.as_ref().unwrap()
    }
}

} // verus!
