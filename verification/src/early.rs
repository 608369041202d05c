//! The early allocator: a two-ended bump allocator for the time before the
//! real byte and page allocators are up.
//!
//! ```text
//! [ bytes in use | free | pages in use ]
//! start        bytes_pos  pages_pos     end
//! ```
//!
//! Bytes are handed out upwards from `start`, pages downwards from `end`.
//! The byte area is given back as a whole when its last allocation is freed;
//! pages are never given back.

use crate::error::AllocError;
use vstd::arithmetic::power2::pow2;
use vstd::bits::{
    lemma_usize_low_bits_mask_is_mod, lemma_usize_pow2_no_overflow, lemma_usize_shl_is_mul,
    low_bits_mask,
};
use vstd::prelude::*;

verus! {

/// The state of an early allocator as plain numbers.
pub struct EarlyState {
    /// First address of the region.
    pub start: int,
    /// First address after the region.
    pub end: int,
    /// First address after the bytes in use.
    pub bytes_pos: int,
    /// First address of the pages in use.
    pub pages_pos: int,
    /// Number of byte allocations that are live.
    pub count: int,
}

/// Early memory allocator over the region `start..end`, with pages of
/// `PAGE_SIZE` bytes.
pub struct EarlyAllocator<const PAGE_SIZE: usize> {
    start: usize,
    end: usize,
    bytes_pos: usize,
    pages_pos: usize,
    count: usize,
}

impl<const PAGE_SIZE: usize> View for EarlyAllocator<PAGE_SIZE> {
    type V = EarlyState;

    closed spec fn view(&self) -> EarlyState {
        EarlyState {
            start: self.start as int,
            end: self.end as int,
            bytes_pos: self.bytes_pos as int,
            pages_pos: self.pages_pos as int,
            count: self.count as int,
        }
    }
}

/// The greatest multiple of `2^align_pow2` that is not above `addr`.
pub open spec fn spec_align_down_pow2(addr: int, align_pow2: nat) -> int {
    addr - addr % (pow2(align_pow2) as int)
}

impl<const PAGE_SIZE: usize> EarlyAllocator<PAGE_SIZE> {
    /// The region is in order, the byte area starts at its start and the
    /// page area ends at its end.
    pub open spec fn wf(&self) -> bool {
        &&& 0 <= self@.start <= self@.end <= usize::MAX
        &&& self@.start <= self@.bytes_pos <= usize::MAX
        &&& 0 <= self@.pages_pos <= self@.end
        &&& 0 <= self@.count <= usize::MAX
    }

    /// An allocator over no memory.
    pub fn new() -> (r: Self)
        ensures
            r@ == (EarlyState { start: 0, end: 0, bytes_pos: 0, pages_pos: 0, count: 0 }),
            r.wf(),
    {
        Self { start: 0, end: 0, bytes_pos: 0, pages_pos: 0, count: 0 }
    }

    /// First address of the region.
    pub fn start(&self) -> (n: usize)
        ensures
            n == self@.start,
    {
        self.start
    }

    /// First address after the region.
    pub fn end(&self) -> (n: usize)
        ensures
            n == self@.end,
    {
        self.end
    }

    /// First address after the bytes in use: where the next bytes come from.
    pub fn bytes_pos(&self) -> (n: usize)
        ensures
            n == self@.bytes_pos,
    {
        self.bytes_pos
    }

    /// First address of the pages in use: below it the next pages come from.
    pub fn pages_pos(&self) -> (n: usize)
        ensures
            n == self@.pages_pos,
    {
        self.pages_pos
    }

    /// Number of byte allocations that are live.
    pub fn count(&self) -> (n: usize)
        ensures
            n == self@.count,
    {
        self.count
    }

    /// Takes over the `size` bytes at `start`: nothing of them is in use.
    /// The region must end inside the address space.
    pub fn init(&mut self, start: usize, size: usize)
        requires
            start + size <= usize::MAX,
        ensures
            final(self)@ == (EarlyState {
                start: start as int,
                end: start + size,
                bytes_pos: start as int,
                pages_pos: start + size,
                count: 0,
            }),
            final(self).wf(),
    {
        self.start = start;
        self.end = start + size;
        self.bytes_pos = start;
        self.pages_pos = self.end;
        self.count = 0;
    }

    /// Hands out `size` bytes at the end of the byte area and returns their
    /// address. The alignment is not looked at, and nothing keeps the byte
    /// area from growing into the pages.
    ///
    /// The address handed out must not be zero, the byte area must end inside
    /// the address space, and the count of live allocations must have room
    /// for one more.
    pub fn alloc_bytes(&mut self, size: usize, _align: usize) -> (r: Result<usize, AllocError>)
        requires
            old(self).wf(),
            old(self)@.bytes_pos != 0,
            old(self)@.bytes_pos + size <= usize::MAX,
            old(self)@.count < usize::MAX,
        ensures
            r == Ok::<usize, AllocError>(old(self)@.bytes_pos as usize),
            final(self)@ == (EarlyState {
                bytes_pos: old(self)@.bytes_pos + size,
                count: old(self)@.count + 1,
                ..old(self)@
            }),
            final(self).wf(),
    {
        let current_bytes_pos = self.bytes_pos;
        self.bytes_pos = self.bytes_pos + size;
        self.count = self.count + 1;
        Ok(current_bytes_pos)
    }

    /// Takes back one byte allocation. When it was the last one that was
    /// live, the whole byte area is free again. An allocation must be live.
    pub fn dealloc(&mut self, _pos: usize, _size: usize, _align: usize)
        requires
            old(self).wf(),
            old(self)@.count > 0,
        ensures
            final(self)@ == (EarlyState {
                count: old(self)@.count - 1,
                bytes_pos: if old(self)@.count == 1 {
                    old(self)@.start
                } else {
                    old(self)@.bytes_pos
                },
                ..old(self)@
            }),
            final(self).wf(),
    {
        self.count = self.count - 1;
        if self.count == 0 {
            self.bytes_pos = self.start;
        }
    }

    /// Size of the region in bytes.
    pub fn total_bytes(&self) -> (n: usize)
        requires
            self.wf(),
        ensures
            n == self@.end - self@.start,
    {
        self.end - self.start
    }

    /// Size of the byte area in use.
    pub fn used_bytes(&self) -> (n: usize)
        requires
            self.wf(),
        ensures
            n == self@.bytes_pos - self@.start,
    {
        self.bytes_pos - self.start
    }

    /// Size of the free area between the bytes and the pages, which must not
    /// have grown into each other.
    pub fn available_bytes(&self) -> (n: usize)
        requires
            self.wf(),
            self@.bytes_pos <= self@.pages_pos,
        ensures
            n == self@.pages_pos - self@.bytes_pos,
    {
        self.pages_pos - self.bytes_pos
    }

    /// Hands out `num_pages` pages below the pages in use, at an address
    /// that is a multiple of `2^align_pow2`, and returns that address.
    /// Nothing keeps the pages from growing into the byte area.
    ///
    /// The exponent must be smaller than the width of an address, and the
    /// pages must fit below the pages in use.
    pub fn alloc_pages(&mut self, num_pages: usize, align_pow2: usize) -> (r: Result<
        usize,
        AllocError,
    >)
        requires
            old(self).wf(),
            align_pow2 < usize::BITS,
            num_pages * PAGE_SIZE <= old(self)@.pages_pos,
        ensures
            final(self)@ == (EarlyState {
                pages_pos: spec_align_down_pow2(
                    old(self)@.pages_pos - num_pages * PAGE_SIZE,
                    align_pow2 as nat,
                ),
                ..old(self)@
            }),
            r == Ok::<usize, AllocError>(final(self)@.pages_pos as usize),
            final(self).wf(),
    {
        let align: usize = 1usize << align_pow2;
        proof {
            lemma_usize_pow2_no_overflow(align_pow2 as nat);
            lemma_usize_shl_is_mul(1usize, align_pow2);
            assert(align == pow2(align_pow2 as nat));
        }
        assert(num_pages * PAGE_SIZE <= usize::MAX);
        let below: usize = self.pages_pos - num_pages * PAGE_SIZE;
        let mask: usize = align - 1;
        let pos: usize = below & !mask;
        assert(pos == below - (below & mask)) by (bit_vector)
            requires
                pos == below & !mask,
        ;
        proof {
            lemma_usize_low_bits_mask_is_mod(below, align_pow2 as nat);
            assert(mask == low_bits_mask(align_pow2 as nat));
        }
        self.pages_pos = pos;
        Ok(pos)
    }

    /// Pages are never given back: this does nothing.
    pub fn dealloc_pages(&mut self, _pos: usize, _num_pages: usize)
        ensures
            final(self)@ == old(self)@,
    {
    }

    /// Number of whole pages in the region.
    pub fn total_pages(&self) -> (n: usize)
        requires
            self.wf(),
            PAGE_SIZE > 0,
        ensures
            n == (self@.end - self@.start) / (PAGE_SIZE as int),
    {
        (self.end - self.start) / PAGE_SIZE
    }

    /// Number of whole pages in the page area.
    pub fn used_pages(&self) -> (n: usize)
        requires
            self.wf(),
            PAGE_SIZE > 0,
        ensures
            n == (self@.end - self@.pages_pos) / (PAGE_SIZE as int),
    {
        (self.end - self.pages_pos) / PAGE_SIZE
    }

    /// Number of whole pages in the free area between the bytes and the
    /// pages, which must not have grown into each other.
    pub fn available_pages(&self) -> (n: usize)
        requires
            self.wf(),
            PAGE_SIZE > 0,
            self@.bytes_pos <= self@.pages_pos,
        ensures
            n == (self@.pages_pos - self@.bytes_pos) / (PAGE_SIZE as int),
    {
        (self.pages_pos - self.bytes_pos) / PAGE_SIZE
    }
}

} // verus!
