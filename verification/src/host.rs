//! The operations that the hypervisor asks of the machine, and a model of
//! what they do.
//!
//! The hypervisor core never touches a register or the guest's memory. It
//! returns operations, and its caller carries them out in the order given.
//! [`Machine`] says what each operation means, so that what the core asks
//! for can be stated as an effect.

use vstd::prelude::*;

verus! {

/// Size of a page of the guest's address space.
pub const PAGE_SIZE_4K: u64 = 0x1000;

/// Permissions of a mapping in the guest's address space.
#[derive(Clone, Copy, Debug, PartialEq, Eq, Structural)]
pub struct MappingFlags {
    pub read: bool,
    pub write: bool,
    pub execute: bool,
    pub user: bool,
}

/// An operation on the machine.
#[derive(Clone, Copy, Debug, PartialEq, Eq, Structural)]
pub enum HostOp {
    /// Write the value to the `hstatus` register.
    WriteHstatus(u64),
    /// Write the value to the `hgatp` register.
    WriteHgatp(u64),
    /// Invalidate every cached second-stage translation (`hfence.gvma`).
    FenceGvmaAll,
    /// Map `size` bytes of the guest's address space from `start` on, with
    /// `flags`; with `populate`, back them with zeroed frames at once,
    /// without it leave them without frames.
    MapAlloc { start: u64, size: u64, flags: MappingFlags, populate: bool },
    /// Write `value` as eight bytes, lowest first, at guest-physical address
    /// `addr`.
    WriteGuest { addr: u64, value: u64 },
}

/// The start of the page that holds address `addr`.
pub open spec fn page_base(addr: int) -> int {
    addr - addr % 4096
}

/// Byte `i` of `value`, counted from the lowest.
pub open spec fn le_byte(value: u64, i: int) -> u8 {
    ((value >> ((8 * i) as u64)) & 0xff) as u8
}

/// The guest's address space: the range of guest-physical addresses that it
/// spans, the pages that are mapped, and the memory that backs them.
///
/// A mapped page has its permissions. It is backed once it has a frame; only
/// then does it have content. The model takes it that the host never runs
/// out of frames, and it says nothing of a request whose end lies beyond the
/// largest address.
pub struct GuestMemory {
    /// First address of the address space.
    pub start: int,
    /// First address after the address space.
    pub end: int,
    /// The permissions of each mapped page, by the page's start address.
    pub pages: Map<int, MappingFlags>,
    /// The start addresses of the pages that have a frame.
    pub frames: Set<int>,
    /// The content of backed memory, by address.
    pub bytes: Map<int, u8>,
}

impl GuestMemory {
    /// An address space over `start..end` with no page mapped.
    pub open spec fn empty(start: int, end: int) -> GuestMemory {
        GuestMemory { start, end, pages: Map::empty(), frames: Set::empty(), bytes: Map::empty() }
    }

    /// Whether the `size` bytes from `start` on lie in the address space.
    pub open spec fn contains(self, start: int, size: int) -> bool {
        self.start <= start && start + size <= self.end
    }

    /// Whether the page that holds `addr` is mapped.
    pub open spec fn is_mapped(self, addr: int) -> bool {
        self.pages.dom().contains(page_base(addr))
    }

    /// Whether the page that holds `addr` is mapped and has a frame.
    pub open spec fn is_backed(self, addr: int) -> bool {
        self.is_mapped(addr) && self.frames.contains(page_base(addr))
    }

    /// Whether the page that holds `addr` is backed and mapped with exactly
    /// `flags`.
    pub open spec fn is_backed_with(self, addr: int, flags: MappingFlags) -> bool {
        self.is_backed(addr) && self.pages[page_base(addr)] == flags
    }

    /// Whether a new mapping of `size` bytes from `start` is accepted: the
    /// range is not empty and lies in the address space, start and size are
    /// multiples of the page size, and no page of the range is mapped.
    pub open spec fn can_map(self, start: int, size: int) -> bool {
        &&& size > 0
        &&& self.contains(start, size)
        &&& start % 4096 == 0
        &&& size % 4096 == 0
        &&& forall|a: int| start <= a < start + size ==> !self.is_mapped(a)
    }

    /// The memory after a mapping request. An accepted request maps each
    /// page of the range with `flags`; with `populate` it also gives each a
    /// frame with zeroed content, without it the pages stay without frames.
    /// A refused request changes nothing.
    pub open spec fn map_alloc(
        self,
        start: int,
        size: int,
        flags: MappingFlags,
        populate: bool,
    ) -> GuestMemory {
        if !self.can_map(start, size) {
            self
        } else {
            let pages = Map::new(
                |p: int| self.pages.dom().contains(p) || (start <= p < start + size && p % 4096 == 0),
                |p: int| if start <= p < start + size { flags } else { self.pages[p] },
            );
            if populate {
                GuestMemory {
                    pages,
                    frames: Set::new(
                        |p: int| self.frames.contains(p) || (start <= p < start + size && p % 4096 == 0),
                    ),
                    bytes: Map::new(
                        |a: int| self.bytes.dom().contains(a) || start <= a < start + size,
                        |a: int| if start <= a < start + size { 0u8 } else { self.bytes[a] },
                    ),
                    ..self
                }
            } else {
                GuestMemory { pages, ..self }
            }
        }
    }

    /// Whether a write of eight bytes at `addr` reaches address `a`. A write
    /// that does not lie in the address space is refused as a whole. The
    /// others go page by page and stop at the first page that is not backed.
    pub open spec fn write_reaches(self, addr: int, a: int) -> bool {
        &&& self.contains(addr, 8)
        &&& addr <= a < addr + 8
        &&& self.is_backed(addr)
        &&& self.is_backed(a)
    }

    /// The memory after a write of `value` as eight bytes, lowest first, at
    /// `addr`.
    pub open spec fn write(self, addr: int, value: u64) -> GuestMemory {
        GuestMemory {
            bytes: Map::new(
                |a: int| self.bytes.dom().contains(a) || self.write_reaches(addr, a),
                |a: int| if self.write_reaches(addr, a) { le_byte(value, a - addr) } else { self.bytes[a] },
            ),
            ..self
        }
    }

    /// Whether the eight bytes at `addr` are backed and hold `value`, lowest
    /// byte first.
    pub open spec fn holds(self, addr: int, value: u64) -> bool {
        forall|i: int| 0 <= i < 8 ==> self.is_backed(addr + i) && self.bytes.dom().contains(
            addr + i,
        ) && #[trigger] self.bytes[addr + i] == le_byte(value, i)
    }
}

/// The part of the machine that the hypervisor's operations act on.
pub struct Machine {
    /// The `hstatus` register.
    pub hstatus: u64,
    /// The `hgatp` register: mode and root of the second stage.
    pub hgatp: u64,
    /// The cached second-stage translations: each is a guest page together
    /// with the `hgatp` value under which it was looked up.
    pub cached: Set<(u64, int)>,
    /// The guest's memory.
    pub memory: GuestMemory,
}

impl Machine {
    /// The cached translations that were looked up under another `hgatp`
    /// than the present one.
    pub open spec fn stale(self) -> Set<(u64, int)> {
        self.cached.filter(|t: (u64, int)| t.0 != self.hgatp)
    }

    /// The machine after one operation.
    pub open spec fn step(self, op: HostOp) -> Machine {
        match op {
            HostOp::WriteHstatus(value) => Machine { hstatus: value, ..self },
            HostOp::WriteHgatp(value) => Machine { hgatp: value, ..self },
            HostOp::FenceGvmaAll => Machine { cached: Set::empty(), ..self },
            HostOp::MapAlloc { start, size, flags, populate } => Machine {
                memory: self.memory.map_alloc(start as int, size as int, flags, populate),
                ..self
            },
            HostOp::WriteGuest { addr, value } => Machine {
                memory: self.memory.write(addr as int, value),
                ..self
            },
        }
    }

    /// The machine after the operations `ops`, carried out in order.
    pub open spec fn run(self, ops: Seq<HostOp>) -> Machine
        decreases ops.len(),
    {
        if ops.len() == 0 {
            self
        } else {
            self.step(ops[0]).run(ops.subrange(1, ops.len() as int))
        }
    }
}

/// Running a list of two operations is running one after the other.
pub proof fn lemma_run_two(m: Machine, a: HostOp, b: HostOp)
    ensures
        m.run(seq![a, b]) == m.step(a).step(b),
{
    let ops = seq![a, b];
    let rest = ops.subrange(1, 2);
    assert(rest =~= seq![b]);
    assert(rest.subrange(1, 1) =~= Seq::<HostOp>::empty());
    reveal_with_fuel(Machine::run, 3);
}

/// Running a list of one operation is that operation.
pub proof fn lemma_run_one(m: Machine, a: HostOp)
    ensures
        m.run(seq![a]) == m.step(a),
{
    let ops = seq![a];
    assert(ops.subrange(1, 1) =~= Seq::<HostOp>::empty());
    reveal_with_fuel(Machine::run, 2);
}

/// Running one list of operations after another is running the two lists
/// joined.
pub proof fn lemma_run_concat(m: Machine, first: Seq<HostOp>, second: Seq<HostOp>)
    ensures
        m.run(first + second) == m.run(first).run(second),
    decreases first.len(),
{
    if first.len() == 0 {
        assert(first + second =~= second);
    } else {
        let joined = first + second;
        assert(joined[0] == first[0]);
        assert(joined.subrange(1, joined.len() as int) =~= first.subrange(1, first.len() as int)
            + second);
        lemma_run_concat(m.step(first[0]), first.subrange(1, first.len() as int), second);
    }
}

} // verus!
