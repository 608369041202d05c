//! The trap dispatcher: what the hypervisor does each time the guest traps.
//!
//! The dispatcher decides and changes the register context. What it cannot
//! do from here, backing a page of the guest's address space, it hands back
//! as a list of operations for the caller to carry out, in order, before the
//! guest runs again.

use crate::host::{le_byte, lemma_run_two, page_base, HostOp, Machine, MappingFlags, PAGE_SIZE_4K};
use crate::regs::{GeneralPurposeRegisters, GprIndex};
use crate::sbi::{spec_from_regs, SbiMessage};
use crate::trap::{spec_trap_cause, trap_cause, TrapCause};
use crate::vcpu::{GuestState, VmCpuRegisters};
use vstd::prelude::*;

verus! {

/// What `a0` must hold when the guest asks for a reset.
pub const RESET_MAGIC_A0: u64 = 0x6688;

/// What `a1` must hold when the guest asks for a reset.
pub const RESET_MAGIC_A1: u64 = 0x1234;

/// What the guest finds in `a1` after an illegal instruction was skipped.
pub const ILLEGAL_INSTRUCTION_MAGIC: u64 = 0x1234;

/// What the guest finds at the address of a guest-page fault once the page
/// is backed.
pub const PAGE_FAULT_MAGIC: u64 = 0x6688;

/// Width of the instruction that is skipped after an illegal instruction.
pub const INSTRUCTION_WIDTH: u64 = 4;

/// How a trap ends when the guest can go on or has shut down.
#[derive(Debug, PartialEq, Eq)]
pub enum VmExit {
    /// The guest has shut down: leave the loop.
    Terminate,
    /// Carry out the operations in order, then enter the guest again.
    Resume(Vec<HostOp>),
}

/// A trap that stops the hypervisor.
#[derive(Clone, Copy, Debug, PartialEq, Eq, Structural)]
pub enum FatalTrap {
    /// The guest asked for a reset with other values in `a0` and `a1` than
    /// the two expected ones.
    ResetArguments { a0: u64, a1: u64 },
    /// The guest made a firmware call that is decoded and not served.
    UnsupportedCall(SbiMessage),
    /// The guest's environment call holds no firmware call.
    BadSbiMessage,
    /// A trap that the hypervisor has no policy for.
    UnhandledTrap { scause: u64, sepc: u64, stval: u64 },
}

/// The outcome of a trap as a plain value.
pub enum Outcome {
    /// The guest has shut down.
    Terminate,
    /// The guest runs again after these operations.
    Resume(Seq<HostOp>),
    /// The hypervisor stops.
    Fatal(FatalTrap),
}

/// The outcome that a result of the dispatcher stands for.
pub open spec fn outcome_of(r: Result<VmExit, FatalTrap>) -> Outcome {
    match r {
        Ok(VmExit::Terminate) => Outcome::Terminate,
        Ok(VmExit::Resume(ops)) => Outcome::Resume(ops@),
        Err(fatal) => Outcome::Fatal(fatal),
    }
}

/// The start of the page that holds `addr`.
pub open spec fn spec_align_down_4k(addr: u64) -> u64 {
    (addr - addr % 4096) as u64
}

/// Read, write and user access.
pub open spec fn spec_read_write_user() -> MappingFlags {
    MappingFlags { read: true, write: true, execute: false, user: true }
}

/// The operations that back the page of a guest-page fault at `stval`: map
/// the one page that holds the address, with zeroed memory and read, write
/// and user access, then write the magic value at the address.
pub open spec fn spec_page_fault_ops(stval: u64) -> Seq<HostOp> {
    seq![
        HostOp::MapAlloc {
            start: spec_align_down_4k(stval),
            size: PAGE_SIZE_4K,
            flags: spec_read_write_user(),
            populate: true,
        },
        HostOp::WriteGuest { addr: stval, value: PAGE_FAULT_MAGIC },
    ]
}

/// The outcome of an environment call, from the decoded firmware call and
/// the guest's `a0` and `a1`.
pub open spec fn spec_env_call_outcome(request: Option<SbiMessage>, a0: u64, a1: u64) -> Outcome {
    match request {
        Some(SbiMessage::Reset(_)) => if a0 == RESET_MAGIC_A0 && a1 == RESET_MAGIC_A1 {
            Outcome::Terminate
        } else {
            Outcome::Fatal(FatalTrap::ResetArguments { a0, a1 })
        },
        Some(other) => Outcome::Fatal(FatalTrap::UnsupportedCall(other)),
        None => Outcome::Fatal(FatalTrap::BadSbiMessage),
    }
}

/// The outcome of a trap with the given cause, taken in guest state `guest`.
/// `request` is the decoded firmware call, which only an environment call
/// looks at; `scause` and `stval` are the trap registers.
pub open spec fn spec_outcome(
    guest: GuestState,
    cause: TrapCause,
    request: Option<SbiMessage>,
    scause: u64,
    stval: u64,
) -> Outcome {
    match cause {
        TrapCause::EnvironmentCall => spec_env_call_outcome(
            request,
            guest.gprs[GprIndex::A0.spec_index()],
            guest.gprs[GprIndex::A1.spec_index()],
        ),
        TrapCause::IllegalInstruction => Outcome::Resume(Seq::empty()),
        TrapCause::GuestPageFault => Outcome::Resume(spec_page_fault_ops(stval)),
        TrapCause::Other => Outcome::Fatal(
            FatalTrap::UnhandledTrap { scause, sepc: guest.sepc, stval },
        ),
    }
}

/// The guest state after a trap with the given cause, taken in state
/// `guest`. Only an illegal instruction changes it: the program counter
/// moves past the instruction and `a1` takes the magic value.
pub open spec fn spec_guest_after(guest: GuestState, cause: TrapCause) -> GuestState {
    match cause {
        TrapCause::IllegalInstruction => GuestState {
            gprs: guest.gprs.update(GprIndex::A1.spec_index(), ILLEGAL_INSTRUCTION_MAGIC),
            sepc: (guest.sepc + INSTRUCTION_WIDTH) as u64,
            ..guest
        },
        _ => guest,
    }
}

/// The start of the page that holds `addr`.
pub fn align_down_4k(addr: u64) -> (r: u64)
    ensures
        r == spec_align_down_4k(addr),
        r % 4096 == 0,
        r <= addr < r + 4096,
{
    let r = addr & !(PAGE_SIZE_4K - 1);
    assert(r == addr - addr % 4096) by (bit_vector)
        requires
            r == addr & !0xfffu64,
    ;
    r
}

/// Handles one trap of the guest, whose cause and firmware call have been
/// worked out already.
///
/// - An environment call ends the loop if it is a reset and `a0` and `a1`
///   hold the two expected values; every other call, and a call that could
///   not be decoded, is fatal.
/// - An illegal instruction is skipped: the program counter moves on by four
///   bytes, `a1` takes the magic value, and the guest runs again.
/// - A guest-page fault has the faulting page backed and the magic value
///   written at the faulting address; the guest runs the load again.
/// - Anything else is fatal.
///
/// The program counter must leave room for the skip.
pub fn handle_trap(
    ctx: &mut VmCpuRegisters,
    cause: TrapCause,
    request: Option<SbiMessage>,
    scause: u64,
    stval: u64,
) -> (r: Result<VmExit, FatalTrap>)
    requires
        cause == TrapCause::IllegalInstruction ==> old(ctx)@.sepc + INSTRUCTION_WIDTH <= u64::MAX,
    ensures
        outcome_of(r) == spec_outcome(old(ctx)@, cause, request, scause, stval),
        final(ctx)@ == spec_guest_after(old(ctx)@, cause),
{
    match cause {
        TrapCause::EnvironmentCall => {
            match request {
                Some(SbiMessage::Reset(_)) => {
                    let a0 = ctx.guest_regs.gprs.reg(GprIndex::A0);
                    let a1 = ctx.guest_regs.gprs.reg(GprIndex::A1);
                    if a0 == RESET_MAGIC_A0 && a1 == RESET_MAGIC_A1 {
                        Ok(VmExit::Terminate)
                    } else {
                        Err(FatalTrap::ResetArguments { a0, a1 })
                    }
                },
                Some(other) => Err(FatalTrap::UnsupportedCall(other)),
                None => Err(FatalTrap::BadSbiMessage),
            }
        },
        TrapCause::IllegalInstruction => {
            ctx.guest_regs.sepc = ctx.guest_regs.sepc + INSTRUCTION_WIDTH;
            ctx.guest_regs.gprs.set_reg(GprIndex::A1, ILLEGAL_INSTRUCTION_MAGIC);
            let ops: Vec<HostOp> = Vec::new();
            Ok(VmExit::Resume(ops))
        },
        TrapCause::GuestPageFault => {
            let mut ops: Vec<HostOp> = Vec::new();
            ops.push(
                HostOp::MapAlloc {
                    start: align_down_4k(stval),
                    size: PAGE_SIZE_4K,
                    flags: MappingFlags { read: true, write: true, execute: false, user: true },
                    populate: true,
                },
            );
            ops.push(HostOp::WriteGuest { addr: stval, value: PAGE_FAULT_MAGIC });
            assert(ops@ =~= spec_page_fault_ops(stval));
            Ok(VmExit::Resume(ops))
        },
        TrapCause::Other => Err(
            FatalTrap::UnhandledTrap { scause, sepc: ctx.guest_regs.sepc, stval },
        ),
    }
}

/// The firmware call in the argument registers of guest state `guest`, if
/// they hold one.
pub open spec fn spec_request(guest: GuestState) -> Option<SbiMessage> {
    match spec_from_regs(GeneralPurposeRegisters::spec_a_regs(guest.gprs)) {
        Ok(msg) => Some(msg),
        Err(_) => None,
    }
}

/// Handles the trap that left `scause` and `stval` in the trap registers:
/// works out the cause, decodes the firmware call of an environment call
/// from the guest's argument registers, and dispatches as `handle_trap`
/// does.
pub fn vmexit_handler(ctx: &mut VmCpuRegisters, scause: u64, stval: u64) -> (r: Result<
    VmExit,
    FatalTrap,
>)
    requires
        spec_trap_cause(scause) == TrapCause::IllegalInstruction ==> old(ctx)@.sepc
            + INSTRUCTION_WIDTH <= u64::MAX,
    ensures
        outcome_of(r) == spec_outcome(
            old(ctx)@,
            spec_trap_cause(scause),
            spec_request(old(ctx)@),
            scause,
            stval,
        ),
        final(ctx)@ == spec_guest_after(old(ctx)@, spec_trap_cause(scause)),
{
    let cause = trap_cause(scause);
    let request = match cause {
        TrapCause::EnvironmentCall => {
            let args = ctx.guest_regs.gprs.a_regs();
            match SbiMessage::from_regs(&args) {
                Ok(msg) => Some(msg),
                Err(_) => None,
            }
        },
        _ => None,
    };
    handle_trap(ctx, cause, request, scause, stval)
}

/// An illegal instruction is skipped and nothing else happens: the guest
/// resumes four bytes further on with the magic value in `a1`, every other
/// register and both status registers are as they were, and the caller has
/// nothing to carry out.
pub proof fn lemma_illegal_instruction_skips(
    guest: GuestState,
    request: Option<SbiMessage>,
    scause: u64,
    stval: u64,
)
    requires
        guest.gprs.len() == 32,
        guest.sepc + INSTRUCTION_WIDTH <= u64::MAX,
    ensures
        spec_outcome(guest, TrapCause::IllegalInstruction, request, scause, stval)
            == Outcome::Resume(Seq::empty()),
        spec_guest_after(guest, TrapCause::IllegalInstruction).sepc == guest.sepc + 4,
        spec_guest_after(guest, TrapCause::IllegalInstruction).gprs.len() == 32,
        spec_guest_after(guest, TrapCause::IllegalInstruction).gprs[GprIndex::A1.spec_index()]
            == ILLEGAL_INSTRUCTION_MAGIC,
        forall|i: int|
            0 <= i < 32 && i != GprIndex::A1.spec_index() ==> spec_guest_after(
                guest,
                TrapCause::IllegalInstruction,
            ).gprs[i] == guest.gprs[i],
        spec_guest_after(guest, TrapCause::IllegalInstruction).hstatus == guest.hstatus,
        spec_guest_after(guest, TrapCause::IllegalInstruction).sstatus == guest.sstatus,
{
}

/// An environment call either ends the loop or stops the hypervisor; the
/// guest never runs on after one. It ends the loop exactly when the call is
/// a reset and `a0` and `a1` hold the two expected values. The guest state
/// is left alone either way.
pub proof fn lemma_environment_call_ends(
    guest: GuestState,
    request: Option<SbiMessage>,
    scause: u64,
    stval: u64,
)
    ensures
        spec_outcome(guest, TrapCause::EnvironmentCall, request, scause, stval) is Terminate <==> (
        request matches Some(SbiMessage::Reset(_)) && guest.gprs[GprIndex::A0.spec_index()]
            == RESET_MAGIC_A0 && guest.gprs[GprIndex::A1.spec_index()] == RESET_MAGIC_A1),
        !(spec_outcome(guest, TrapCause::EnvironmentCall, request, scause, stval) is Resume),
        spec_guest_after(guest, TrapCause::EnvironmentCall) == guest,
{
}

/// A trap with any other cause stops the hypervisor, with a report of the
/// cause, the guest's program counter and the trap value.
pub proof fn lemma_other_trap_is_fatal(
    guest: GuestState,
    request: Option<SbiMessage>,
    scause: u64,
    stval: u64,
)
    ensures
        spec_outcome(guest, TrapCause::Other, request, scause, stval) == Outcome::Fatal(
            FatalTrap::UnhandledTrap { scause, sepc: guest.sepc, stval },
        ),
        spec_guest_after(guest, TrapCause::Other) == guest,
{
}

/// The bytes of the page-fault magic value, lowest first.
pub proof fn lemma_page_fault_magic_bytes()
    ensures
        le_byte(PAGE_FAULT_MAGIC, 0) == 0x88,
        le_byte(PAGE_FAULT_MAGIC, 1) == 0x66,
        forall|i: int| 2 <= i < 8 ==> le_byte(PAGE_FAULT_MAGIC, i) == 0,
{
    assert((0x6688u64 >> 0u64) & 0xff == 0x88) by (bit_vector);
    assert((0x6688u64 >> 8u64) & 0xff == 0x66) by (bit_vector);
    assert forall|i: int| 2 <= i < 8 implies le_byte(PAGE_FAULT_MAGIC, i) == 0 by {
        let s = (8 * i) as u64;
        assert((0x6688u64 >> s) & 0xff == 0) by (bit_vector)
            requires
                16 <= s < 64,
        ;
    }
}

/// What the two operations of a guest-page fault do when the faulting page
/// lies in the address space and is not mapped: the mapping is accepted, so
/// the memory afterwards is the memory with the page mapped, backed and
/// zeroed, and the magic value written into it at the faulting address.
proof fn lemma_page_fault_ops_run(m: Machine, stval: u64)
    requires
        m.memory.contains(spec_align_down_4k(stval) as int, 4096),
        !m.memory.is_mapped(stval as int),
    ensures
        spec_align_down_4k(stval) as int == page_base(stval as int),
        m.memory.can_map(page_base(stval as int), 4096),
        m.run(spec_page_fault_ops(stval)) == (Machine {
            memory: m.memory.map_alloc(
                page_base(stval as int),
                4096,
                spec_read_write_user(),
                true,
            ).write(stval as int, PAGE_FAULT_MAGIC),
            ..m
        }),
        m.memory.map_alloc(
            page_base(stval as int),
            4096,
            spec_read_write_user(),
            true,
        ).is_backed_with(stval as int, spec_read_write_user()),
{
    let start = spec_align_down_4k(stval);
    lemma_run_two(
        m,
        HostOp::MapAlloc { start, size: PAGE_SIZE_4K, flags: spec_read_write_user(), populate: true },
        HostOp::WriteGuest { addr: stval, value: PAGE_FAULT_MAGIC },
    );
    assert(start as int == page_base(stval as int));
    assert forall|a: int| start <= a < start + 4096 implies !m.memory.is_mapped(a) by {
        assert(page_base(a) == start as int);
    }
    let mapped = m.memory.map_alloc(start as int, 4096, spec_read_write_user(), true);
    assert(mapped.pages.dom().contains(start as int));
    assert(mapped.frames.contains(start as int));
}

/// A guest-page fault on a page with no mapping is served: once the
/// operations are carried out, the page that holds the faulting address is
/// backed with read, write and user access, the eight bytes at the address
/// hold the magic value, and every other page is as it was. The guest state
/// is left alone, so the guest runs the faulting load again.
///
/// The faulting page must lie in the guest's address space, and the eight
/// bytes must lie inside the faulting page: the write stops at a page with
/// no backing.
pub proof fn lemma_guest_page_fault_served(
    m: Machine,
    guest: GuestState,
    request: Option<SbiMessage>,
    scause: u64,
    stval: u64,
)
    requires
        m.memory.contains(spec_align_down_4k(stval) as int, 4096),
        !m.memory.is_mapped(stval as int),
        stval % 4096 <= 4096 - 8,
    ensures
        spec_outcome(guest, TrapCause::GuestPageFault, request, scause, stval) == Outcome::Resume(
            spec_page_fault_ops(stval),
        ),
        spec_guest_after(guest, TrapCause::GuestPageFault) == guest,
        m.run(spec_page_fault_ops(stval)).memory.is_backed_with(
            spec_align_down_4k(stval) as int,
            spec_read_write_user(),
        ),
        m.run(spec_page_fault_ops(stval)).memory.holds(stval as int, PAGE_FAULT_MAGIC),
        forall|a: int|
            page_base(a) != page_base(stval as int) ==> {
                &&& m.run(spec_page_fault_ops(stval)).memory.is_mapped(a) == m.memory.is_mapped(a)
                &&& m.run(spec_page_fault_ops(stval)).memory.is_backed(a) == m.memory.is_backed(a)
                &&& m.memory.is_mapped(a) ==> m.run(
                    spec_page_fault_ops(stval),
                ).memory.pages[page_base(a)] == m.memory.pages[page_base(a)]
                &&& m.run(spec_page_fault_ops(stval)).memory.bytes.dom().contains(a)
                    == m.memory.bytes.dom().contains(a)
                &&& m.memory.bytes.dom().contains(a) ==> m.run(
                    spec_page_fault_ops(stval),
                ).memory.bytes[a] == m.memory.bytes[a]
            },
        m.run(spec_page_fault_ops(stval)).memory.start == m.memory.start,
        m.run(spec_page_fault_ops(stval)).memory.end == m.memory.end,
        m.run(spec_page_fault_ops(stval)).hgatp == m.hgatp,
        m.run(spec_page_fault_ops(stval)).hstatus == m.hstatus,
        m.run(spec_page_fault_ops(stval)).cached == m.cached,
{
    lemma_page_fault_ops_run(m, stval);
    let addr = stval as int;
    let start = page_base(addr);
    let mapped = m.memory.map_alloc(start, 4096, spec_read_write_user(), true);
    let after = m.run(spec_page_fault_ops(stval));
    assert forall|i: int| 0 <= i < 8 implies after.memory.is_backed(addr + i)
        && after.memory.bytes.dom().contains(addr + i) && #[trigger] after.memory.bytes[addr + i]
        == le_byte(PAGE_FAULT_MAGIC, i) by {
        assert(page_base(addr + i) == start);
        assert(mapped.write_reaches(addr, addr + i));
    }
    assert forall|a: int| page_base(a) != page_base(addr) implies {
        &&& after.memory.is_mapped(a) == m.memory.is_mapped(a)
        &&& after.memory.is_backed(a) == m.memory.is_backed(a)
        &&& m.memory.is_mapped(a) ==> after.memory.pages[page_base(a)] == m.memory.pages[page_base(
            a,
        )]
        &&& after.memory.bytes.dom().contains(a) == m.memory.bytes.dom().contains(a)
        &&& m.memory.bytes.dom().contains(a) ==> after.memory.bytes[a] == m.memory.bytes[a]
    } by {
        assert(!(start <= page_base(a) < start + 4096));
        assert(!(start <= a < start + 4096));
        if mapped.write_reaches(addr, a) {
            assert(page_base(a) == start);
        }
    }
}

/// A guest-page fault in the last seven bytes of a page, with no backing for
/// the page after it, is served in part: the faulting page is backed, the
/// bytes of the magic value that fall into it are written, and the page
/// after it stays without backing.
///
/// Both pages must lie in the guest's address space: a write that leaves it
/// is refused as a whole.
pub proof fn lemma_guest_page_fault_at_page_end(m: Machine, stval: u64)
    requires
        m.memory.contains(spec_align_down_4k(stval) as int, 8192),
        !m.memory.is_mapped(stval as int),
        !m.memory.is_backed(stval + 8),
        stval % 4096 > 4096 - 8,
    ensures
        m.run(spec_page_fault_ops(stval)).memory.is_backed_with(
            spec_align_down_4k(stval) as int,
            spec_read_write_user(),
        ),
        !m.run(spec_page_fault_ops(stval)).memory.is_backed(stval + 8),
        !m.run(spec_page_fault_ops(stval)).memory.holds(stval as int, PAGE_FAULT_MAGIC),
        forall|i: int|
            0 <= i < 8 && page_base(stval + i) == page_base(stval as int) ==> #[trigger] m.run(
                spec_page_fault_ops(stval),
            ).memory.bytes[stval + i] == le_byte(PAGE_FAULT_MAGIC, i),
{
    lemma_page_fault_ops_run(m, stval);
    let addr = stval as int;
    let start = page_base(addr);
    let mapped = m.memory.map_alloc(start, 4096, spec_read_write_user(), true);
    let after = m.run(spec_page_fault_ops(stval));
    assert(page_base(addr + 8) == start + 4096);
    assert(page_base(addr + 7) == start + 4096);
    assert(!mapped.frames.contains(start + 4096) || !mapped.pages.dom().contains(start + 4096));
    assert(!after.memory.is_backed(addr + 7));
    if after.memory.holds(addr, PAGE_FAULT_MAGIC) {
        let last = after.memory.bytes[addr + 7];
        assert(after.memory.is_backed(addr + 7));
    }
    assert forall|i: int|
        0 <= i < 8 && page_base(addr + i) == page_base(addr) implies #[trigger] after.memory.bytes[addr
        + i] == le_byte(PAGE_FAULT_MAGIC, i) by {
        assert(mapped.write_reaches(addr, addr + i));
    }
}

} // verus!
