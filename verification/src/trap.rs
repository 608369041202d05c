//! Classification of the trap that ended a run of the guest, from the value
//! of `scause`.

use riscv::register::scause::{Scause, Trap};
use vstd::prelude::*;

verus! {

/// Exception code of an illegal instruction.
pub const EXCEPTION_ILLEGAL_INSTRUCTION: u64 = 2;

/// Exception code of an environment call from the guest's supervisor mode.
pub const EXCEPTION_VIRTUAL_SUPERVISOR_ENV_CALL: u64 = 10;

/// Exception code of a guest-page fault on a load.
pub const EXCEPTION_LOAD_GUEST_PAGE_FAULT: u64 = 21;

/// Why the guest stopped running, as far as the hypervisor tells causes
/// apart.
#[derive(Clone, Copy, Debug, PartialEq, Eq, Structural)]
pub enum TrapCause {
    /// The guest called the firmware.
    EnvironmentCall,
    /// The guest ran an instruction that the hart refused.
    IllegalInstruction,
    /// The guest loaded from a guest-physical page with no backing.
    GuestPageFault,
    /// Any other exception, and every interrupt.
    Other,
}

/// The cause that an interrupt flag and a cause code stand for.
pub open spec fn spec_classify(interrupt: bool, code: u64) -> TrapCause {
    if interrupt {
        TrapCause::Other
    } else if code == EXCEPTION_VIRTUAL_SUPERVISOR_ENV_CALL {
        TrapCause::EnvironmentCall
    } else if code == EXCEPTION_ILLEGAL_INSTRUCTION {
        TrapCause::IllegalInstruction
    } else if code == EXCEPTION_LOAD_GUEST_PAGE_FAULT {
        TrapCause::GuestPageFault
    } else {
        TrapCause::Other
    }
}

/// The cause that a value of `scause` stands for. An interrupt has the top
/// bit set, so a value that equals an exception code is that exception.
pub open spec fn spec_trap_cause(scause: u64) -> TrapCause {
    if scause == EXCEPTION_VIRTUAL_SUPERVISOR_ENV_CALL {
        TrapCause::EnvironmentCall
    } else if scause == EXCEPTION_ILLEGAL_INSTRUCTION {
        TrapCause::IllegalInstruction
    } else if scause == EXCEPTION_LOAD_GUEST_PAGE_FAULT {
        TrapCause::GuestPageFault
    } else {
        TrapCause::Other
    }
}

/// Calls `riscv::register::scause::Scause::cause` on the register value
/// built by `Scause::from_bits`, and takes the raw trap apart. Trusted: the
/// flag is bit 63 of `bits`, true for an interrupt, and the code is the
/// other 63 bits.
#[verifier::external_body]
fn scause_cause(bits: u64) -> (r: (bool, u64))
    ensures
        r.0 == ((bits >> 63) & 1 != 0),
        r.1 == bits & 0x7fff_ffff_ffff_ffff,
{
    match Scause::from_bits(bits as usize).cause() {
        Trap::Interrupt(code) => (true, code as u64),
        Trap::Exception(code) => (false, code as u64),
    }
}

/// The cause that an interrupt flag and a cause code stand for.
pub fn classify(interrupt: bool, code: u64) -> (cause: TrapCause)
    ensures
        cause == spec_classify(interrupt, code),
{
    if interrupt {
        TrapCause::Other
    } else if code == EXCEPTION_VIRTUAL_SUPERVISOR_ENV_CALL {
        TrapCause::EnvironmentCall
    } else if code == EXCEPTION_ILLEGAL_INSTRUCTION {
        TrapCause::IllegalInstruction
    } else if code == EXCEPTION_LOAD_GUEST_PAGE_FAULT {
        TrapCause::GuestPageFault
    } else {
        TrapCause::Other
    }
}

/// The cause of the trap that left `scause` in the trap-cause register.
pub fn trap_cause(scause: u64) -> (cause: TrapCause)
    ensures
        cause == spec_trap_cause(scause),
{
    let (interrupt, code) = scause_cause(scause);
    assert(!interrupt ==> code == scause) by (bit_vector)
        requires
            interrupt == ((scause >> 63) & 1 != 0),
            code == scause & 0x7fff_ffff_ffff_ffff,
    ;
    assert(interrupt ==> scause >= 0x8000_0000_0000_0000) by (bit_vector)
        requires
            interrupt == ((scause >> 63) & 1 != 0),
    ;
    classify(interrupt, code)
}

} // verus!
