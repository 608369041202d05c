//! The register context of the guest: what the host loads on the way into
//! the guest and finds again after a trap.

use crate::regs::GeneralPurposeRegisters;
use vstd::prelude::*;

verus! {

/// The guest's state as plain values: the 32 general-purpose registers, the
/// two status registers and the program counter.
pub struct GuestState {
    pub gprs: Seq<u64>,
    pub sstatus: u64,
    pub hstatus: u64,
    pub sepc: u64,
}

/// Guest state that the host holds while the guest is not running.
#[derive(Clone, Copy, Debug)]
pub struct GuestCpuState {
    /// General-purpose registers.
    pub gprs: GeneralPurposeRegisters,
    /// Supervisor status of the guest.
    pub sstatus: u64,
    /// Hypervisor status to enter the guest with.
    pub hstatus: u64,
    /// Address at which the guest starts or resumes.
    pub sepc: u64,
}

impl View for GuestCpuState {
    type V = GuestState;

    open spec fn view(&self) -> GuestState {
        GuestState {
            gprs: self.gprs@,
            sstatus: self.sstatus,
            hstatus: self.hstatus,
            sepc: self.sepc,
        }
    }
}

/// The register context of one virtual hart. Its view is the guest state.
#[derive(Clone, Copy, Debug)]
pub struct VmCpuRegisters {
    /// The guest's registers.
    pub guest_regs: GuestCpuState,
}

impl View for VmCpuRegisters {
    type V = GuestState;

    open spec fn view(&self) -> GuestState {
        self.guest_regs@
    }
}

/// The state of a context that has never run: every register is zero.
pub open spec fn spec_reset_state() -> GuestState {
    GuestState { gprs: Seq::new(32, |i: int| 0u64), sstatus: 0, hstatus: 0, sepc: 0 }
}

impl Default for VmCpuRegisters {
    fn default() -> (r: Self)
        ensures
            r@ == spec_reset_state(),
    {
        VmCpuRegisters {
            guest_regs: GuestCpuState {
                gprs: GeneralPurposeRegisters::new(),
                sstatus: 0,
                hstatus: 0,
                sepc: 0,
            },
        }
    }
}

} // verus!
