//! Trap-and-dispatch core of a minimal RISC-V hypervisor, together with the
//! allocators of the kernel it runs on.
//!
//! The hypervisor runs one guest under the H extension with a second stage of
//! address translation. Everything here is computation on plain values: the
//! caller reads and writes the control-and-status registers, enters the guest
//! and owns the real address space, and hands this crate what it read.
//!
//! - [`regs`], [`vcpu`]: the guest's registers and its register context.
//! - [`csr`]: the bit fields of `hstatus`, `sstatus` and `hgatp`.
//! - [`trap`], [`sbi`]: the cause of a trap and the firmware call of a guest.
//! - [`host`]: the operations asked of the machine, and what they mean.
//! - [`setup`]: what is prepared before the first entry into the guest.
//! - [`vmexit`]: the trap dispatcher.
//! - [`run`]: the run loop.
//! - [`early`], [`lab`], [`error`]: the allocators.

pub mod csr;
pub mod early;
pub mod error;
pub mod host;
pub mod lab;
pub mod regs;
pub mod run;
pub mod sbi;
pub mod setup;
pub mod trap;
pub mod vcpu;
pub mod vmexit;
