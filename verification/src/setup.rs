//! What the hypervisor prepares once, before the guest runs for the first
//! time: the guest's register context and the second-stage translation.

use crate::csr::{
    hgatp_for_root, hstatus_for_guest, spec_hgatp_for_root, spec_hstatus_for_guest,
    spec_sstatus_for_guest, sstatus_for_guest,
};
use crate::host::{lemma_run_two, HostOp, Machine};
use crate::vcpu::{GuestState, VmCpuRegisters};
use vstd::prelude::*;

verus! {

/// The guest-physical address at which the guest starts.
pub const VM_ENTRY: u64 = 0x8020_0000;

/// The guest state that is ready for a first entry, made from state `guest`
/// and the values read from the host's `hstatus` and `sstatus`.
pub open spec fn spec_prepared(guest: GuestState, hstatus: u64, sstatus: u64) -> GuestState {
    GuestState {
        hstatus: spec_hstatus_for_guest(hstatus),
        sstatus: spec_sstatus_for_guest(sstatus),
        sepc: VM_ENTRY,
        ..guest
    }
}

/// The operations that install the second-stage root page table at physical
/// address `root`: first the write of `hgatp`, then the invalidation of
/// every cached translation.
pub open spec fn spec_install_ops(root: u64) -> Seq<HostOp> {
    seq![HostOp::WriteHgatp(spec_hgatp_for_root(root)), HostOp::FenceGvmaAll]
}

/// Prepares the context for the first entry into the guest, from the values
/// read from the host's `hstatus` and `sstatus`.
///
/// The context's `hstatus` is the host's with the guest flags set, its
/// `sstatus` has the previous privilege set to supervisor, and it starts at
/// [`VM_ENTRY`]. The general-purpose registers are left as they are. The one
/// operation returned writes the same `hstatus` to the live register.
pub fn prepare_guest_context(ctx: &mut VmCpuRegisters, hstatus: u64, sstatus: u64) -> (ops: Vec<
    HostOp,
>)
    ensures
        final(ctx)@ == spec_prepared(old(ctx)@, hstatus, sstatus),
        ops@ == seq![HostOp::WriteHstatus(final(ctx)@.hstatus)],
{
    let hstatus = hstatus_for_guest(hstatus);
    ctx.guest_regs.hstatus = hstatus;
    ctx.guest_regs.sstatus = sstatus_for_guest(sstatus);
    ctx.guest_regs.sepc = VM_ENTRY;
    let mut ops: Vec<HostOp> = Vec::new();
    ops.push(HostOp::WriteHstatus(hstatus));
    assert(ops@ =~= seq![HostOp::WriteHstatus(hstatus)]);
    ops
}

/// The operations that bind the second-stage root page table at physical
/// address `ept_root`: the write of `hgatp`, then the invalidation of every
/// cached translation, in that order.
pub fn prepare_vm_pgtable(ept_root: u64) -> (ops: Vec<HostOp>)
    ensures
        ops@ == spec_install_ops(ept_root),
{
    let mut ops: Vec<HostOp> = Vec::new();
    ops.push(HostOp::WriteHgatp(hgatp_for_root(ept_root)));
    ops.push(HostOp::FenceGvmaAll);
    assert(ops@ =~= spec_install_ops(ept_root));
    ops
}

/// After the root is installed, `hgatp` selects it, no translation is
/// cached, so none is stale, and nothing else has changed.
pub proof fn lemma_install_effect(m: Machine, root: u64)
    ensures
        m.run(spec_install_ops(root)) == (Machine {
            hgatp: spec_hgatp_for_root(root),
            cached: Set::empty(),
            ..m
        }),
        m.run(spec_install_ops(root)).stale() =~= Set::<(u64, int)>::empty(),
{
    lemma_run_two(m, HostOp::WriteHgatp(spec_hgatp_for_root(root)), HostOp::FenceGvmaAll);
}

/// Installing the same root twice in a row leaves the machine as installing
/// it once does.
pub proof fn lemma_install_idempotent(m: Machine, root: u64)
    ensures
        m.run(spec_install_ops(root)).run(spec_install_ops(root)) == m.run(spec_install_ops(root)),
{
    lemma_install_effect(m, root);
    lemma_install_effect(m.run(spec_install_ops(root)), root);
}

} // verus!
