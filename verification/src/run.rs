//! The run loop of the hypervisor, as a state machine.
//!
//! The loop prepares the guest once, then enters the guest and handles the
//! trap that ends each run, until the guest shuts down or a trap is fatal.
//! Entering the guest is the caller's part. [`RunLoop`] tells it what to do
//! next:
//!
//! ```text
//! let mut step = run_loop.start(hstatus, sstatus, root);
//! while let Step::Enter(ops) = step {
//!     // carry out `ops`, enter the guest with `run_loop.context()`,
//!     // wait for the trap and save the guest's registers
//!     step = run_loop.on_trap(saved, scause, stval);
//! }
//! ```

use crate::csr::{spec_hgatp_for_root, spec_hstatus_for_guest};
use crate::host::{lemma_run_concat, lemma_run_one, HostOp, Machine};
use crate::setup::{
    lemma_install_effect, prepare_guest_context, prepare_vm_pgtable, spec_install_ops,
    spec_prepared,
};
use crate::trap::{spec_trap_cause, TrapCause};
use crate::vcpu::{spec_reset_state, GuestState, VmCpuRegisters};
use crate::vmexit::{
    spec_guest_after, spec_outcome, spec_request, vmexit_handler, FatalTrap, Outcome, VmExit,
    INSTRUCTION_WIDTH,
};
use vstd::prelude::*;

verus! {

/// Where the run loop stands.
#[derive(Clone, Copy, Debug, PartialEq, Eq, Structural)]
pub enum RunState {
    /// Nothing is prepared yet.
    Created,
    /// The guest is prepared and runs, or is about to run again.
    Running,
    /// The guest has shut down.
    ShutDown,
    /// A fatal trap has stopped the hypervisor.
    Failed(FatalTrap),
}

/// What the caller of the run loop does next.
#[derive(Debug, PartialEq, Eq)]
pub enum Step {
    /// Carry out the operations in order, enter the guest, and report the
    /// trap that ends the run.
    Enter(Vec<HostOp>),
    /// The guest has shut down: the loop is over, with success.
    Finished,
    /// The loop is over, with a failure.
    Abort(FatalTrap),
}

/// A step as a plain value.
pub enum StepView {
    Enter(Seq<HostOp>),
    Finished,
    Abort(FatalTrap),
}

impl View for Step {
    type V = StepView;

    open spec fn view(&self) -> StepView {
        match self {
            Step::Enter(ops) => StepView::Enter(ops@),
            Step::Finished => StepView::Finished,
            Step::Abort(fatal) => StepView::Abort(*fatal),
        }
    }
}

/// The operations before the first entry into the guest: the write of
/// `hstatus`, then the installation of the second-stage root.
pub open spec fn spec_start_ops(hstatus: u64, root: u64) -> Seq<HostOp> {
    seq![HostOp::WriteHstatus(spec_hstatus_for_guest(hstatus))] + spec_install_ops(root)
}

/// The state of the loop and the next step after a trap with the given
/// outcome.
pub open spec fn spec_next(outcome: Outcome) -> (RunState, StepView) {
    match outcome {
        Outcome::Terminate => (RunState::ShutDown, StepView::Finished),
        Outcome::Resume(ops) => (RunState::Running, StepView::Enter(ops)),
        Outcome::Fatal(fatal) => (RunState::Failed(fatal), StepView::Abort(fatal)),
    }
}

/// The run loop of one guest: its register context and where the loop
/// stands.
pub struct RunLoop {
    ctx: VmCpuRegisters,
    state: RunState,
}

impl RunLoop {
    /// Where the loop stands.
    pub closed spec fn state(&self) -> RunState {
        self.state
    }

    /// The guest state to enter the guest with.
    pub closed spec fn guest(&self) -> GuestState {
        self.ctx@
    }

    /// A loop that has prepared nothing, with an all-zero context.
    pub fn new() -> (r: Self)
        ensures
            r.state() == RunState::Created,
            r.guest() == spec_reset_state(),
    {
        RunLoop { ctx: VmCpuRegisters::default(), state: RunState::Created }
    }

    /// Where the loop stands.
    pub fn current_state(&self) -> (s: RunState)
        ensures
            s == self.state(),
    {
        self.state
    }

    /// The register context to enter the guest with.
    pub fn context(&self) -> (ctx: VmCpuRegisters)
        ensures
            ctx@ == self.guest(),
    {
        self.ctx
    }

    /// Prepares the guest for its first run, from the values read from the
    /// host's `hstatus` and `sstatus` and the physical address of the
    /// second-stage root page table.
    ///
    /// The context is made ready as `prepare_guest_context` does. The step
    /// returned asks for the write of `hstatus`, the write of `hgatp` and the
    /// invalidation of the cached translations, in that order, and then for
    /// the first entry. This is done once: the loop must not have started.
    pub fn start(&mut self, hstatus: u64, sstatus: u64, ept_root: u64) -> (step: Step)
        requires
            old(self).state() == RunState::Created,
        ensures
            final(self).state() == RunState::Running,
            final(self).guest() == spec_prepared(old(self).guest(), hstatus, sstatus),
            step@ == StepView::Enter(spec_start_ops(hstatus, ept_root)),
    {
        let mut ops = prepare_guest_context(&mut self.ctx, hstatus, sstatus);
        let mut install = prepare_vm_pgtable(ept_root);
        ops.append(&mut install);
        self.state = RunState::Running;
        assert(ops@ =~= spec_start_ops(hstatus, ept_root));
        Step::Enter(ops)
    }

    /// Handles the trap that ended a run of the guest. `saved` holds the
    /// guest's registers as the trap left them, `scause` and `stval` are the
    /// trap registers. The trap is handled as `vmexit_handler` does, and the
    /// step says what comes next: another entry while the guest can go on,
    /// the end of the loop once it has shut down or a trap is fatal.
    ///
    /// The loop must be running: after it has ended there is no further
    /// entry.
    pub fn on_trap(&mut self, saved: VmCpuRegisters, scause: u64, stval: u64) -> (step: Step)
        requires
            old(self).state() == RunState::Running,
            spec_trap_cause(scause) == TrapCause::IllegalInstruction ==> saved@.sepc
                + INSTRUCTION_WIDTH <= u64::MAX,
        ensures
            final(self).guest() == spec_guest_after(saved@, spec_trap_cause(scause)),
            (final(self).state(), step@) == spec_next(
                spec_outcome(saved@, spec_trap_cause(scause), spec_request(saved@), scause, stval),
            ),
    {
        self.ctx = saved;
        let r = vmexit_handler(&mut self.ctx, scause, stval);
        match r {
            Ok(VmExit::Terminate) => {
                self.state = RunState::ShutDown;
                Step::Finished
            },
            Ok(VmExit::Resume(ops)) => {
                Step::Enter(ops)
            },
            Err(fatal) => {
                self.state = RunState::Failed(fatal);
                Step::Abort(fatal)
            },
        }
    }
}

/// Before the first entry the machine is ready for the guest: `hstatus`
/// holds what the context holds, `hgatp` selects the root, no translation is
/// cached, and the guest's memory is as it was.
pub proof fn lemma_start_effect(m: Machine, guest: GuestState, hstatus: u64, sstatus: u64, root: u64)
    ensures
        m.run(spec_start_ops(hstatus, root)) == (Machine {
            hstatus: spec_prepared(guest, hstatus, sstatus).hstatus,
            hgatp: spec_hgatp_for_root(root),
            cached: Set::empty(),
            memory: m.memory,
        }),
{
    let write = HostOp::WriteHstatus(spec_hstatus_for_guest(hstatus));
    lemma_run_concat(m, seq![write], spec_install_ops(root));
    lemma_run_one(m, write);
    lemma_install_effect(m.step(write), root);
}

/// The loop asks for an entry exactly when it goes on running: once the
/// guest has shut down or a trap was fatal, the step is the end of the loop,
/// and `on_trap` cannot be called again.
pub proof fn lemma_enter_only_while_running(outcome: Outcome)
    ensures
        spec_next(outcome).1 is Enter <==> spec_next(outcome).0 == RunState::Running,
        spec_next(outcome).1 is Finished <==> spec_next(outcome).0 == RunState::ShutDown,
        spec_next(outcome).1 is Finished <==> outcome is Terminate,
        spec_next(outcome).1 is Abort <==> outcome is Fatal,
        spec_next(outcome).0 != RunState::Created,
{
}

} // verus!
