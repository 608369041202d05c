use std::collections::{BTreeMap, BTreeSet};

use simple_hv::host::{HostOp, MappingFlags};
use simple_hv::regs::GprIndex;
use simple_hv::run::{RunLoop, RunState, Step};
use simple_hv::setup::{prepare_vm_pgtable, VM_ENTRY};
use simple_hv::vcpu::VmCpuRegisters;
use simple_hv::vmexit::FatalTrap;

const PAGE: u64 = 4096;
const ROOT: u64 = 0x8040_0000;
const SPACE_END: u64 = 0x7fff_ffff_f000;

/// One instruction of a scripted guest. Each takes four bytes of the
/// guest's program, which starts at the entry address.
#[derive(Clone, Copy)]
enum Insn {
    /// An instruction that the hart refuses; the field is its encoding.
    Illegal(u64),
    /// Load eight bytes from a guest-physical address into a register.
    Load(GprIndex, u64),
    /// Load an immediate into a register.
    Li(GprIndex, u64),
    /// Call the firmware.
    Ecall,
}

/// A machine that carries out the operations it is asked for and runs a
/// scripted guest. Its address space spans the addresses below `SPACE_END`;
/// a mapped page has a frame or waits for one.
struct Sim {
    hstatus: u64,
    hgatp: u64,
    cached: BTreeSet<(u64, u64)>,
    pages: BTreeMap<u64, (MappingFlags, Option<Vec<u8>>)>,
    entries: usize,
    page_faults: usize,
    illegal_instructions: usize,
    ecalls: usize,
}

impl Sim {
    fn new() -> Sim {
        Sim {
            hstatus: 0x2_0000_0000,
            hgatp: 0,
            cached: BTreeSet::new(),
            pages: BTreeMap::new(),
            entries: 0,
            page_faults: 0,
            illegal_instructions: 0,
            ecalls: 0,
        }
    }

    fn apply(&mut self, op: &HostOp) {
        match *op {
            HostOp::WriteHstatus(value) => self.hstatus = value,
            HostOp::WriteHgatp(value) => self.hgatp = value,
            HostOp::FenceGvmaAll => self.cached.clear(),
            HostOp::MapAlloc { start, size, flags, populate } => {
                let inside = start.checked_add(size).is_some_and(|end| end <= SPACE_END);
                if size == 0 || !inside || start % PAGE != 0 || size % PAGE != 0 {
                    return;
                }
                let bases: Vec<u64> = (0..size / PAGE).map(|i| start + i * PAGE).collect();
                if bases.iter().any(|b| self.pages.contains_key(b)) {
                    return;
                }
                for base in bases {
                    let frame = if populate { Some(vec![0u8; PAGE as usize]) } else { None };
                    self.pages.insert(base, (flags, frame));
                }
            }
            HostOp::WriteGuest { addr, value } => {
                if !addr.checked_add(8).is_some_and(|end| end <= SPACE_END) {
                    return;
                }
                for (i, byte) in value.to_le_bytes().iter().enumerate() {
                    let a = addr + i as u64;
                    match self.pages.get_mut(&(a - a % PAGE)) {
                        Some((_, Some(bytes))) => bytes[(a % PAGE) as usize] = *byte,
                        _ => return,
                    }
                }
            }
        }
    }

    fn read(&mut self, addr: u64) -> Option<[u8; 8]> {
        let mut out = [0u8; 8];
        for i in 0..8u64 {
            let a = addr + i;
            let (flags, frame) = self.pages.get(&(a - a % PAGE))?;
            if !flags.read {
                return None;
            }
            out[i as usize] = frame.as_ref()?[(a % PAGE) as usize];
        }
        self.cached.insert((self.hgatp, addr - addr % PAGE));
        Some(out)
    }

    /// Runs the guest from its program counter until it traps; returns the
    /// trap registers `scause` and `stval`.
    fn enter(&mut self, ctx: &mut VmCpuRegisters, program: &[Insn]) -> (u64, u64) {
        assert_eq!(self.hstatus & 0x180, 0x180, "entered without the guest flags");
        assert_eq!(self.hstatus, ctx.guest_regs.hstatus);
        assert_eq!(self.hgatp, 0x8000_0000_0000_0000 | (ROOT >> 12));
        assert!(self.cached.iter().all(|t| t.0 == self.hgatp), "stale translation");
        self.entries += 1;
        loop {
            let index = ((ctx.guest_regs.sepc - VM_ENTRY) / 4) as usize;
            match program[index] {
                Insn::Illegal(bits) => {
                    self.illegal_instructions += 1;
                    return (2, bits);
                }
                Insn::Load(rd, addr) => match self.read(addr) {
                    Some(bytes) => ctx.guest_regs.gprs.set_reg(rd, u64::from_le_bytes(bytes)),
                    None => {
                        self.page_faults += 1;
                        return (21, addr);
                    }
                },
                Insn::Li(rd, imm) => ctx.guest_regs.gprs.set_reg(rd, imm),
                Insn::Ecall => {
                    self.ecalls += 1;
                    return (10, 0);
                }
            }
            ctx.guest_regs.sepc += 4;
        }
    }
}

/// Runs the loop to its end on the simulated machine and returns the last
/// step.
fn run(sim: &mut Sim, run_loop: &mut RunLoop, program: &[Insn]) -> Step {
    let hstatus = sim.hstatus;
    let mut step = run_loop.start(hstatus, 0, ROOT);
    loop {
        match step {
            Step::Enter(ops) => {
                for op in &ops {
                    sim.apply(op);
                }
                let mut ctx = run_loop.context();
                let (scause, stval) = sim.enter(&mut ctx, program);
                step = run_loop.on_trap(ctx, scause, stval);
            }
            last => return last,
        }
    }
}

fn read_write_user() -> MappingFlags {
    MappingFlags { read: true, write: true, execute: false, user: true }
}

#[test]
fn scenario_guest_touches_an_unbacked_page() {
    let x = 0x40;
    let program = [
        Insn::Load(GprIndex::A0, x),
        Insn::Li(GprIndex::A1, 0x1234),
        Insn::Li(GprIndex::A7, 8),
        Insn::Ecall,
    ];
    let mut sim = Sim::new();
    let mut run_loop = RunLoop::new();
    let last = run(&mut sim, &mut run_loop, &program);
    assert_eq!(sim.page_faults, 1);
    assert_eq!(sim.pages.len(), 1);
    assert_eq!(sim.pages[&0].0, read_write_user());
    assert_eq!(sim.read(x), Some([0x88, 0x66, 0, 0, 0, 0, 0, 0]));
    // The rest of the page is zero.
    assert_eq!(sim.read(0x38), Some([0; 8]));
    assert_eq!(sim.read(0x48), Some([0; 8]));
    // The guest went on: it loaded the value and reached its shutdown call.
    assert_eq!(run_loop.context().guest_regs.gprs.reg(GprIndex::A0), 0x6688);
    assert_eq!(sim.ecalls, 1);
    assert_eq!(sim.entries, 2);
    assert_eq!(last, Step::Finished);
}

#[test]
fn scenario_fault_in_the_last_bytes_of_a_page() {
    // The page after the faulting one has no frame: the write stops there.
    let mut sim = Sim::new();
    let mut run_loop = RunLoop::new();
    run_loop.start(sim.hstatus, 0, ROOT);
    let step = run_loop.on_trap(run_loop.context(), 21, 0x1ffc);
    let ops = match step {
        Step::Enter(ops) => ops,
        other => panic!("unexpected {:?}", other),
    };
    assert_eq!(
        ops,
        vec![
            HostOp::MapAlloc { start: 0x1000, size: 4096, flags: read_write_user(), populate: true },
            HostOp::WriteGuest { addr: 0x1ffc, value: 0x6688 },
        ]
    );
    for op in &ops {
        sim.apply(op);
    }
    assert_eq!(sim.pages.len(), 1);
    assert_eq!(sim.read(0x1ff8), Some([0, 0, 0, 0, 0x88, 0x66, 0, 0]));
    assert_eq!(sim.read(0x1ffc), None);
}

#[test]
fn scenario_page_fault_repeats_the_faulting_load() {
    let program = [Insn::Load(GprIndex::T0, 0x5008), Insn::Ecall];
    let mut sim = Sim::new();
    let mut run_loop = RunLoop::new();
    let step = run_loop.start(sim.hstatus, 0, ROOT);
    let ops = match step {
        Step::Enter(ops) => ops,
        other => panic!("unexpected {:?}", other),
    };
    for op in &ops {
        sim.apply(op);
    }
    let mut ctx = run_loop.context();
    let (scause, stval) = sim.enter(&mut ctx, &program);
    assert_eq!((scause, stval), (21, 0x5008));
    let step = run_loop.on_trap(ctx, scause, stval);
    // Same program counter: the load runs again.
    assert_eq!(run_loop.context().guest_regs.sepc, VM_ENTRY);
    assert_eq!(
        step,
        Step::Enter(vec![
            HostOp::MapAlloc { start: 0x5000, size: 4096, flags: read_write_user(), populate: true },
            HostOp::WriteGuest { addr: 0x5008, value: 0x6688 },
        ])
    );
    assert_eq!(run_loop.current_state(), RunState::Running);
}

#[test]
fn scenario_guest_runs_an_instruction_the_host_does_not_model() {
    let program = [
        Insn::Illegal(0xf140_25f3),
        Insn::Li(GprIndex::A0, 0x6688),
        Insn::Li(GprIndex::A7, 8),
        Insn::Ecall,
    ];
    let mut sim = Sim::new();
    let mut run_loop = RunLoop::new();
    let step = run_loop.start(sim.hstatus, 0, ROOT);
    if let Step::Enter(ops) = &step {
        for op in ops {
            sim.apply(op);
        }
    }
    let mut ctx = run_loop.context();
    let (scause, stval) = sim.enter(&mut ctx, &program);
    assert_eq!((scause, stval), (2, 0xf140_25f3));
    let step = run_loop.on_trap(ctx, scause, stval);
    assert_eq!(step, Step::Enter(vec![]));
    assert_eq!(sim.illegal_instructions, 1);
    assert_eq!(run_loop.context().guest_regs.sepc, VM_ENTRY + 4);
    assert_eq!(run_loop.context().guest_regs.gprs.reg(GprIndex::A1), 0x1234);
    // The guest continues after the skipped instruction.
    let mut ctx = run_loop.context();
    let (scause, _) = sim.enter(&mut ctx, &program);
    assert_eq!(scause, 10);
    assert_eq!(sim.illegal_instructions, 1);
    assert_eq!(run_loop.on_trap(ctx, scause, 0), Step::Finished);
}

#[test]
fn scenario_shutdown_with_the_expected_arguments() {
    // The guest gets a1 from the skipped instruction and a0 from the page
    // that is backed on its first touch, then shuts down.
    let program = [
        Insn::Illegal(0xf140_25f3),
        Insn::Load(GprIndex::A0, 0x40),
        Insn::Li(GprIndex::A7, 8),
        Insn::Ecall,
    ];
    let mut sim = Sim::new();
    let mut run_loop = RunLoop::new();
    let last = run(&mut sim, &mut run_loop, &program);
    assert_eq!(last, Step::Finished);
    assert_eq!(run_loop.current_state(), RunState::ShutDown);
    assert_eq!(sim.entries, 3);
    assert_eq!(sim.illegal_instructions, 1);
    assert_eq!(sim.page_faults, 1);
    assert_eq!(sim.ecalls, 1);
    assert_eq!(run_loop.context().guest_regs.gprs.reg(GprIndex::A0), 0x6688);
    assert_eq!(run_loop.context().guest_regs.gprs.reg(GprIndex::A1), 0x1234);
}

#[test]
fn scenario_shutdown_with_mismatched_arguments() {
    let program = [
        Insn::Li(GprIndex::A0, 1),
        Insn::Li(GprIndex::A1, 2),
        Insn::Li(GprIndex::A7, 8),
        Insn::Ecall,
    ];
    let mut sim = Sim::new();
    let mut run_loop = RunLoop::new();
    let last = run(&mut sim, &mut run_loop, &program);
    assert_eq!(last, Step::Abort(FatalTrap::ResetArguments { a0: 1, a1: 2 }));
    assert_eq!(
        run_loop.current_state(),
        RunState::Failed(FatalTrap::ResetArguments { a0: 1, a1: 2 })
    );
    assert_eq!(sim.entries, 1);
}

#[test]
fn scenario_unsupported_call_stops_the_loop() {
    let program = [Insn::Li(GprIndex::A0, 0x41), Insn::Li(GprIndex::A7, 1), Insn::Ecall];
    let mut sim = Sim::new();
    let mut run_loop = RunLoop::new();
    let last = run(&mut sim, &mut run_loop, &program);
    assert_eq!(
        last,
        Step::Abort(FatalTrap::UnsupportedCall(simple_hv::sbi::SbiMessage::PutChar(0x41)))
    );
    assert_eq!(sim.entries, 1);
}

#[test]
fn start_prepares_context_and_translation_in_order() {
    let mut run_loop = RunLoop::new();
    assert_eq!(run_loop.current_state(), RunState::Created);
    let step = run_loop.start(0x2_0000_0000, 0x22, 0x8040_0000);
    assert_eq!(
        step,
        Step::Enter(vec![
            HostOp::WriteHstatus(0x2_0000_0180),
            HostOp::WriteHgatp(0x8000_0000_0008_0400),
            HostOp::FenceGvmaAll,
        ])
    );
    assert_eq!(run_loop.current_state(), RunState::Running);
    let ctx = run_loop.context();
    assert_eq!(ctx.guest_regs.hstatus, 0x2_0000_0180);
    assert_eq!(ctx.guest_regs.sstatus, 0x122);
    assert_eq!(ctx.guest_regs.sepc, 0x8020_0000);
}

#[test]
fn unhandled_trap_stops_the_loop() {
    let mut run_loop = RunLoop::new();
    run_loop.start(0, 0, ROOT);
    let ctx = run_loop.context();
    let step = run_loop.on_trap(ctx, 23, 0x9000);
    let fatal = FatalTrap::UnhandledTrap { scause: 23, sepc: 0x8020_0000, stval: 0x9000 };
    assert_eq!(step, Step::Abort(fatal));
    assert_eq!(run_loop.current_state(), RunState::Failed(fatal));
}

#[test]
fn installing_the_root_twice_is_installing_it_once() {
    let mut once = Sim::new();
    once.cached.insert((0x8000_0000_0000_0001, 0x3000));
    once.pages.insert(0x3000, (read_write_user(), Some(vec![7u8; 4096])));
    let mut twice = Sim::new();
    twice.cached = once.cached.clone();
    twice.pages = once.pages.clone();
    for op in &prepare_vm_pgtable(ROOT) {
        once.apply(op);
    }
    for _ in 0..2 {
        for op in &prepare_vm_pgtable(ROOT) {
            twice.apply(op);
        }
    }
    assert_eq!(once.hgatp, 0x8000_0000_0008_0400);
    assert!(once.cached.is_empty());
    assert_eq!(once.hgatp, twice.hgatp);
    assert_eq!(once.cached, twice.cached);
    assert_eq!(once.hstatus, twice.hstatus);
    assert_eq!(once.pages, twice.pages);
    assert_eq!(once.read(0x3000), twice.read(0x3000));
    assert_eq!(once.read(0x3000), Some([7; 8]));
}
