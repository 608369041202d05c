//! General-purpose registers of a guest hart. Registers are 64 bits wide.

use vstd::prelude::*;

verus! {

/// Number of general-purpose registers of a hart.
pub const GPR_COUNT: usize = 32;

/// Number of argument registers, `a0` to `a7`.
pub const ARG_COUNT: usize = 8;

/// The role of each general-purpose register, in register-file order.
#[derive(Clone, Copy, Debug, PartialEq, Eq, Structural)]
pub enum GprIndex {
    Zero,
    RA,
    SP,
    GP,
    TP,
    T0,
    T1,
    T2,
    S0,
    S1,
    A0,
    A1,
    A2,
    A3,
    A4,
    A5,
    A6,
    A7,
    S2,
    S3,
    S4,
    S5,
    S6,
    S7,
    S8,
    S9,
    S10,
    S11,
    T3,
    T4,
    T5,
    T6,
}

impl GprIndex {
    /// Position of the register in the register file: `x0` is 0, `x31` is 31.
    pub open spec fn spec_index(self) -> int {
        match self {
            GprIndex::Zero => 0,
            GprIndex::RA => 1,
            GprIndex::SP => 2,
            GprIndex::GP => 3,
            GprIndex::TP => 4,
            GprIndex::T0 => 5,
            GprIndex::T1 => 6,
            GprIndex::T2 => 7,
            GprIndex::S0 => 8,
            GprIndex::S1 => 9,
            GprIndex::A0 => 10,
            GprIndex::A1 => 11,
            GprIndex::A2 => 12,
            GprIndex::A3 => 13,
            GprIndex::A4 => 14,
            GprIndex::A5 => 15,
            GprIndex::A6 => 16,
            GprIndex::A7 => 17,
            GprIndex::S2 => 18,
            GprIndex::S3 => 19,
            GprIndex::S4 => 20,
            GprIndex::S5 => 21,
            GprIndex::S6 => 22,
            GprIndex::S7 => 23,
            GprIndex::S8 => 24,
            GprIndex::S9 => 25,
            GprIndex::S10 => 26,
            GprIndex::S11 => 27,
            GprIndex::T3 => 28,
            GprIndex::T4 => 29,
            GprIndex::T5 => 30,
            GprIndex::T6 => 31,
        }
    }

    /// Position of the register in the register file.
    pub fn index(self) -> (i: usize)
        ensures
            i == self.spec_index(),
            i < GPR_COUNT,
    {
        match self {
            GprIndex::Zero => 0,
            GprIndex::RA => 1,
            GprIndex::SP => 2,
            GprIndex::GP => 3,
            GprIndex::TP => 4,
            GprIndex::T0 => 5,
            GprIndex::T1 => 6,
            GprIndex::T2 => 7,
            GprIndex::S0 => 8,
            GprIndex::S1 => 9,
            GprIndex::A0 => 10,
            GprIndex::A1 => 11,
            GprIndex::A2 => 12,
            GprIndex::A3 => 13,
            GprIndex::A4 => 14,
            GprIndex::A5 => 15,
            GprIndex::A6 => 16,
            GprIndex::A7 => 17,
            GprIndex::S2 => 18,
            GprIndex::S3 => 19,
            GprIndex::S4 => 20,
            GprIndex::S5 => 21,
            GprIndex::S6 => 22,
            GprIndex::S7 => 23,
            GprIndex::S8 => 24,
            GprIndex::S9 => 25,
            GprIndex::S10 => 26,
            GprIndex::S11 => 27,
            GprIndex::T3 => 28,
            GprIndex::T4 => 29,
            GprIndex::T5 => 30,
            GprIndex::T6 => 31,
        }
    }

    /// The register at position `raw` of the register file, if there is one.
    pub fn from_raw(raw: u32) -> (r: Option<GprIndex>)
        ensures
            raw < 32 ==> r is Some && r->0.spec_index() == raw,
            raw >= 32 ==> r is None,
    {
        match raw {
            0 => Some(GprIndex::Zero),
            1 => Some(GprIndex::RA),
            2 => Some(GprIndex::SP),
            3 => Some(GprIndex::GP),
            4 => Some(GprIndex::TP),
            5 => Some(GprIndex::T0),
            6 => Some(GprIndex::T1),
            7 => Some(GprIndex::T2),
            8 => Some(GprIndex::S0),
            9 => Some(GprIndex::S1),
            10 => Some(GprIndex::A0),
            11 => Some(GprIndex::A1),
            12 => Some(GprIndex::A2),
            13 => Some(GprIndex::A3),
            14 => Some(GprIndex::A4),
            15 => Some(GprIndex::A5),
            16 => Some(GprIndex::A6),
            17 => Some(GprIndex::A7),
            18 => Some(GprIndex::S2),
            19 => Some(GprIndex::S3),
            20 => Some(GprIndex::S4),
            21 => Some(GprIndex::S5),
            22 => Some(GprIndex::S6),
            23 => Some(GprIndex::S7),
            24 => Some(GprIndex::S8),
            25 => Some(GprIndex::S9),
            26 => Some(GprIndex::S10),
            27 => Some(GprIndex::S11),
            28 => Some(GprIndex::T3),
            29 => Some(GprIndex::T4),
            30 => Some(GprIndex::T5),
            31 => Some(GprIndex::T6),
            _ => None,
        }
    }
}

/// The general-purpose register file of a hart.
///
/// Its view is the sequence of the 32 register values in register-file order.
#[derive(Clone, Copy, Debug)]
pub struct GeneralPurposeRegisters {
    regs: [u64; 32],
}

impl View for GeneralPurposeRegisters {
    type V = Seq<u64>;

    closed spec fn view(&self) -> Seq<u64> {
        self.regs@
    }
}

impl GeneralPurposeRegisters {
    /// What `set_reg` leaves in a register file `regs`: the hard-wired zero
    /// register ignores the write, every other register takes `val`.
    pub open spec fn spec_set_reg(regs: Seq<u64>, reg_index: GprIndex, val: u64) -> Seq<u64> {
        if reg_index == GprIndex::Zero {
            regs
        } else {
            regs.update(reg_index.spec_index(), val)
        }
    }

    /// The argument registers `a0` to `a7` of a register file `regs`.
    pub open spec fn spec_a_regs(regs: Seq<u64>) -> Seq<u64> {
        regs.subrange(10, 18)
    }

    /// The zero register reads as zero.
    pub open spec fn wf(&self) -> bool {
        self@[0] == 0
    }

    /// A register file with every register zero.
    pub fn new() -> (r: Self)
        ensures
            r@ == Seq::new(32, |i: int| 0u64),
            r.wf(),
    {
        let r = GeneralPurposeRegisters { regs: [0u64; 32] };
        assert(r@ =~= Seq::new(32, |i: int| 0u64));
        r
    }

    /// Every register file holds 32 registers.
    pub proof fn lemma_len(&self)
        ensures
            self@.len() == 32,
    {
    }

    /// The value of the given register.
    pub fn reg(&self, reg_index: GprIndex) -> (val: u64)
        ensures
            val == self@[reg_index.spec_index()],
    {
        self.regs[reg_index.index()]
    }

    /// Sets the given register to `val`. A write to the zero register is
    /// dropped.
    pub fn set_reg(&mut self, reg_index: GprIndex, val: u64)
        ensures
            final(self)@ == Self::spec_set_reg(old(self)@, reg_index, val),
            old(self).wf() ==> final(self).wf(),
    {
        if reg_index == GprIndex::Zero {
            return ;
        }
        let i = reg_index.index();
        self.regs[i] = val;
        assert(self@ =~= Self::spec_set_reg(old(self)@, reg_index, val));
    }

    /// The argument registers `a0` to `a7`, in order.
    pub fn a_regs(&self) -> (args: [u64; 8])
        ensures
            args@ == Self::spec_a_regs(self@),
    {
        let args = [
            self.regs[10],
            self.regs[11],
            self.regs[12],
            self.regs[13],
            self.regs[14],
            self.regs[15],
            self.regs[16],
            self.regs[17],
        ];
        assert(args@ =~= Self::spec_a_regs(self@));
        args
    }
}

} // verus!
