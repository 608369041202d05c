//! Bit fields of the control-and-status registers that the hypervisor
//! prepares before it enters the guest: `hstatus`, `sstatus` and `hgatp`.
//!
//! Nothing here touches a register. Each function takes the value that was
//! read and returns the value to write.

use riscv::register::sstatus::{Sstatus, SPP};
use tock_registers::fields::FieldValue;
use tock_registers::LocalRegisterCopy;
use vstd::prelude::*;

verus! {

/// `hstatus.SPV`: the privilege to return to on `sret` is the guest's.
pub const HSTATUS_SPV: u64 = 0x80;

/// `hstatus.SPVP`: explicit guest memory accesses from the host run with
/// supervisor privilege.
pub const HSTATUS_SPVP: u64 = 0x100;

/// Position of `hstatus.SPV`.
pub const HSTATUS_SPV_SHIFT: usize = 7;

/// Position of `hstatus.SPVP`.
pub const HSTATUS_SPVP_SHIFT: usize = 8;

/// `sstatus.SPP`: the previous privilege was supervisor.
pub const SSTATUS_SPP: u64 = 0x100;

/// The bits of `sstatus` that hold a field which the register type of the
/// `riscv` crate knows, on a 64-bit hart.
pub const SSTATUS_MASK: u64 = 0x8000_0003_000d_e762;

/// `hgatp.MODE` for Sv39x4 translation.
pub const HGATP_MODE_SV39X4: u64 = 8;

/// Position of `hgatp.MODE`.
pub const HGATP_MODE_SHIFT: u64 = 60;

/// Width of the offset inside a 4 KiB page: a physical page number is an
/// address shifted right by this.
pub const PAGE_SHIFT: u64 = 12;

/// A register value `bits` in which the field of width mask `mask` at
/// position `shift` has been replaced by `value`.
pub open spec fn spec_modify_field(bits: u64, mask: u64, shift: usize, value: u64) -> u64 {
    (bits & !(mask << shift)) | ((value & mask) << shift)
}

/// What `hstatus` must hold on the way into the guest.
pub open spec fn spec_hstatus_for_guest(hstatus: u64) -> u64 {
    hstatus | HSTATUS_SPV | HSTATUS_SPVP
}

/// What the guest's `sstatus` must hold on its first entry: the value read,
/// with the previous privilege set to supervisor.
pub open spec fn spec_sstatus_for_guest(sstatus: u64) -> u64 {
    sstatus | SSTATUS_SPP
}

/// The `hgatp` value that selects Sv39x4 translation through the root page
/// table at physical address `root`.
pub open spec fn spec_hgatp_for_root(root: u64) -> u64 {
    (HGATP_MODE_SV39X4 << HGATP_MODE_SHIFT) | (root >> PAGE_SHIFT)
}

/// Calls `tock_registers::LocalRegisterCopy::modify` on a local copy of
/// `bits`, with the field value that `FieldValue::new(mask, shift, value)`
/// builds. Trusted: the result keeps every bit of `bits` outside
/// `mask << shift` and holds `(value & mask) << shift` inside it. The shift
/// must be smaller than the register's width.
#[verifier::external_body]
fn modify_field(bits: u64, mask: u64, shift: usize, value: u64) -> (r: u64)
    requires
        shift < 64,
    ensures
        r == spec_modify_field(bits, mask, shift, value),
{
    let mut reg = LocalRegisterCopy::<u64, ()>::new(bits);
    reg.modify(FieldValue::<u64, ()>::new(mask, shift, value));
    reg.get()
}

/// Calls `riscv::register::sstatus::Sstatus::set_spp` with
/// `SPP::Supervisor` on the register value built by `Sstatus::from_bits`,
/// and reads it back with `Sstatus::bits`. Trusted: `from_bits` keeps only
/// the bits of `SSTATUS_MASK`, and `set_spp` sets bit 8.
#[verifier::external_body]
fn sstatus_with_spp_supervisor(bits: u64) -> (r: u64)
    ensures
        r == (bits & SSTATUS_MASK) | SSTATUS_SPP,
{
    let mut sstatus = Sstatus::from_bits(bits as usize);
    sstatus.set_spp(SPP::Supervisor);
    sstatus.bits() as u64
}

/// `hstatus` with the two flags set that a first entry into the guest needs:
/// `SPV`, so that `sret` lands in the guest, and `SPVP`, so that the host
/// reaches guest memory with supervisor privilege. Every other bit is kept.
pub fn hstatus_for_guest(hstatus: u64) -> (r: u64)
    ensures
        r == spec_hstatus_for_guest(hstatus),
{
    let with_spv = modify_field(hstatus, 1, HSTATUS_SPV_SHIFT, 1);
    let r = modify_field(with_spv, 1, HSTATUS_SPVP_SHIFT, 1);
    assert(r == hstatus | 0x80u64 | 0x100u64) by (bit_vector)
        requires
            with_spv == (hstatus & !(1u64 << 7usize)) | ((1u64 & 1u64) << 7usize),
            r == (with_spv & !(1u64 << 8usize)) | ((1u64 & 1u64) << 8usize),
    ;
    r
}

/// The guest's first `sstatus`: `sstatus` as read, with the previous
/// privilege set to supervisor. Every other bit is kept, also the bits
/// outside the fields that the register type knows.
pub fn sstatus_for_guest(sstatus: u64) -> (r: u64)
    ensures
        r == spec_sstatus_for_guest(sstatus),
{
    let fields = sstatus_with_spp_supervisor(sstatus);
    let r = fields | (sstatus & !SSTATUS_MASK);
    assert(r == sstatus | 0x100u64) by (bit_vector)
        requires
            fields == (sstatus & 0x8000_0003_000d_e762u64) | 0x100u64,
            r == fields | (sstatus & !0x8000_0003_000d_e762u64),
    ;
    r
}

/// The `hgatp` value for the second-stage root page table at physical
/// address `root`: mode Sv39x4 over the root's physical page number.
pub fn hgatp_for_root(root: u64) -> (r: u64)
    ensures
        r == spec_hgatp_for_root(root),
{
    (HGATP_MODE_SV39X4 << HGATP_MODE_SHIFT) | (root >> PAGE_SHIFT)
}

/// The fields of an `hgatp` value built for a root below 2^56: the mode is
/// Sv39x4, the virtual machine identifier is zero and the page number is the
/// root's.
pub proof fn lemma_hgatp_fields(root: u64)
    requires
        root < 0x100_0000_0000_0000,
    ensures
        spec_hgatp_for_root(root) >> 60 == HGATP_MODE_SV39X4,
        (spec_hgatp_for_root(root) >> 44) & 0x3fff == 0,
        spec_hgatp_for_root(root) & 0xfff_ffff_ffff == root >> 12,
{
    let h = spec_hgatp_for_root(root);
    assert(h >> 60 == 8 && (h >> 44) & 0x3fff == 0 && h & 0xfff_ffff_ffff == root >> 12)
        by (bit_vector)
        requires
            root < 0x100_0000_0000_0000u64,
            h == (8u64 << 60u64) | (root >> 12u64),
    ;
}

/// Setting the guest flags twice is the same as setting them once.
pub proof fn lemma_hstatus_for_guest_idempotent(hstatus: u64)
    ensures
        spec_hstatus_for_guest(spec_hstatus_for_guest(hstatus)) == spec_hstatus_for_guest(hstatus),
        spec_hstatus_for_guest(hstatus) & HSTATUS_SPV == HSTATUS_SPV,
        spec_hstatus_for_guest(hstatus) & HSTATUS_SPVP == HSTATUS_SPVP,
        spec_hstatus_for_guest(hstatus) & !(HSTATUS_SPV | HSTATUS_SPVP) == hstatus & !(HSTATUS_SPV
            | HSTATUS_SPVP),
{
    let h = hstatus;
    assert(((h | 0x80u64 | 0x100u64) | 0x80u64 | 0x100u64) == (h | 0x80u64 | 0x100u64)
        && (h | 0x80u64 | 0x100u64) & 0x80u64 == 0x80u64
        && (h | 0x80u64 | 0x100u64) & 0x100u64 == 0x100u64
        && (h | 0x80u64 | 0x100u64) & !(0x80u64 | 0x100u64) == h & !(0x80u64 | 0x100u64))
        by (bit_vector);
}

/// The guest's first `sstatus` has the previous privilege set to supervisor
/// and every other bit as it was read. Making it from its own result changes
/// nothing.
pub proof fn lemma_sstatus_for_guest_fields(sstatus: u64)
    ensures
        spec_sstatus_for_guest(sstatus) & SSTATUS_SPP == SSTATUS_SPP,
        spec_sstatus_for_guest(sstatus) & !SSTATUS_SPP == sstatus & !SSTATUS_SPP,
        spec_sstatus_for_guest(spec_sstatus_for_guest(sstatus)) == spec_sstatus_for_guest(sstatus),
{
    let s = sstatus;
    assert((s | 0x100u64) & 0x100u64 == 0x100u64 && (s | 0x100u64) & !0x100u64 == s & !0x100u64 && ((s
        | 0x100u64) | 0x100u64) == (s | 0x100u64)) by (bit_vector);
}

} // verus!
