use vstd::prelude::*;

use crate::cpu::register::Reg;
use crate::cpu::Cpu;

verus! {

/// The effective address `x[rs1] + imm` (wrapping).
pub open spec fn spec_addr(cpu: &Cpu, rs1: Reg, imm: i64) -> u64 {
    cpu.regs.spec_read(rs1).wrapping_add(imm as u64)
}

#[verifier::when_used_as_spec(spec_addr)]
pub fn addr(cpu: &Cpu, rs1: Reg, imm: i64) -> (a: u64)
    ensures
        a == spec_addr(cpu, rs1, imm),
{
    cpu.regs.read(rs1).wrapping_add(imm as u64)
}

/// The `width`-bit field of `value` starting at bit `shift`.
pub fn get_bits(value: u64, shift: u64, width: u64) -> (r: u64)
    requires
        shift < 64,
        width < 64,
    ensures
        r == (value >> shift) & (((1u64 << width) - 1) as u64),
{
    assert(width < 64 ==> 1u64 << width >= 1) by (bit_vector);
    (value >> shift) & ((1u64 << width) - 1)
}

/// Sets (or clears) bit `bit` of `value`.
pub fn set_bit(value: &mut u64, bit: u64, enabled: bool)
    requires
        bit < 64,
    ensures
        *final(value) == if enabled {
            *old(value) | (1u64 << bit)
        } else {
            *old(value) & !(1u64 << bit)
        },
{
    if enabled {
        *value = *value | (1u64 << bit);
    } else {
        *value = *value & !(1u64 << bit);
    }
}

/// `new` is `old` with integer register `rd` written with `v`.
pub open spec fn wrote_reg(old: &Cpu, new: &Cpu, rd: Reg, v: u64) -> bool {
    &&& new.regs@ == old.regs.spec_written(rd, v)
    &&& *new == Cpu { regs: new.regs, ..*old }
}

/// `new` differs from `old` at most in its registers, bus, TLB and
/// translation caches (what a load or store may change).
pub open spec fn data_frame(old: &Cpu, new: &Cpu) -> bool {
    *new == Cpu {
        regs: new.regs,
        bus: new.bus,
        tlb: new.tlb,
        data_read_vpn: new.data_read_vpn,
        data_read_pa: new.data_read_pa,
        data_read_va: new.data_read_va,
        data_read_valid: new.data_read_valid,
        data_write_vpn: new.data_write_vpn,
        data_write_pa: new.data_write_pa,
        data_write_va: new.data_write_va,
        data_write_valid: new.data_write_valid,
        ..*old
    }
}

} // verus!
