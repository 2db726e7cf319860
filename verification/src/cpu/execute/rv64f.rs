use vstd::prelude::*;

use crate::cpu::bus::Bus;
use crate::cpu::execute::fp::{f32_is_nan, is_nan_f32, is_snan_f32, update_fflags, FLAG_INVALID};
use crate::cpu::execute::helper::{addr, spec_addr, wrote_reg};
use crate::cpu::execute::rv64u::store_result;
use crate::cpu::f_register::{box_f32, unbox_f32, FReg, CANONICAL_NAN_F32};
use crate::cpu::register::Reg;
use crate::cpu::{Cpu, ExecFlow, ExecResult};
use crate::trap::Trap;

verus! {

/// `new` is `old` with float register `rd` holding the word `bits`.
pub open spec fn wrote_freg(old: &Cpu, new: &Cpu, rd: FReg, bits: u64) -> bool {
    &&& new.f_regs@ == old.f_regs@.update(rd.spec_idx() as int, bits)
    &&& *new == Cpu { f_regs: new.f_regs, ..*old }
}

/// The single held in `r` (the canonical NaN when not NaN-boxed).
pub open spec fn single(cpu: &Cpu, r: FReg) -> u32 {
    unbox_f32(cpu.f_regs.spec_bits(r))
}

/// The low half of `r`, boxed or not.
pub open spec fn raw_single(cpu: &Cpu, r: FReg) -> u32 {
    cpu.f_regs.spec_bits(r) as u32
}

/// Whether a single is zero (of either sign).
pub open spec fn is_zero_f32(x: u32) -> bool {
    x & 0x7fff_ffff == 0
}

/// Whether a single is negative (sign bit set).
pub open spec fn sign_f32(x: u32) -> bool {
    x & 0x8000_0000 != 0
}

/// IEEE less-than of two singles that are not NaN: zeros are equal, a
/// negative value is below a positive one, and magnitudes order values of
/// one sign (reversed for negatives).
pub open spec fn lt_f32(a: u32, b: u32) -> bool {
    if is_zero_f32(a) && is_zero_f32(b) {
        false
    } else if sign_f32(a) != sign_f32(b) {
        sign_f32(a)
    } else if sign_f32(a) {
        a > b
    } else {
        a < b
    }
}

/// IEEE equality of two singles that are not NaN.
pub open spec fn eq_f32(a: u32, b: u32) -> bool {
    a == b || (is_zero_f32(a) && is_zero_f32(b))
}

fn f32_lt(a: u32, b: u32) -> (r: bool)
    ensures
        r == lt_f32(a, b),
{
    let a_zero = (a & 0x7fff_ffff) == 0;
    let b_zero = (b & 0x7fff_ffff) == 0;
    let a_neg = (a & 0x8000_0000) != 0;
    let b_neg = (b & 0x8000_0000) != 0;
    if a_zero && b_zero {
        false
    } else if a_neg != b_neg {
        a_neg
    } else if a_neg {
        a > b
    } else {
        a < b
    }
}

fn f32_eq(a: u32, b: u32) -> (r: bool)
    ensures
        r == eq_f32(a, b),
{
    a == b || ((a & 0x7fff_ffff) == 0 && (b & 0x7fff_ffff) == 0)
}

fn f32_is_snan(bits: u32) -> (b: bool)
    ensures
        b == is_snan_f32(bits),
{
    f32_is_nan(bits) && (bits & 0x0040_0000) == 0
}

/// FLW: loads the word at physical address `x[rs1] + imm` into `rd`,
/// NaN-boxed.
pub fn flw(cpu: &mut Cpu, rd: FReg, rs1: Reg, imm: i64) -> (r: ExecResult)
    ensures
        *final(cpu) == (Cpu { f_regs: final(cpu).f_regs, bus: final(cpu).bus, ..*old(cpu) }),
        exists|t: Result<u32, Trap>|
            #![trigger Bus::read32_post(&old(cpu).bus, &final(cpu).bus, spec_addr(old(cpu), rs1, imm), t)]
            Bus::read32_post(&old(cpu).bus, &final(cpu).bus, spec_addr(old(cpu), rs1, imm), t) && match t {
                Err(e) => r == Err::<ExecFlow, Trap>(e) && final(cpu).f_regs == old(cpu).f_regs,
                Ok(v) => r == Ok::<ExecFlow, Trap>(ExecFlow::Next) && final(cpu).f_regs@ == old(cpu).f_regs@.update(
                    rd.spec_idx() as int,
                    box_f32(v),
                ),
            },
{
    let a = addr(cpu, rs1, imm);
    let t = cpu.bus.read32(a);
    let bits = match t {
        Ok(b) => b,
        Err(e) => {
            return Err(e);
        },
    };
    cpu.f_regs.write_f32_bits(rd, bits);
    Ok(ExecFlow::Next)
}

/// FSW: stores the single in `rs2` at physical address `x[rs1] + imm`.
pub fn fsw(cpu: &mut Cpu, rs1: Reg, rs2: FReg, imm: i64) -> (r: ExecResult)
    ensures
        *final(cpu) == (Cpu { bus: final(cpu).bus, ..*old(cpu) }),
        r is Ok ==> r == Ok::<ExecFlow, Trap>(ExecFlow::Next),
        Bus::write32_post(
            &old(cpu).bus,
            &final(cpu).bus,
            old(cpu).regs.spec_read(rs1).wrapping_add(imm as u64),
            single(old(cpu), rs2),
            store_result(r),
        ),
{
    let addr = cpu.regs.read(rs1).wrapping_add(imm as u64);
    let bits = cpu.f_regs.read_f32_bits(rs2);
    cpu.bus.write32(addr, bits)?;
    Ok(ExecFlow::Next)
}

/// FMV.W.X: the low word of `x[rs1]` into `rd`, NaN-boxed.
pub fn fmv_w_x(cpu: &mut Cpu, rd: FReg, rs1: Reg) -> (r: ExecResult)
    ensures
        r == Ok::<ExecFlow, Trap>(ExecFlow::Next),
        wrote_freg(old(cpu), final(cpu), rd, box_f32(old(cpu).regs.spec_read(rs1) as u32)),
{
    let bits = cpu.regs.read(rs1) as u32;
    cpu.f_regs.write_f32_bits(rd, bits);
    Ok(ExecFlow::Next)
}

/// FMV.X.W: the low word of `rs1`, sign-extended, into `x[rd]`.
pub fn fmv_x_w(cpu: &mut Cpu, rd: Reg, rs1: FReg) -> (r: ExecResult)
    ensures
        r == Ok::<ExecFlow, Trap>(ExecFlow::Next),
        wrote_reg(old(cpu), final(cpu), rd, raw_single(old(cpu), rs1) as i32 as i64 as u64),
{
    let bits = cpu.f_regs.read_f32_raw_bits(rs1);
    cpu.regs.write(rd, bits as i32 as i64 as u64);
    Ok(ExecFlow::Next)
}

/// FSGNJ.S: the magnitude of `rs1` with the sign of `rs2`.
pub fn fsgnj_s(cpu: &mut Cpu, rd: FReg, rs1: FReg, rs2: FReg) -> (r: ExecResult)
    ensures
        r == Ok::<ExecFlow, Trap>(ExecFlow::Next),
        wrote_freg(
            old(cpu),
            final(cpu),
            rd,
            box_f32((raw_single(old(cpu), rs1) & 0x7fff_ffff) | (raw_single(old(cpu), rs2) & 0x8000_0000)),
        ),
{
    let a = cpu.f_regs.read_f32_raw_bits(rs1);
    let b = cpu.f_regs.read_f32_raw_bits(rs2);
    let result = (a & 0x7fff_ffff) | (b & 0x8000_0000);
    cpu.f_regs.write_f32_bits(rd, result);
    Ok(ExecFlow::Next)
}

/// FSGNJN.S: the magnitude of `rs1` with the opposite of the sign of `rs2`.
pub fn fsgnjn_s(cpu: &mut Cpu, rd: FReg, rs1: FReg, rs2: FReg) -> (r: ExecResult)
    ensures
        r == Ok::<ExecFlow, Trap>(ExecFlow::Next),
        wrote_freg(
            old(cpu),
            final(cpu),
            rd,
            box_f32((raw_single(old(cpu), rs1) & 0x7fff_ffff) | (!raw_single(old(cpu), rs2) & 0x8000_0000)),
        ),
{
    let a = cpu.f_regs.read_f32_raw_bits(rs1);
    let b = cpu.f_regs.read_f32_raw_bits(rs2);
    let result = (a & 0x7fff_ffff) | ((!b) & 0x8000_0000);
    cpu.f_regs.write_f32_bits(rd, result);
    Ok(ExecFlow::Next)
}

/// FSGNJX.S: the magnitude of `rs1` with the exclusive-or of both signs.
pub fn fsgnjx_s(cpu: &mut Cpu, rd: FReg, rs1: FReg, rs2: FReg) -> (r: ExecResult)
    ensures
        r == Ok::<ExecFlow, Trap>(ExecFlow::Next),
        wrote_freg(
            old(cpu),
            final(cpu),
            rd,
            box_f32(
                (raw_single(old(cpu), rs1) & 0x7fff_ffff) | ((raw_single(old(cpu), rs1) ^ raw_single(old(cpu), rs2))
                    & 0x8000_0000),
            ),
        ),
{
    let a = cpu.f_regs.read_f32_raw_bits(rs1);
    let b = cpu.f_regs.read_f32_raw_bits(rs2);
    let sign = (a ^ b) & 0x8000_0000;
    let result = (a & 0x7fff_ffff) | sign;
    cpu.f_regs.write_f32_bits(rd, result);
    Ok(ExecFlow::Next)
}

/// The class mask of a single: one bit among -inf (0), -normal (1),
/// -subnormal (2), -0 (3), +0 (4), +subnormal (5), +normal (6), +inf (7),
/// signaling NaN (8), quiet NaN (9).
pub open spec fn class_f32(bits: u32) -> u64 {
    let sign = (bits >> 31u32) != 0;
    let exp = (bits >> 23u32) & 0xff;
    let frac = bits & 0x7fffff;
    if exp == 0xff {
        if frac == 0 {
            if sign { 1 } else { 0x80 }
        } else if (frac >> 22u32) & 1 != 0 {
            0x200
        } else {
            0x100
        }
    } else if exp == 0 {
        if frac == 0 {
            if sign { 0x8 } else { 0x10 }
        } else if sign {
            0x4
        } else {
            0x20
        }
    } else if sign {
        0x2
    } else {
        0x40
    }
}

/// FCLASS.S: the class mask of the single in `rs1` (see `class_f32`).
pub fn fclass_s(cpu: &mut Cpu, rd: Reg, rs1: FReg) -> (r: ExecResult)
    ensures
        r == Ok::<ExecFlow, Trap>(ExecFlow::Next),
        wrote_reg(old(cpu), final(cpu), rd, class_f32(single(old(cpu), rs1))),
{
    let bits = cpu.f_regs.read_f32_bits(rs1);
    let sign = (bits >> 31) != 0;
    let exp = (bits >> 23) & 0xff;
    let frac = bits & 0x7fffff;
    let result: u64 = if exp == 0xff {
        if frac == 0 {
            if sign { 1 } else { 0x80 }
        } else if (frac >> 22) & 1 != 0 {
            0x200
        } else {
            0x100
        }
    } else if exp == 0 {
        if frac == 0 {
            if sign { 0x8 } else { 0x10 }
        } else if sign {
            0x4
        } else {
            0x20
        }
    } else if sign {
        0x2
    } else {
        0x40
    };
    cpu.regs.write(rd, result);
    Ok(ExecFlow::Next)
}

/// The smaller of two singles: a NaN operand yields the other one (the
/// canonical NaN when both are NaNs); of equal values -0 is preferred.
pub open spec fn min_f32(a: u32, b: u32) -> u32 {
    if is_nan_f32(a) && is_nan_f32(b) {
        CANONICAL_NAN_F32
    } else if is_nan_f32(a) {
        b
    } else if is_nan_f32(b) {
        a
    } else if lt_f32(a, b) {
        a
    } else if lt_f32(b, a) {
        b
    } else if sign_f32(a) {
        a
    } else {
        b
    }
}

/// The larger of two singles: as `min_f32`, with +0 preferred.
pub open spec fn max_f32(a: u32, b: u32) -> u32 {
    if is_nan_f32(a) && is_nan_f32(b) {
        CANONICAL_NAN_F32
    } else if is_nan_f32(a) {
        b
    } else if is_nan_f32(b) {
        a
    } else if lt_f32(a, b) {
        b
    } else if lt_f32(b, a) {
        a
    } else if !sign_f32(a) {
        a
    } else {
        b
    }
}

/// The flags a min/max raises: invalid when an operand is a signaling NaN.
pub open spec fn minmax_flags(a: u32, b: u32) -> u8 {
    if is_snan_f32(a) || is_snan_f32(b) { FLAG_INVALID } else { 0 }
}

/// `new` is `old` with the register result written and `flags` accrued.
pub open spec fn accrued(old: &Cpu, mid_regs: &Cpu, new: &Cpu, flags: u8) -> bool {
    &&& new.csr.fflags == old.csr.fflags | (flags as u64)
    &&& new.csr.fcsr == (old.csr.frm << 5u64) | (old.csr.fflags | (flags as u64))
    &&& new.csr == (crate::cpu::csr::Csr { fflags: new.csr.fflags, fcsr: new.csr.fcsr, ..old.csr })
    &&& *new == Cpu { csr: new.csr, ..*mid_regs }
}

/// FMIN.S (see `min_f32` and `minmax_flags`).
pub fn fmin_s(cpu: &mut Cpu, rd: FReg, rs1: FReg, rs2: FReg) -> (r: ExecResult)
    ensures
        r == Ok::<ExecFlow, Trap>(ExecFlow::Next),
        final(cpu).f_regs@ == old(cpu).f_regs@.update(
            rd.spec_idx() as int,
            box_f32(min_f32(single(old(cpu), rs1), single(old(cpu), rs2))),
        ),
        accrued(
            old(cpu),
            &Cpu { f_regs: final(cpu).f_regs, ..*old(cpu) },
            final(cpu),
            minmax_flags(single(old(cpu), rs1), single(old(cpu), rs2)),
        ),
{
    let a = cpu.f_regs.read_f32_bits(rs1);
    let b = cpu.f_regs.read_f32_bits(rs2);
    let flags: u8 = if f32_is_snan(a) || f32_is_snan(b) { FLAG_INVALID } else { 0 };
    let a_nan = f32_is_nan(a);
    let b_nan = f32_is_nan(b);
    let result = if a_nan && b_nan {
        CANONICAL_NAN_F32
    } else if a_nan {
        b
    } else if b_nan {
        a
    } else if f32_lt(a, b) {
        a
    } else if f32_lt(b, a) {
        b
    } else if (a & 0x8000_0000) != 0 {
        a
    } else {
        b
    };
    cpu.f_regs.write_f32_bits(rd, result);
    update_fflags(cpu, flags);
    Ok(ExecFlow::Next)
}

/// FMAX.S (see `max_f32` and `minmax_flags`).
pub fn fmax_s(cpu: &mut Cpu, rd: FReg, rs1: FReg, rs2: FReg) -> (r: ExecResult)
    ensures
        r == Ok::<ExecFlow, Trap>(ExecFlow::Next),
        final(cpu).f_regs@ == old(cpu).f_regs@.update(
            rd.spec_idx() as int,
            box_f32(max_f32(single(old(cpu), rs1), single(old(cpu), rs2))),
        ),
        accrued(
            old(cpu),
            &Cpu { f_regs: final(cpu).f_regs, ..*old(cpu) },
            final(cpu),
            minmax_flags(single(old(cpu), rs1), single(old(cpu), rs2)),
        ),
{
    let a = cpu.f_regs.read_f32_bits(rs1);
    let b = cpu.f_regs.read_f32_bits(rs2);
    let flags: u8 = if f32_is_snan(a) || f32_is_snan(b) { FLAG_INVALID } else { 0 };
    let a_nan = f32_is_nan(a);
    let b_nan = f32_is_nan(b);
    let result = if a_nan && b_nan {
        CANONICAL_NAN_F32
    } else if a_nan {
        b
    } else if b_nan {
        a
    } else if f32_lt(a, b) {
        b
    } else if f32_lt(b, a) {
        a
    } else if (a & 0x8000_0000) == 0 {
        a
    } else {
        b
    };
    cpu.f_regs.write_f32_bits(rd, result);
    update_fflags(cpu, flags);
    Ok(ExecFlow::Next)
}

/// FEQ.S: 1 when the singles are equal (never with a NaN); invalid is
/// raised only for a signaling NaN.
pub fn feq_s(cpu: &mut Cpu, rd: Reg, rs1: FReg, rs2: FReg) -> (r: ExecResult)
    ensures
        r == Ok::<ExecFlow, Trap>(ExecFlow::Next),
        ({
            let a = single(old(cpu), rs1);
            let b = single(old(cpu), rs2);
            let v: u64 = if !is_nan_f32(a) && !is_nan_f32(b) && eq_f32(a, b) { 1 } else { 0 };
            &&& final(cpu).regs@ == old(cpu).regs.spec_written(rd, v)
            &&& accrued(
                old(cpu),
                &Cpu { regs: final(cpu).regs, ..*old(cpu) },
                final(cpu),
                if is_snan_f32(a) || is_snan_f32(b) { FLAG_INVALID } else { 0 },
            )
        }),
{
    let a = cpu.f_regs.read_f32_bits(rs1);
    let b = cpu.f_regs.read_f32_bits(rs2);
    let flags: u8 = if f32_is_snan(a) || f32_is_snan(b) { FLAG_INVALID } else { 0 };
    let v: u64 = if !f32_is_nan(a) && !f32_is_nan(b) && f32_eq(a, b) { 1 } else { 0 };
    cpu.regs.write(rd, v);
    update_fflags(cpu, flags);
    Ok(ExecFlow::Next)
}

/// FLT.S: 1 when `rs1 < rs2` (never with a NaN); invalid is raised for
/// any NaN.
pub fn flt_s(cpu: &mut Cpu, rd: Reg, rs1: FReg, rs2: FReg) -> (r: ExecResult)
    ensures
        r == Ok::<ExecFlow, Trap>(ExecFlow::Next),
        ({
            let a = single(old(cpu), rs1);
            let b = single(old(cpu), rs2);
            let v: u64 = if !is_nan_f32(a) && !is_nan_f32(b) && lt_f32(a, b) { 1 } else { 0 };
            &&& final(cpu).regs@ == old(cpu).regs.spec_written(rd, v)
            &&& accrued(
                old(cpu),
                &Cpu { regs: final(cpu).regs, ..*old(cpu) },
                final(cpu),
                if is_nan_f32(a) || is_nan_f32(b) { FLAG_INVALID } else { 0 },
            )
        }),
{
    let a = cpu.f_regs.read_f32_bits(rs1);
    let b = cpu.f_regs.read_f32_bits(rs2);
    let nan = f32_is_nan(a) || f32_is_nan(b);
    let flags: u8 = if nan { FLAG_INVALID } else { 0 };
    let v: u64 = if !nan && f32_lt(a, b) { 1 } else { 0 };
    cpu.regs.write(rd, v);
    update_fflags(cpu, flags);
    Ok(ExecFlow::Next)
}

/// FLE.S: 1 when `rs1 <= rs2` (never with a NaN); invalid is raised for
/// any NaN.
pub fn fle_s(cpu: &mut Cpu, rd: Reg, rs1: FReg, rs2: FReg) -> (r: ExecResult)
    ensures
        r == Ok::<ExecFlow, Trap>(ExecFlow::Next),
        ({
            let a = single(old(cpu), rs1);
            let b = single(old(cpu), rs2);
            let v: u64 = if !is_nan_f32(a) && !is_nan_f32(b) && (lt_f32(a, b) || eq_f32(a, b)) { 1 } else { 0 };
            &&& final(cpu).regs@ == old(cpu).regs.spec_written(rd, v)
            &&& accrued(
                old(cpu),
                &Cpu { regs: final(cpu).regs, ..*old(cpu) },
                final(cpu),
                if is_nan_f32(a) || is_nan_f32(b) { FLAG_INVALID } else { 0 },
            )
        }),
{
    let a = cpu.f_regs.read_f32_bits(rs1);
    let b = cpu.f_regs.read_f32_bits(rs2);
    let nan = f32_is_nan(a) || f32_is_nan(b);
    let flags: u8 = if nan { FLAG_INVALID } else { 0 };
    let v: u64 = if !nan && (f32_lt(a, b) || f32_eq(a, b)) { 1 } else { 0 };
    cpu.regs.write(rd, v);
    update_fflags(cpu, flags);
    Ok(ExecFlow::Next)
}

} // verus!
