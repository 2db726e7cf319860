use vstd::prelude::*;

use crate::cpu::bus::Bus;
use crate::cpu::execute::helper::{addr, spec_addr, wrote_reg};
use crate::cpu::execute::fp::{update_fflags, FLAG_INVALID};
use crate::cpu::execute::rv64f::{accrued, wrote_freg};
use crate::cpu::execute::rv64u::store_result;
use crate::cpu::f_register::FReg;
use crate::cpu::register::Reg;
use crate::cpu::{Cpu, ExecFlow, ExecResult};
use crate::trap::Trap;

verus! {

/// FLD: loads the doubleword at physical address `x[rs1] + imm` into `rd`.
pub fn fld(cpu: &mut Cpu, rd: FReg, rs1: Reg, imm: i64) -> (r: ExecResult)
    ensures
        *final(cpu) == (Cpu { f_regs: final(cpu).f_regs, bus: final(cpu).bus, ..*old(cpu) }),
        exists|t: Result<u64, Trap>|
            #![trigger Bus::read64_post(&old(cpu).bus, &final(cpu).bus, spec_addr(old(cpu), rs1, imm), t)]
            Bus::read64_post(&old(cpu).bus, &final(cpu).bus, spec_addr(old(cpu), rs1, imm), t) && match t {
                Err(e) => r == Err::<ExecFlow, Trap>(e) && final(cpu).f_regs == old(cpu).f_regs,
                Ok(v) => r == Ok::<ExecFlow, Trap>(ExecFlow::Next) && final(cpu).f_regs@ == old(cpu).f_regs@.update(
                    rd.spec_idx() as int,
                    v,
                ),
            },
{
    let a = addr(cpu, rs1, imm);
    let bits = cpu.bus.read64(a)?;
    cpu.f_regs.write_f64_bits(rd, bits);
    Ok(ExecFlow::Next)
}

/// FSD: stores `rs2` at physical address `x[rs1] + imm`.
pub fn fsd(cpu: &mut Cpu, rs1: Reg, rs2: FReg, imm: i64) -> (r: ExecResult)
    ensures
        *final(cpu) == (Cpu { bus: final(cpu).bus, ..*old(cpu) }),
        r is Ok ==> r == Ok::<ExecFlow, Trap>(ExecFlow::Next),
        Bus::write64_post(
            &old(cpu).bus,
            &final(cpu).bus,
            spec_addr(old(cpu), rs1, imm),
            old(cpu).f_regs.spec_bits(rs2),
            store_result(r),
        ),
{
    let a = addr(cpu, rs1, imm);
    let bits = cpu.f_regs.read_f64_bits(rs2);
    cpu.bus.write64(a, bits)?;
    Ok(ExecFlow::Next)
}

/// FMV.D.X: `x[rs1]` into `rd`, bit for bit.
pub fn fmv_d_x(cpu: &mut Cpu, rd: FReg, rs1: Reg) -> (r: ExecResult)
    ensures
        r == Ok::<ExecFlow, Trap>(ExecFlow::Next),
        wrote_freg(old(cpu), final(cpu), rd, old(cpu).regs.spec_read(rs1)),
{
    let bits = cpu.regs.read(rs1);
    cpu.f_regs.write_f64_bits(rd, bits);
    Ok(ExecFlow::Next)
}

/// FMV.X.D: `rs1` into `x[rd]`, bit for bit.
pub fn fmv_x_d(cpu: &mut Cpu, rd: Reg, rs1: FReg) -> (r: ExecResult)
    ensures
        r == Ok::<ExecFlow, Trap>(ExecFlow::Next),
        wrote_reg(old(cpu), final(cpu), rd, old(cpu).f_regs.spec_bits(rs1)),
{
    let bits = cpu.f_regs.read_f64_bits(rs1);
    cpu.regs.write(rd, bits);
    Ok(ExecFlow::Next)
}

/// The canonical quiet NaN of a double.
pub const CANONICAL_NAN_F64: u64 = 0x7ff8_0000_0000_0000;

/// The double held in `r`.
pub open spec fn double(cpu: &Cpu, r: FReg) -> u64 {
    cpu.f_regs.spec_bits(r)
}

/// Whether the double `bits` is a NaN: exponent all ones, fraction not
/// zero.
pub open spec fn is_nan_f64(bits: u64) -> bool {
    bits & 0x7ff0_0000_0000_0000 == 0x7ff0_0000_0000_0000 && bits & 0x000f_ffff_ffff_ffff != 0
}

/// Whether the double `bits` is a signaling NaN (a NaN with the top
/// fraction bit clear).
pub open spec fn is_snan_f64(bits: u64) -> bool {
    is_nan_f64(bits) && bits & 0x0008_0000_0000_0000 == 0
}

/// Whether a double is zero (of either sign).
pub open spec fn is_zero_f64(x: u64) -> bool {
    x & 0x7fff_ffff_ffff_ffff == 0
}

/// Whether a double is negative (sign bit set).
pub open spec fn sign_f64(x: u64) -> bool {
    x & 0x8000_0000_0000_0000 != 0
}

/// IEEE less-than of two doubles that are not NaN: zeros are equal, a
/// negative value is below a positive one, and magnitudes order values of
/// one sign (reversed for negatives).
pub open spec fn lt_f64(a: u64, b: u64) -> bool {
    if is_zero_f64(a) && is_zero_f64(b) {
        false
    } else if sign_f64(a) != sign_f64(b) {
        sign_f64(a)
    } else if sign_f64(a) {
        a > b
    } else {
        a < b
    }
}

/// IEEE equality of two doubles that are not NaN.
pub open spec fn eq_f64(a: u64, b: u64) -> bool {
    a == b || (is_zero_f64(a) && is_zero_f64(b))
}

/// The smaller of two doubles: a NaN operand yields the other one (the
/// canonical NaN when both are NaNs); of equal values -0 is preferred.
pub open spec fn min_f64(a: u64, b: u64) -> u64 {
    if is_nan_f64(a) && is_nan_f64(b) {
        CANONICAL_NAN_F64
    } else if is_nan_f64(a) {
        b
    } else if is_nan_f64(b) {
        a
    } else if lt_f64(a, b) {
        a
    } else if lt_f64(b, a) {
        b
    } else if sign_f64(a) {
        a
    } else {
        b
    }
}

/// The larger of two doubles: as `min_f64`, with +0 preferred.
pub open spec fn max_f64(a: u64, b: u64) -> u64 {
    if is_nan_f64(a) && is_nan_f64(b) {
        CANONICAL_NAN_F64
    } else if is_nan_f64(a) {
        b
    } else if is_nan_f64(b) {
        a
    } else if lt_f64(a, b) {
        b
    } else if lt_f64(b, a) {
        a
    } else if !sign_f64(a) {
        a
    } else {
        b
    }
}

/// The flags a double min/max raises: invalid when an operand is a
/// signaling NaN.
pub open spec fn minmax_flags_f64(a: u64, b: u64) -> u8 {
    if is_snan_f64(a) || is_snan_f64(b) { FLAG_INVALID } else { 0 }
}

/// The class mask of a double: one bit among -inf (0), -normal (1),
/// -subnormal (2), -0 (3), +0 (4), +subnormal (5), +normal (6), +inf (7),
/// signaling NaN (8), quiet NaN (9).
pub open spec fn class_f64(bits: u64) -> u64 {
    let sign = (bits >> 63u64) != 0;
    let exp = (bits >> 52u64) & 0x7ff;
    let frac = bits & 0x000f_ffff_ffff_ffff;
    if exp == 0x7ff {
        if frac == 0 {
            if sign { 1 } else { 0x80 }
        } else if (frac >> 51u64) & 1 != 0 {
            0x200
        } else {
            0x100
        }
    } else if exp == 0 {
        if frac == 0 {
            if sign { 0x8 } else { 0x10 }
        } else if sign {
            0x4
        } else {
            0x20
        }
    } else if sign {
        0x2
    } else {
        0x40
    }
}

fn f64_is_nan(bits: u64) -> (b: bool)
    ensures
        b == is_nan_f64(bits),
{
    (bits & 0x7ff0_0000_0000_0000) == 0x7ff0_0000_0000_0000 && (bits & 0x000f_ffff_ffff_ffff) != 0
}

fn f64_is_snan(bits: u64) -> (b: bool)
    ensures
        b == is_snan_f64(bits),
{
    f64_is_nan(bits) && (bits & 0x0008_0000_0000_0000) == 0
}

fn f64_lt(a: u64, b: u64) -> (r: bool)
    ensures
        r == lt_f64(a, b),
{
    let a_zero = (a & 0x7fff_ffff_ffff_ffff) == 0;
    let b_zero = (b & 0x7fff_ffff_ffff_ffff) == 0;
    let a_neg = (a & 0x8000_0000_0000_0000) != 0;
    let b_neg = (b & 0x8000_0000_0000_0000) != 0;
    if a_zero && b_zero {
        false
    } else if a_neg != b_neg {
        a_neg
    } else if a_neg {
        a > b
    } else {
        a < b
    }
}

fn f64_eq(a: u64, b: u64) -> (r: bool)
    ensures
        r == eq_f64(a, b),
{
    a == b || ((a & 0x7fff_ffff_ffff_ffff) == 0 && (b & 0x7fff_ffff_ffff_ffff) == 0)
}

/// FSGNJ.D: the magnitude of `rs1` with the sign of `rs2`.
pub fn fsgnj_d(cpu: &mut Cpu, rd: FReg, rs1: FReg, rs2: FReg) -> (r: ExecResult)
    ensures
        r == Ok::<ExecFlow, Trap>(ExecFlow::Next),
        wrote_freg(
            old(cpu),
            final(cpu),
            rd,
            (double(old(cpu), rs1) & 0x7fff_ffff_ffff_ffff) | (double(old(cpu), rs2) & 0x8000_0000_0000_0000),
        ),
{
    let a = cpu.f_regs.read_f64_bits(rs1);
    let b = cpu.f_regs.read_f64_bits(rs2);
    cpu.f_regs.write_f64_bits(rd, (a & 0x7fff_ffff_ffff_ffff) | (b & 0x8000_0000_0000_0000));
    Ok(ExecFlow::Next)
}

/// FSGNJN.D: the magnitude of `rs1` with the opposite of the sign of `rs2`.
pub fn fsgnjn_d(cpu: &mut Cpu, rd: FReg, rs1: FReg, rs2: FReg) -> (r: ExecResult)
    ensures
        r == Ok::<ExecFlow, Trap>(ExecFlow::Next),
        wrote_freg(
            old(cpu),
            final(cpu),
            rd,
            (double(old(cpu), rs1) & 0x7fff_ffff_ffff_ffff) | (!double(old(cpu), rs2) & 0x8000_0000_0000_0000),
        ),
{
    let a = cpu.f_regs.read_f64_bits(rs1);
    let b = cpu.f_regs.read_f64_bits(rs2);
    cpu.f_regs.write_f64_bits(rd, (a & 0x7fff_ffff_ffff_ffff) | ((!b) & 0x8000_0000_0000_0000));
    Ok(ExecFlow::Next)
}

/// FSGNJX.D: the magnitude of `rs1` with the exclusive-or of both signs.
pub fn fsgnjx_d(cpu: &mut Cpu, rd: FReg, rs1: FReg, rs2: FReg) -> (r: ExecResult)
    ensures
        r == Ok::<ExecFlow, Trap>(ExecFlow::Next),
        wrote_freg(
            old(cpu),
            final(cpu),
            rd,
            (double(old(cpu), rs1) & 0x7fff_ffff_ffff_ffff) | ((double(old(cpu), rs1) ^ double(old(cpu), rs2))
                & 0x8000_0000_0000_0000),
        ),
{
    let a = cpu.f_regs.read_f64_bits(rs1);
    let b = cpu.f_regs.read_f64_bits(rs2);
    cpu.f_regs.write_f64_bits(rd, (a & 0x7fff_ffff_ffff_ffff) | ((a ^ b) & 0x8000_0000_0000_0000));
    Ok(ExecFlow::Next)
}

/// FMIN.D (see `min_f64` and `minmax_flags_f64`).
pub fn fmin_d(cpu: &mut Cpu, rd: FReg, rs1: FReg, rs2: FReg) -> (r: ExecResult)
    ensures
        r == Ok::<ExecFlow, Trap>(ExecFlow::Next),
        final(cpu).f_regs@ == old(cpu).f_regs@.update(
            rd.spec_idx() as int,
            min_f64(double(old(cpu), rs1), double(old(cpu), rs2)),
        ),
        accrued(
            old(cpu),
            &Cpu { f_regs: final(cpu).f_regs, ..*old(cpu) },
            final(cpu),
            minmax_flags_f64(double(old(cpu), rs1), double(old(cpu), rs2)),
        ),
{
    let a = cpu.f_regs.read_f64_bits(rs1);
    let b = cpu.f_regs.read_f64_bits(rs2);
    let flags: u8 = if f64_is_snan(a) || f64_is_snan(b) { FLAG_INVALID } else { 0 };
    let a_nan = f64_is_nan(a);
    let b_nan = f64_is_nan(b);
    let result = if a_nan && b_nan {
        CANONICAL_NAN_F64
    } else if a_nan {
        b
    } else if b_nan {
        a
    } else if f64_lt(a, b) {
        a
    } else if f64_lt(b, a) {
        b
    } else if (a & 0x8000_0000_0000_0000) != 0 {
        a
    } else {
        b
    };
    cpu.f_regs.write_f64_bits(rd, result);
    update_fflags(cpu, flags);
    Ok(ExecFlow::Next)
}

/// FMAX.D (see `max_f64` and `minmax_flags_f64`).
pub fn fmax_d(cpu: &mut Cpu, rd: FReg, rs1: FReg, rs2: FReg) -> (r: ExecResult)
    ensures
        r == Ok::<ExecFlow, Trap>(ExecFlow::Next),
        final(cpu).f_regs@ == old(cpu).f_regs@.update(
            rd.spec_idx() as int,
            max_f64(double(old(cpu), rs1), double(old(cpu), rs2)),
        ),
        accrued(
            old(cpu),
            &Cpu { f_regs: final(cpu).f_regs, ..*old(cpu) },
            final(cpu),
            minmax_flags_f64(double(old(cpu), rs1), double(old(cpu), rs2)),
        ),
{
    let a = cpu.f_regs.read_f64_bits(rs1);
    let b = cpu.f_regs.read_f64_bits(rs2);
    let flags: u8 = if f64_is_snan(a) || f64_is_snan(b) { FLAG_INVALID } else { 0 };
    let a_nan = f64_is_nan(a);
    let b_nan = f64_is_nan(b);
    let result = if a_nan && b_nan {
        CANONICAL_NAN_F64
    } else if a_nan {
        b
    } else if b_nan {
        a
    } else if f64_lt(a, b) {
        b
    } else if f64_lt(b, a) {
        a
    } else if (a & 0x8000_0000_0000_0000) == 0 {
        a
    } else {
        b
    };
    cpu.f_regs.write_f64_bits(rd, result);
    update_fflags(cpu, flags);
    Ok(ExecFlow::Next)
}

/// FEQ.D: 1 when the doubles are equal (never with a NaN); invalid is
/// raised only for a signaling NaN.
pub fn feq_d(cpu: &mut Cpu, rd: Reg, rs1: FReg, rs2: FReg) -> (r: ExecResult)
    ensures
        r == Ok::<ExecFlow, Trap>(ExecFlow::Next),
        ({
            let a = double(old(cpu), rs1);
            let b = double(old(cpu), rs2);
            let v: u64 = if !is_nan_f64(a) && !is_nan_f64(b) && eq_f64(a, b) { 1 } else { 0 };
            &&& final(cpu).regs@ == old(cpu).regs.spec_written(rd, v)
            &&& accrued(
                old(cpu),
                &Cpu { regs: final(cpu).regs, ..*old(cpu) },
                final(cpu),
                if is_snan_f64(a) || is_snan_f64(b) { FLAG_INVALID } else { 0 },
            )
        }),
{
    let a = cpu.f_regs.read_f64_bits(rs1);
    let b = cpu.f_regs.read_f64_bits(rs2);
    let flags: u8 = if f64_is_snan(a) || f64_is_snan(b) { FLAG_INVALID } else { 0 };
    let v: u64 = if !f64_is_nan(a) && !f64_is_nan(b) && f64_eq(a, b) { 1 } else { 0 };
    cpu.regs.write(rd, v);
    update_fflags(cpu, flags);
    Ok(ExecFlow::Next)
}

/// FLT.D: 1 when `rs1 < rs2` (never with a NaN); invalid is raised for
/// any NaN.
pub fn flt_d(cpu: &mut Cpu, rd: Reg, rs1: FReg, rs2: FReg) -> (r: ExecResult)
    ensures
        r == Ok::<ExecFlow, Trap>(ExecFlow::Next),
        ({
            let a = double(old(cpu), rs1);
            let b = double(old(cpu), rs2);
            let v: u64 = if !is_nan_f64(a) && !is_nan_f64(b) && lt_f64(a, b) { 1 } else { 0 };
            &&& final(cpu).regs@ == old(cpu).regs.spec_written(rd, v)
            &&& accrued(
                old(cpu),
                &Cpu { regs: final(cpu).regs, ..*old(cpu) },
                final(cpu),
                if is_nan_f64(a) || is_nan_f64(b) { FLAG_INVALID } else { 0 },
            )
        }),
{
    let a = cpu.f_regs.read_f64_bits(rs1);
    let b = cpu.f_regs.read_f64_bits(rs2);
    let nan = f64_is_nan(a) || f64_is_nan(b);
    let flags: u8 = if nan { FLAG_INVALID } else { 0 };
    let v: u64 = if !nan && f64_lt(a, b) { 1 } else { 0 };
    cpu.regs.write(rd, v);
    update_fflags(cpu, flags);
    Ok(ExecFlow::Next)
}

/// FLE.D: 1 when `rs1 <= rs2` (never with a NaN); invalid is raised for
/// any NaN.
pub fn fle_d(cpu: &mut Cpu, rd: Reg, rs1: FReg, rs2: FReg) -> (r: ExecResult)
    ensures
        r == Ok::<ExecFlow, Trap>(ExecFlow::Next),
        ({
            let a = double(old(cpu), rs1);
            let b = double(old(cpu), rs2);
            let v: u64 = if !is_nan_f64(a) && !is_nan_f64(b) && (lt_f64(a, b) || eq_f64(a, b)) { 1 } else { 0 };
            &&& final(cpu).regs@ == old(cpu).regs.spec_written(rd, v)
            &&& accrued(
                old(cpu),
                &Cpu { regs: final(cpu).regs, ..*old(cpu) },
                final(cpu),
                if is_nan_f64(a) || is_nan_f64(b) { FLAG_INVALID } else { 0 },
            )
        }),
{
    let a = cpu.f_regs.read_f64_bits(rs1);
    let b = cpu.f_regs.read_f64_bits(rs2);
    let nan = f64_is_nan(a) || f64_is_nan(b);
    let flags: u8 = if nan { FLAG_INVALID } else { 0 };
    let v: u64 = if !nan && (f64_lt(a, b) || f64_eq(a, b)) { 1 } else { 0 };
    cpu.regs.write(rd, v);
    update_fflags(cpu, flags);
    Ok(ExecFlow::Next)
}

/// FCLASS.D: the class mask of the double in `rs1` (see `class_f64`).
pub fn fclass_d(cpu: &mut Cpu, rd: Reg, rs1: FReg) -> (r: ExecResult)
    ensures
        r == Ok::<ExecFlow, Trap>(ExecFlow::Next),
        wrote_reg(old(cpu), final(cpu), rd, class_f64(double(old(cpu), rs1))),
{
    let bits = cpu.f_regs.read_f64_bits(rs1);
    let sign = (bits >> 63) != 0;
    let exp = (bits >> 52) & 0x7ff;
    let frac = bits & 0x000f_ffff_ffff_ffff;
    let result: u64 = if exp == 0x7ff {
        if frac == 0 {
            if sign { 1 } else { 0x80 }
        } else if (frac >> 51) & 1 != 0 {
            0x200
        } else {
            0x100
        }
    } else if exp == 0 {
        if frac == 0 {
            if sign { 0x8 } else { 0x10 }
        } else if sign {
            0x4
        } else {
            0x20
        }
    } else if sign {
        0x2
    } else {
        0x40
    };
    cpu.regs.write(rd, result);
    Ok(ExecFlow::Next)
}

} // verus!
