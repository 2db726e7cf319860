use vstd::prelude::*;

use crate::cpu::execute::helper::wrote_reg;
use crate::cpu::register::Reg;
use crate::cpu::{Cpu, ExecFlow, ExecResult};
use crate::trap::Trap;

verus! {

/// RISC-V signed division: rounding toward zero, -1 for a zero divisor,
/// the dividend itself when the quotient overflows.
pub open spec fn rv_div64(a: i64, b: i64) -> i64 {
    if b == 0 {
        -1i64
    } else {
        match a.checked_div(b) {
            Some(q) => q,
            None => i64::MIN,
        }
    }
}

/// RISC-V signed remainder: the dividend for a zero divisor, 0 when the
/// quotient overflows, else the remainder of rounding toward zero.
pub open spec fn rv_rem64(a: i64, b: i64) -> i64 {
    if b == 0 {
        a
    } else {
        match a.checked_rem(b) {
            Some(m) => m,
            None => 0,
        }
    }
}

/// `rv_div64` on words.
pub open spec fn rv_div32(a: i32, b: i32) -> i32 {
    if b == 0 {
        -1i32
    } else {
        match a.checked_div(b) {
            Some(q) => q,
            None => i32::MIN,
        }
    }
}

/// `rv_rem64` on words.
pub open spec fn rv_rem32(a: i32, b: i32) -> i32 {
    if b == 0 {
        a
    } else {
        match a.checked_rem(b) {
            Some(m) => m,
            None => 0,
        }
    }
}

/// MUL: the low 64 bits of the product.
pub fn mul(cpu: &mut Cpu, rd: Reg, rs1: Reg, rs2: Reg) -> (r: ExecResult)
    ensures
        r == Ok::<ExecFlow, Trap>(ExecFlow::Next),
        wrote_reg(old(cpu), final(cpu), rd, old(cpu).regs.spec_read(rs1).wrapping_mul(old(cpu).regs.spec_read(rs2))),
{
    let a = cpu.regs.read(rs1);
    let b = cpu.regs.read(rs2);
    cpu.regs.write(rd, a.wrapping_mul(b));
    Ok(ExecFlow::Next)
}

/// MULHU: the high 64 bits of the unsigned product.
pub fn mulhu(cpu: &mut Cpu, rd: Reg, rs1: Reg, rs2: Reg) -> (r: ExecResult)
    ensures
        r == Ok::<ExecFlow, Trap>(ExecFlow::Next),
        wrote_reg(old(cpu), final(cpu), rd, (((old(cpu).regs.spec_read(rs1) as u128) * (old(cpu).regs.spec_read(rs2) as u128)) as u128 >> 64u128) as u64),
{
    let a = cpu.regs.read(rs1) as u128;
    let b = cpu.regs.read(rs2) as u128;
    assert(a * b <= 0xFFFF_FFFF_FFFF_FFFE_0000_0000_0000_0001) by (nonlinear_arith)
        requires
            a < 0x1_0000_0000_0000_0000,
            b < 0x1_0000_0000_0000_0000,
    ;
    let result = a * b;
    cpu.regs.write(rd, (result >> 64) as u64);
    Ok(ExecFlow::Next)
}

/// MULH: the high 64 bits of the signed product.
pub fn mulh(cpu: &mut Cpu, rd: Reg, rs1: Reg, rs2: Reg) -> (r: ExecResult)
    ensures
        r == Ok::<ExecFlow, Trap>(ExecFlow::Next),
        wrote_reg(old(cpu), final(cpu), rd, (((old(cpu).regs.spec_read(rs1) as i64 as i128) * (old(cpu).regs.spec_read(rs2) as i64 as i128)) as i128 >> 64i128) as i64 as u64),
{
    let a = cpu.regs.read(rs1) as i64 as i128;
    let b = cpu.regs.read(rs2) as i64 as i128;
    assert(-0x4000_0000_0000_0000_0000_0000_0000_0000 <= a * b <= 0x4000_0000_0000_0000_0000_0000_0000_0000) by (nonlinear_arith)
        requires
            -0x8000_0000_0000_0000 <= a < 0x8000_0000_0000_0000,
            -0x8000_0000_0000_0000 <= b < 0x8000_0000_0000_0000,
    ;
    let result = a * b;
    cpu.regs.write(rd, ((result >> 64) as i64) as u64);
    Ok(ExecFlow::Next)
}

/// MULHSU: the high 64 bits of signed `x[rs1]` times unsigned `x[rs2]`.
pub fn mulhsu(cpu: &mut Cpu, rd: Reg, rs1: Reg, rs2: Reg) -> (r: ExecResult)
    ensures
        r == Ok::<ExecFlow, Trap>(ExecFlow::Next),
        wrote_reg(old(cpu), final(cpu), rd, (((old(cpu).regs.spec_read(rs1) as i64 as i128) * (old(cpu).regs.spec_read(rs2) as u128 as i128)) as i128 >> 64i128) as i64 as u64),
{
    let a = cpu.regs.read(rs1) as i64 as i128;
    let b = cpu.regs.read(rs2) as u128;
    let bi = b as i128;
    assert(-0x8000_0000_0000_0000_0000_0000_0000_0000 <= a * bi < 0x8000_0000_0000_0000_0000_0000_0000_0000) by (nonlinear_arith)
        requires
            -0x8000_0000_0000_0000 <= a < 0x8000_0000_0000_0000,
            0 <= bi < 0x1_0000_0000_0000_0000,
    ;
    let result = a * bi;
    cpu.regs.write(rd, ((result >> 64) as i64) as u64);
    Ok(ExecFlow::Next)
}

/// DIVU: unsigned quotient; all ones for a zero divisor.
pub fn divu(cpu: &mut Cpu, rd: Reg, rs1: Reg, rs2: Reg) -> (r: ExecResult)
    ensures
        r == Ok::<ExecFlow, Trap>(ExecFlow::Next),
        wrote_reg(old(cpu), final(cpu), rd, if old(cpu).regs.spec_read(rs2) == 0 { u64::MAX } else { (old(cpu).regs.spec_read(rs1) / old(cpu).regs.spec_read(rs2)) as u64 }),
{
    let dividend = cpu.regs.read(rs1);
    let divisor = cpu.regs.read(rs2);
    let result = if divisor == 0 { u64::MAX } else { dividend / divisor };
    cpu.regs.write(rd, result);
    Ok(ExecFlow::Next)
}

/// DIV: signed quotient (see `rv_div64`).
pub fn div(cpu: &mut Cpu, rd: Reg, rs1: Reg, rs2: Reg) -> (r: ExecResult)
    ensures
        r == Ok::<ExecFlow, Trap>(ExecFlow::Next),
        wrote_reg(old(cpu), final(cpu), rd, rv_div64(old(cpu).regs.spec_read(rs1) as i64, old(cpu).regs.spec_read(rs2) as i64) as u64),
{
    let dividend = cpu.regs.read(rs1) as i64;
    let divisor = cpu.regs.read(rs2) as i64;
    let result: i64 = if divisor == 0 {
        -1
    } else {
        match dividend.checked_div(divisor) {
            Some(q) => q,
            None => i64::MIN,
        }
    };
    cpu.regs.write(rd, result as u64);
    Ok(ExecFlow::Next)
}

/// REM: signed remainder (see `rv_rem64`).
pub fn rem(cpu: &mut Cpu, rd: Reg, rs1: Reg, rs2: Reg) -> (r: ExecResult)
    ensures
        r == Ok::<ExecFlow, Trap>(ExecFlow::Next),
        wrote_reg(old(cpu), final(cpu), rd, rv_rem64(old(cpu).regs.spec_read(rs1) as i64, old(cpu).regs.spec_read(rs2) as i64) as u64),
{
    let dividend = cpu.regs.read(rs1) as i64;
    let divisor = cpu.regs.read(rs2) as i64;
    let result: i64 = if divisor == 0 {
        dividend
    } else {
        match dividend.checked_rem(divisor) {
            Some(m) => m,
            None => 0,
        }
    };
    cpu.regs.write(rd, result as u64);
    Ok(ExecFlow::Next)
}

/// REMU: unsigned remainder; the dividend for a zero divisor.
pub fn remu(cpu: &mut Cpu, rd: Reg, rs1: Reg, rs2: Reg) -> (r: ExecResult)
    ensures
        r == Ok::<ExecFlow, Trap>(ExecFlow::Next),
        wrote_reg(old(cpu), final(cpu), rd, if old(cpu).regs.spec_read(rs2) == 0 { old(cpu).regs.spec_read(rs1) } else { (old(cpu).regs.spec_read(rs1) % old(cpu).regs.spec_read(rs2)) as u64 }),
{
    let dividend = cpu.regs.read(rs1);
    let divisor = cpu.regs.read(rs2);
    let result = if divisor == 0 { dividend } else { dividend % divisor };
    cpu.regs.write(rd, result);
    Ok(ExecFlow::Next)
}

/// MULW: the low word of the product, sign-extended.
pub fn mulw(cpu: &mut Cpu, rd: Reg, rs1: Reg, rs2: Reg) -> (r: ExecResult)
    ensures
        r == Ok::<ExecFlow, Trap>(ExecFlow::Next),
        wrote_reg(old(cpu), final(cpu), rd, (old(cpu).regs.spec_read(rs1) as i32).wrapping_mul(old(cpu).regs.spec_read(rs2) as i32) as i64 as u64),
{
    let a = cpu.regs.read(rs1) as i32;
    let b = cpu.regs.read(rs2) as i32;
    let result = a.wrapping_mul(b);
    cpu.regs.write(rd, result as i64 as u64);
    Ok(ExecFlow::Next)
}

/// DIVW: signed word quotient (see `rv_div32`), sign-extended.
pub fn divw(cpu: &mut Cpu, rd: Reg, rs1: Reg, rs2: Reg) -> (r: ExecResult)
    ensures
        r == Ok::<ExecFlow, Trap>(ExecFlow::Next),
        wrote_reg(old(cpu), final(cpu), rd, rv_div32(old(cpu).regs.spec_read(rs1) as i32, old(cpu).regs.spec_read(rs2) as i32) as i64 as u64),
{
    let dividend = cpu.regs.read(rs1) as i32;
    let divisor = cpu.regs.read(rs2) as i32;
    let result: i32 = if divisor == 0 {
        -1
    } else {
        match dividend.checked_div(divisor) {
            Some(q) => q,
            None => i32::MIN,
        }
    };
    cpu.regs.write(rd, result as i64 as u64);
    Ok(ExecFlow::Next)
}

/// DIVUW: unsigned word quotient (all ones for a zero divisor), sign-extended.
pub fn divuw(cpu: &mut Cpu, rd: Reg, rs1: Reg, rs2: Reg) -> (r: ExecResult)
    ensures
        r == Ok::<ExecFlow, Trap>(ExecFlow::Next),
        wrote_reg(old(cpu), final(cpu), rd, (if (old(cpu).regs.spec_read(rs2) as u32) == 0 { u32::MAX } else { ((old(cpu).regs.spec_read(rs1) as u32) / (old(cpu).regs.spec_read(rs2) as u32)) as u32 }) as i32 as i64 as u64),
{
    let dividend = cpu.regs.read(rs1) as u32;
    let divisor = cpu.regs.read(rs2) as u32;
    let result = if divisor == 0 { u32::MAX } else { dividend / divisor };
    cpu.regs.write(rd, (result as i32 as i64) as u64);
    Ok(ExecFlow::Next)
}

/// REMW: signed word remainder (see `rv_rem32`), sign-extended.
pub fn remw(cpu: &mut Cpu, rd: Reg, rs1: Reg, rs2: Reg) -> (r: ExecResult)
    ensures
        r == Ok::<ExecFlow, Trap>(ExecFlow::Next),
        wrote_reg(old(cpu), final(cpu), rd, rv_rem32(old(cpu).regs.spec_read(rs1) as i32, old(cpu).regs.spec_read(rs2) as i32) as i64 as u64),
{
    let dividend = cpu.regs.read(rs1) as i32;
    let divisor = cpu.regs.read(rs2) as i32;
    let result: i32 = if divisor == 0 {
        dividend
    } else {
        match dividend.checked_rem(divisor) {
            Some(m) => m,
            None => 0,
        }
    };
    cpu.regs.write(rd, result as i64 as u64);
    Ok(ExecFlow::Next)
}

/// REMUW: unsigned word remainder (the dividend for a zero divisor), sign-extended.
pub fn remuw(cpu: &mut Cpu, rd: Reg, rs1: Reg, rs2: Reg) -> (r: ExecResult)
    ensures
        r == Ok::<ExecFlow, Trap>(ExecFlow::Next),
        wrote_reg(old(cpu), final(cpu), rd, (if (old(cpu).regs.spec_read(rs2) as u32) == 0 { old(cpu).regs.spec_read(rs1) as u32 } else { ((old(cpu).regs.spec_read(rs1) as u32) % (old(cpu).regs.spec_read(rs2) as u32)) as u32 }) as i32 as i64 as u64),
{
    let dividend = cpu.regs.read(rs1) as u32;
    let divisor = cpu.regs.read(rs2) as u32;
    let result = if divisor == 0 { dividend } else { dividend % divisor };
    cpu.regs.write(rd, (result as i32 as i64) as u64);
    Ok(ExecFlow::Next)
}

} // verus!
