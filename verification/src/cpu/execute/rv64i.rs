use vstd::prelude::*;

use crate::cpu::execute::helper::{addr, data_frame, spec_addr, wrote_reg};
use crate::cpu::register::Reg;
use crate::cpu::{Cpu, ExecFlow, ExecResult};
use crate::mmu::{bytes_loaded, in_one_page, mmu_read16, mmu_read32, mmu_read64, mmu_read8, Mmu};
use crate::trap::Trap;

verus! {

/// ADDI: `x[rd] = x[rs1] + imm` (wrapping).
pub fn addi(cpu: &mut Cpu, rd: Reg, rs1: Reg, imm: i64) -> (r: ExecResult)
    ensures
        r == Ok::<ExecFlow, Trap>(ExecFlow::Next),
        wrote_reg(old(cpu), final(cpu), rd, (old(cpu).regs.spec_read(rs1) as i64).wrapping_add(imm) as u64),
{
    let a = cpu.regs.read(rs1) as i64;
    let result = a.wrapping_add(imm);
    cpu.regs.write(rd, result as u64);
    Ok(ExecFlow::Next)
}

/// SLTI: 1 when `x[rs1] < imm` as signed numbers, else 0.
pub fn slti(cpu: &mut Cpu, rd: Reg, rs1: Reg, imm: i64) -> (r: ExecResult)
    ensures
        r == Ok::<ExecFlow, Trap>(ExecFlow::Next),
        wrote_reg(old(cpu), final(cpu), rd, if (old(cpu).regs.spec_read(rs1) as i64) < imm { 1u64 } else { 0u64 }),
{
    let a = cpu.regs.read(rs1) as i64;
    cpu.regs.write(rd, if a < imm { 1 } else { 0 });
    Ok(ExecFlow::Next)
}

/// SLTIU: 1 when `x[rs1] < imm` as unsigned numbers (the immediate sign-extended), else 0.
pub fn sltiu(cpu: &mut Cpu, rd: Reg, rs1: Reg, imm: i64) -> (r: ExecResult)
    ensures
        r == Ok::<ExecFlow, Trap>(ExecFlow::Next),
        wrote_reg(old(cpu), final(cpu), rd, if old(cpu).regs.spec_read(rs1) < (imm as u64) { 1u64 } else { 0u64 }),
{
    let a = cpu.regs.read(rs1);
    cpu.regs.write(rd, if a < imm as u64 { 1 } else { 0 });
    Ok(ExecFlow::Next)
}

/// XORI.
pub fn xori(cpu: &mut Cpu, rd: Reg, rs1: Reg, imm: i64) -> (r: ExecResult)
    ensures
        r == Ok::<ExecFlow, Trap>(ExecFlow::Next),
        wrote_reg(old(cpu), final(cpu), rd, old(cpu).regs.spec_read(rs1) ^ (imm as u64)),
{
    let a = cpu.regs.read(rs1);
    cpu.regs.write(rd, a ^ imm as u64);
    Ok(ExecFlow::Next)
}

/// ORI.
pub fn ori(cpu: &mut Cpu, rd: Reg, rs1: Reg, imm: i64) -> (r: ExecResult)
    ensures
        r == Ok::<ExecFlow, Trap>(ExecFlow::Next),
        wrote_reg(old(cpu), final(cpu), rd, old(cpu).regs.spec_read(rs1) | (imm as u64)),
{
    let a = cpu.regs.read(rs1);
    cpu.regs.write(rd, a | imm as u64);
    Ok(ExecFlow::Next)
}

/// ANDI.
pub fn andi(cpu: &mut Cpu, rd: Reg, rs1: Reg, imm: i64) -> (r: ExecResult)
    ensures
        r == Ok::<ExecFlow, Trap>(ExecFlow::Next),
        wrote_reg(old(cpu), final(cpu), rd, old(cpu).regs.spec_read(rs1) & (imm as u64)),
{
    let a = cpu.regs.read(rs1);
    cpu.regs.write(rd, a & imm as u64);
    Ok(ExecFlow::Next)
}

/// SLLI: shift left by `shamt` (taken modulo 64).
pub fn slli(cpu: &mut Cpu, rd: Reg, rs1: Reg, shamt: u32) -> (r: ExecResult)
    ensures
        r == Ok::<ExecFlow, Trap>(ExecFlow::Next),
        wrote_reg(old(cpu), final(cpu), rd, old(cpu).regs.spec_read(rs1) << (shamt % 64)),
{
    let a = cpu.regs.read(rs1);
    cpu.regs.write(rd, a << (shamt % 64));
    Ok(ExecFlow::Next)
}

/// SRLI: logical shift right by `shamt` (modulo 64).
pub fn srli(cpu: &mut Cpu, rd: Reg, rs1: Reg, shamt: u32) -> (r: ExecResult)
    ensures
        r == Ok::<ExecFlow, Trap>(ExecFlow::Next),
        wrote_reg(old(cpu), final(cpu), rd, old(cpu).regs.spec_read(rs1) >> (shamt % 64)),
{
    let a = cpu.regs.read(rs1);
    cpu.regs.write(rd, a >> (shamt % 64));
    Ok(ExecFlow::Next)
}

/// SRAI: arithmetic shift right by `shamt` (modulo 64).
pub fn srai(cpu: &mut Cpu, rd: Reg, rs1: Reg, shamt: u32) -> (r: ExecResult)
    ensures
        r == Ok::<ExecFlow, Trap>(ExecFlow::Next),
        wrote_reg(old(cpu), final(cpu), rd, ((old(cpu).regs.spec_read(rs1) as i64) >> (shamt % 64)) as u64),
{
    let a = cpu.regs.read(rs1) as i64;
    cpu.regs.write(rd, (a >> (shamt % 64)) as u64);
    Ok(ExecFlow::Next)
}

/// ADDIW: the low 32 bits of `x[rs1] + imm`, sign-extended.
pub fn addiw(cpu: &mut Cpu, rd: Reg, rs1: Reg, imm: i64) -> (r: ExecResult)
    ensures
        r == Ok::<ExecFlow, Trap>(ExecFlow::Next),
        wrote_reg(old(cpu), final(cpu), rd, (old(cpu).regs.spec_read(rs1) as i32).wrapping_add(imm as i32) as i64 as u64),
{
    let a = cpu.regs.read(rs1) as i32;
    let result = a.wrapping_add(imm as i32);
    cpu.regs.write(rd, result as i64 as u64);
    Ok(ExecFlow::Next)
}

/// SLLIW: the low word shifted left (modulo 32), sign-extended.
pub fn slliw(cpu: &mut Cpu, rd: Reg, rs1: Reg, shamt: u32) -> (r: ExecResult)
    ensures
        r == Ok::<ExecFlow, Trap>(ExecFlow::Next),
        wrote_reg(old(cpu), final(cpu), rd, (old(cpu).regs.spec_read(rs1) as i32).wrapping_shl(shamt) as i64 as u64),
{
    let a = cpu.regs.read(rs1) as i32;
    let result = a.wrapping_shl(shamt);
    cpu.regs.write(rd, result as i64 as u64);
    Ok(ExecFlow::Next)
}

/// SRLIW: the low word shifted right logically (modulo 32), sign-extended.
pub fn srliw(cpu: &mut Cpu, rd: Reg, rs1: Reg, shamt: u32) -> (r: ExecResult)
    ensures
        r == Ok::<ExecFlow, Trap>(ExecFlow::Next),
        wrote_reg(old(cpu), final(cpu), rd, ((old(cpu).regs.spec_read(rs1) as u32) >> (shamt % 32)) as i32 as i64 as u64),
{
    let a = cpu.regs.read(rs1) as u32;
    let result = a >> (shamt % 32);
    cpu.regs.write(rd, (result as i32 as i64) as u64);
    Ok(ExecFlow::Next)
}

/// SRAIW: the low word shifted right arithmetically (modulo 32), sign-extended.
pub fn sraiw(cpu: &mut Cpu, rd: Reg, rs1: Reg, shamt: u32) -> (r: ExecResult)
    ensures
        r == Ok::<ExecFlow, Trap>(ExecFlow::Next),
        wrote_reg(old(cpu), final(cpu), rd, ((old(cpu).regs.spec_read(rs1) as i32) >> (shamt % 32)) as i64 as u64),
{
    let a = cpu.regs.read(rs1) as i32;
    let result = a >> (shamt % 32);
    cpu.regs.write(rd, result as i64 as u64);
    Ok(ExecFlow::Next)
}

/// ADD (wrapping).
pub fn add(cpu: &mut Cpu, rd: Reg, rs1: Reg, rs2: Reg) -> (r: ExecResult)
    ensures
        r == Ok::<ExecFlow, Trap>(ExecFlow::Next),
        wrote_reg(old(cpu), final(cpu), rd, old(cpu).regs.spec_read(rs1).wrapping_add(old(cpu).regs.spec_read(rs2))),
{
    let value = cpu.regs.read(rs1).wrapping_add(cpu.regs.read(rs2));
    cpu.regs.write(rd, value);
    Ok(ExecFlow::Next)
}

/// SUB (wrapping).
pub fn sub(cpu: &mut Cpu, rd: Reg, rs1: Reg, rs2: Reg) -> (r: ExecResult)
    ensures
        r == Ok::<ExecFlow, Trap>(ExecFlow::Next),
        wrote_reg(old(cpu), final(cpu), rd, old(cpu).regs.spec_read(rs1).wrapping_sub(old(cpu).regs.spec_read(rs2))),
{
    let value = cpu.regs.read(rs1).wrapping_sub(cpu.regs.read(rs2));
    cpu.regs.write(rd, value);
    Ok(ExecFlow::Next)
}

/// SLL: shift by the low six bits of `x[rs2]`.
pub fn sll(cpu: &mut Cpu, rd: Reg, rs1: Reg, rs2: Reg) -> (r: ExecResult)
    ensures
        r == Ok::<ExecFlow, Trap>(ExecFlow::Next),
        wrote_reg(old(cpu), final(cpu), rd, old(cpu).regs.spec_read(rs1) << (old(cpu).regs.spec_read(rs2) % 64) as u32),
{
    let shamt = (cpu.regs.read(rs2) % 64) as u32;
    let value = cpu.regs.read(rs1) << shamt;
    cpu.regs.write(rd, value);
    Ok(ExecFlow::Next)
}

/// SRL: logical shift by the low six bits of `x[rs2]`.
pub fn srl(cpu: &mut Cpu, rd: Reg, rs1: Reg, rs2: Reg) -> (r: ExecResult)
    ensures
        r == Ok::<ExecFlow, Trap>(ExecFlow::Next),
        wrote_reg(old(cpu), final(cpu), rd, old(cpu).regs.spec_read(rs1) >> (old(cpu).regs.spec_read(rs2) % 64) as u32),
{
    let shamt = (cpu.regs.read(rs2) % 64) as u32;
    let value = cpu.regs.read(rs1) >> shamt;
    cpu.regs.write(rd, value);
    Ok(ExecFlow::Next)
}

/// SRA: arithmetic shift by the low six bits of `x[rs2]`.
pub fn sra(cpu: &mut Cpu, rd: Reg, rs1: Reg, rs2: Reg) -> (r: ExecResult)
    ensures
        r == Ok::<ExecFlow, Trap>(ExecFlow::Next),
        wrote_reg(old(cpu), final(cpu), rd, ((old(cpu).regs.spec_read(rs1) as i64) >> (old(cpu).regs.spec_read(rs2) % 64) as u32) as u64),
{
    let shamt = (cpu.regs.read(rs2) % 64) as u32;
    let value = ((cpu.regs.read(rs1) as i64) >> shamt) as u64;
    cpu.regs.write(rd, value);
    Ok(ExecFlow::Next)
}

/// SLT: signed less-than.
pub fn slt(cpu: &mut Cpu, rd: Reg, rs1: Reg, rs2: Reg) -> (r: ExecResult)
    ensures
        r == Ok::<ExecFlow, Trap>(ExecFlow::Next),
        wrote_reg(old(cpu), final(cpu), rd, if (old(cpu).regs.spec_read(rs1) as i64) < (old(cpu).regs.spec_read(rs2) as i64) { 1u64 } else { 0u64 }),
{
    let value: u64 = if (cpu.regs.read(rs1) as i64) < (cpu.regs.read(rs2) as i64) { 1 } else { 0 };
    cpu.regs.write(rd, value);
    Ok(ExecFlow::Next)
}

/// SLTU: unsigned less-than.
pub fn sltu(cpu: &mut Cpu, rd: Reg, rs1: Reg, rs2: Reg) -> (r: ExecResult)
    ensures
        r == Ok::<ExecFlow, Trap>(ExecFlow::Next),
        wrote_reg(old(cpu), final(cpu), rd, if old(cpu).regs.spec_read(rs1) < old(cpu).regs.spec_read(rs2) { 1u64 } else { 0u64 }),
{
    let value: u64 = if cpu.regs.read(rs1) < cpu.regs.read(rs2) { 1 } else { 0 };
    cpu.regs.write(rd, value);
    Ok(ExecFlow::Next)
}

/// XOR.
pub fn xor(cpu: &mut Cpu, rd: Reg, rs1: Reg, rs2: Reg) -> (r: ExecResult)
    ensures
        r == Ok::<ExecFlow, Trap>(ExecFlow::Next),
        wrote_reg(old(cpu), final(cpu), rd, old(cpu).regs.spec_read(rs1) ^ old(cpu).regs.spec_read(rs2)),
{
    let value = cpu.regs.read(rs1) ^ cpu.regs.read(rs2);
    cpu.regs.write(rd, value);
    Ok(ExecFlow::Next)
}

/// OR.
pub fn or(cpu: &mut Cpu, rd: Reg, rs1: Reg, rs2: Reg) -> (r: ExecResult)
    ensures
        r == Ok::<ExecFlow, Trap>(ExecFlow::Next),
        wrote_reg(old(cpu), final(cpu), rd, old(cpu).regs.spec_read(rs1) | old(cpu).regs.spec_read(rs2)),
{
    let value = cpu.regs.read(rs1) | cpu.regs.read(rs2);
    cpu.regs.write(rd, value);
    Ok(ExecFlow::Next)
}

/// AND.
pub fn and(cpu: &mut Cpu, rd: Reg, rs1: Reg, rs2: Reg) -> (r: ExecResult)
    ensures
        r == Ok::<ExecFlow, Trap>(ExecFlow::Next),
        wrote_reg(old(cpu), final(cpu), rd, old(cpu).regs.spec_read(rs1) & old(cpu).regs.spec_read(rs2)),
{
    let value = cpu.regs.read(rs1) & cpu.regs.read(rs2);
    cpu.regs.write(rd, value);
    Ok(ExecFlow::Next)
}

/// ADDW: the low 32 bits of the sum, sign-extended.
pub fn addw(cpu: &mut Cpu, rd: Reg, rs1: Reg, rs2: Reg) -> (r: ExecResult)
    ensures
        r == Ok::<ExecFlow, Trap>(ExecFlow::Next),
        wrote_reg(old(cpu), final(cpu), rd, (old(cpu).regs.spec_read(rs1) as u32).wrapping_add(old(cpu).regs.spec_read(rs2) as u32) as i32 as i64 as u64),
{
    let lhs = cpu.regs.read(rs1) as u32;
    let rhs = cpu.regs.read(rs2) as u32;
    let value = lhs.wrapping_add(rhs) as i32 as i64 as u64;
    cpu.regs.write(rd, value);
    Ok(ExecFlow::Next)
}

/// SUBW: the low 32 bits of the difference, sign-extended.
pub fn subw(cpu: &mut Cpu, rd: Reg, rs1: Reg, rs2: Reg) -> (r: ExecResult)
    ensures
        r == Ok::<ExecFlow, Trap>(ExecFlow::Next),
        wrote_reg(old(cpu), final(cpu), rd, (old(cpu).regs.spec_read(rs1) as u32).wrapping_sub(old(cpu).regs.spec_read(rs2) as u32) as i32 as i64 as u64),
{
    let lhs = cpu.regs.read(rs1) as u32;
    let rhs = cpu.regs.read(rs2) as u32;
    let value = lhs.wrapping_sub(rhs) as i32 as i64 as u64;
    cpu.regs.write(rd, value);
    Ok(ExecFlow::Next)
}

/// SLLW: the low word shifted by the low five bits of `x[rs2]`, sign-extended.
pub fn sllw(cpu: &mut Cpu, rd: Reg, rs1: Reg, rs2: Reg) -> (r: ExecResult)
    ensures
        r == Ok::<ExecFlow, Trap>(ExecFlow::Next),
        wrote_reg(old(cpu), final(cpu), rd, ((old(cpu).regs.spec_read(rs1) as u32) << (old(cpu).regs.spec_read(rs2) % 32) as u32) as i32 as i64 as u64),
{
    let lhs = cpu.regs.read(rs1) as u32;
    let shamt = (cpu.regs.read(rs2) % 32) as u32;
    let value = (lhs << shamt) as i32 as i64 as u64;
    cpu.regs.write(rd, value);
    Ok(ExecFlow::Next)
}

/// SRLW: logical, on the low word, sign-extended.
pub fn srlw(cpu: &mut Cpu, rd: Reg, rs1: Reg, rs2: Reg) -> (r: ExecResult)
    ensures
        r == Ok::<ExecFlow, Trap>(ExecFlow::Next),
        wrote_reg(old(cpu), final(cpu), rd, ((old(cpu).regs.spec_read(rs1) as u32) >> (old(cpu).regs.spec_read(rs2) % 32) as u32) as i32 as i64 as u64),
{
    let lhs = cpu.regs.read(rs1) as u32;
    let shamt = (cpu.regs.read(rs2) % 32) as u32;
    let value = (lhs >> shamt) as i32 as i64 as u64;
    cpu.regs.write(rd, value);
    Ok(ExecFlow::Next)
}

/// SRAW: arithmetic, on the low word, sign-extended.
pub fn sraw(cpu: &mut Cpu, rd: Reg, rs1: Reg, rs2: Reg) -> (r: ExecResult)
    ensures
        r == Ok::<ExecFlow, Trap>(ExecFlow::Next),
        wrote_reg(old(cpu), final(cpu), rd, ((old(cpu).regs.spec_read(rs1) as i32) >> (old(cpu).regs.spec_read(rs2) % 32) as u32) as i64 as u64),
{
    let lhs = cpu.regs.read(rs1) as i32;
    let shamt = (cpu.regs.read(rs2) % 32) as u32;
    let value = (lhs >> shamt) as i64 as u64;
    cpu.regs.write(rd, value);
    Ok(ExecFlow::Next)
}

/// LB: a sign-extended byte. It goes through the MMU (see `mmu_read8` and its
/// wider forms); the value is what the bus answers at the physical address.
pub fn lb(cpu: &mut Cpu, rd: Reg, rs1: Reg, imm: i64) -> (r: ExecResult)
    ensures
        data_frame(old(cpu), final(cpu)),
        r is Ok ==> r == Ok::<ExecFlow, Trap>(ExecFlow::Next),
        r is Err ==> final(cpu).regs == old(cpu).regs,
        exists|mid: Cpu, t: Result<u8, Trap>|
            #![trigger mmu_read8(old(cpu), &mid, spec_addr(old(cpu), rs1, imm), t)]
            mmu_read8(old(cpu), &mid, spec_addr(old(cpu), rs1, imm), t) && match t {
                Err(e) => r == Err::<ExecFlow, Trap>(e) && *final(cpu) == mid,
                Ok(v) => r == Ok::<ExecFlow, Trap>(ExecFlow::Next) && wrote_reg(&mid, final(cpu), rd, v as i8 as i64 as u64),
            },
{
    let a = addr(cpu, rs1, imm);
    let value = Mmu::read8(cpu, a)?;
    cpu.regs.write(rd, value as i8 as i64 as u64);
    Ok(ExecFlow::Next)
}

/// LBU: a zero-extended byte. It goes through the MMU (see `mmu_read8` and its
/// wider forms); the value is what the bus answers at the physical address.
pub fn lbu(cpu: &mut Cpu, rd: Reg, rs1: Reg, imm: i64) -> (r: ExecResult)
    ensures
        data_frame(old(cpu), final(cpu)),
        r is Ok ==> r == Ok::<ExecFlow, Trap>(ExecFlow::Next),
        r is Err ==> final(cpu).regs == old(cpu).regs,
        exists|mid: Cpu, t: Result<u8, Trap>|
            #![trigger mmu_read8(old(cpu), &mid, spec_addr(old(cpu), rs1, imm), t)]
            mmu_read8(old(cpu), &mid, spec_addr(old(cpu), rs1, imm), t) && match t {
                Err(e) => r == Err::<ExecFlow, Trap>(e) && *final(cpu) == mid,
                Ok(v) => r == Ok::<ExecFlow, Trap>(ExecFlow::Next) && wrote_reg(&mid, final(cpu), rd, v as u64),
            },
{
    let a = addr(cpu, rs1, imm);
    let value = Mmu::read8(cpu, a)?;
    cpu.regs.write(rd, value as u64);
    Ok(ExecFlow::Next)
}

/// LH: a sign-extended halfword. It goes through the MMU (see `mmu_read8` and its
/// wider forms); the value is what the bus answers at the physical address.
pub fn lh(cpu: &mut Cpu, rd: Reg, rs1: Reg, imm: i64) -> (r: ExecResult)
    ensures
        data_frame(old(cpu), final(cpu)),
        r is Ok ==> r == Ok::<ExecFlow, Trap>(ExecFlow::Next),
        r is Err ==> final(cpu).regs == old(cpu).regs,
        in_one_page(spec_addr(old(cpu), rs1, imm), 2) ==> exists|mid: Cpu, t: Result<u16, Trap>|
            #![trigger mmu_read16(old(cpu), &mid, spec_addr(old(cpu), rs1, imm), t)]
            mmu_read16(old(cpu), &mid, spec_addr(old(cpu), rs1, imm), t) && match t {
                Err(e) => r == Err::<ExecFlow, Trap>(e) && *final(cpu) == mid,
                Ok(v) => r == Ok::<ExecFlow, Trap>(ExecFlow::Next) && wrote_reg(&mid, final(cpu), rd, v as i16 as i64 as u64),
            },
        !in_one_page(spec_addr(old(cpu), rs1, imm), 2) ==> exists|mid: Cpu, t: Result<u64, Trap>|
            #![trigger bytes_loaded(old(cpu), &mid, spec_addr(old(cpu), rs1, imm), 2, t)]
            bytes_loaded(old(cpu), &mid, spec_addr(old(cpu), rs1, imm), 2, t) && match t {
                Err(e) => r == Err::<ExecFlow, Trap>(e) && *final(cpu) == mid,
                Ok(v) => r == Ok::<ExecFlow, Trap>(ExecFlow::Next) && wrote_reg(&mid, final(cpu), rd, v as u16 as i16 as i64 as u64),
            },
{
    let a = addr(cpu, rs1, imm);
    let value = Mmu::read16(cpu, a)?;
    cpu.regs.write(rd, value as i16 as i64 as u64);
    Ok(ExecFlow::Next)
}

/// LHU: a zero-extended halfword. It goes through the MMU (see `mmu_read8` and its
/// wider forms); the value is what the bus answers at the physical address.
pub fn lhu(cpu: &mut Cpu, rd: Reg, rs1: Reg, imm: i64) -> (r: ExecResult)
    ensures
        data_frame(old(cpu), final(cpu)),
        r is Ok ==> r == Ok::<ExecFlow, Trap>(ExecFlow::Next),
        r is Err ==> final(cpu).regs == old(cpu).regs,
        in_one_page(spec_addr(old(cpu), rs1, imm), 2) ==> exists|mid: Cpu, t: Result<u16, Trap>|
            #![trigger mmu_read16(old(cpu), &mid, spec_addr(old(cpu), rs1, imm), t)]
            mmu_read16(old(cpu), &mid, spec_addr(old(cpu), rs1, imm), t) && match t {
                Err(e) => r == Err::<ExecFlow, Trap>(e) && *final(cpu) == mid,
                Ok(v) => r == Ok::<ExecFlow, Trap>(ExecFlow::Next) && wrote_reg(&mid, final(cpu), rd, v as u64),
            },
        !in_one_page(spec_addr(old(cpu), rs1, imm), 2) ==> exists|mid: Cpu, t: Result<u64, Trap>|
            #![trigger bytes_loaded(old(cpu), &mid, spec_addr(old(cpu), rs1, imm), 2, t)]
            bytes_loaded(old(cpu), &mid, spec_addr(old(cpu), rs1, imm), 2, t) && match t {
                Err(e) => r == Err::<ExecFlow, Trap>(e) && *final(cpu) == mid,
                Ok(v) => r == Ok::<ExecFlow, Trap>(ExecFlow::Next) && wrote_reg(&mid, final(cpu), rd, v as u16 as u64),
            },
{
    let a = addr(cpu, rs1, imm);
    let value = Mmu::read16(cpu, a)?;
    cpu.regs.write(rd, value as u64);
    Ok(ExecFlow::Next)
}

/// LW: a sign-extended word. It goes through the MMU (see `mmu_read8` and its
/// wider forms); the value is what the bus answers at the physical address.
pub fn lw(cpu: &mut Cpu, rd: Reg, rs1: Reg, imm: i64) -> (r: ExecResult)
    ensures
        data_frame(old(cpu), final(cpu)),
        r is Ok ==> r == Ok::<ExecFlow, Trap>(ExecFlow::Next),
        r is Err ==> final(cpu).regs == old(cpu).regs,
        in_one_page(spec_addr(old(cpu), rs1, imm), 4) ==> exists|mid: Cpu, t: Result<u32, Trap>|
            #![trigger mmu_read32(old(cpu), &mid, spec_addr(old(cpu), rs1, imm), t)]
            mmu_read32(old(cpu), &mid, spec_addr(old(cpu), rs1, imm), t) && match t {
                Err(e) => r == Err::<ExecFlow, Trap>(e) && *final(cpu) == mid,
                Ok(v) => r == Ok::<ExecFlow, Trap>(ExecFlow::Next) && wrote_reg(&mid, final(cpu), rd, v as i32 as i64 as u64),
            },
        !in_one_page(spec_addr(old(cpu), rs1, imm), 4) ==> exists|mid: Cpu, t: Result<u64, Trap>|
            #![trigger bytes_loaded(old(cpu), &mid, spec_addr(old(cpu), rs1, imm), 4, t)]
            bytes_loaded(old(cpu), &mid, spec_addr(old(cpu), rs1, imm), 4, t) && match t {
                Err(e) => r == Err::<ExecFlow, Trap>(e) && *final(cpu) == mid,
                Ok(v) => r == Ok::<ExecFlow, Trap>(ExecFlow::Next) && wrote_reg(&mid, final(cpu), rd, v as u32 as i32 as i64 as u64),
            },
{
    let a = addr(cpu, rs1, imm);
    let value = Mmu::read32(cpu, a)?;
    cpu.regs.write(rd, value as i32 as i64 as u64);
    Ok(ExecFlow::Next)
}

/// LWU: a zero-extended word. It goes through the MMU (see `mmu_read8` and its
/// wider forms); the value is what the bus answers at the physical address.
pub fn lwu(cpu: &mut Cpu, rd: Reg, rs1: Reg, imm: i64) -> (r: ExecResult)
    ensures
        data_frame(old(cpu), final(cpu)),
        r is Ok ==> r == Ok::<ExecFlow, Trap>(ExecFlow::Next),
        r is Err ==> final(cpu).regs == old(cpu).regs,
        in_one_page(spec_addr(old(cpu), rs1, imm), 4) ==> exists|mid: Cpu, t: Result<u32, Trap>|
            #![trigger mmu_read32(old(cpu), &mid, spec_addr(old(cpu), rs1, imm), t)]
            mmu_read32(old(cpu), &mid, spec_addr(old(cpu), rs1, imm), t) && match t {
                Err(e) => r == Err::<ExecFlow, Trap>(e) && *final(cpu) == mid,
                Ok(v) => r == Ok::<ExecFlow, Trap>(ExecFlow::Next) && wrote_reg(&mid, final(cpu), rd, v as u64),
            },
        !in_one_page(spec_addr(old(cpu), rs1, imm), 4) ==> exists|mid: Cpu, t: Result<u64, Trap>|
            #![trigger bytes_loaded(old(cpu), &mid, spec_addr(old(cpu), rs1, imm), 4, t)]
            bytes_loaded(old(cpu), &mid, spec_addr(old(cpu), rs1, imm), 4, t) && match t {
                Err(e) => r == Err::<ExecFlow, Trap>(e) && *final(cpu) == mid,
                Ok(v) => r == Ok::<ExecFlow, Trap>(ExecFlow::Next) && wrote_reg(&mid, final(cpu), rd, v as u32 as u64),
            },
{
    let a = addr(cpu, rs1, imm);
    let value = Mmu::read32(cpu, a)?;
    cpu.regs.write(rd, value as u64);
    Ok(ExecFlow::Next)
}

/// LD: a doubleword. It goes through the MMU (see `mmu_read8` and its
/// wider forms); the value is what the bus answers at the physical address.
pub fn ld(cpu: &mut Cpu, rd: Reg, rs1: Reg, imm: i64) -> (r: ExecResult)
    ensures
        data_frame(old(cpu), final(cpu)),
        r is Ok ==> r == Ok::<ExecFlow, Trap>(ExecFlow::Next),
        r is Err ==> final(cpu).regs == old(cpu).regs,
        in_one_page(spec_addr(old(cpu), rs1, imm), 8) ==> exists|mid: Cpu, t: Result<u64, Trap>|
            #![trigger mmu_read64(old(cpu), &mid, spec_addr(old(cpu), rs1, imm), t)]
            mmu_read64(old(cpu), &mid, spec_addr(old(cpu), rs1, imm), t) && match t {
                Err(e) => r == Err::<ExecFlow, Trap>(e) && *final(cpu) == mid,
                Ok(v) => r == Ok::<ExecFlow, Trap>(ExecFlow::Next) && wrote_reg(&mid, final(cpu), rd, v),
            },
        !in_one_page(spec_addr(old(cpu), rs1, imm), 8) ==> exists|mid: Cpu, t: Result<u64, Trap>|
            #![trigger bytes_loaded(old(cpu), &mid, spec_addr(old(cpu), rs1, imm), 8, t)]
            bytes_loaded(old(cpu), &mid, spec_addr(old(cpu), rs1, imm), 8, t) && match t {
                Err(e) => r == Err::<ExecFlow, Trap>(e) && *final(cpu) == mid,
                Ok(v) => r == Ok::<ExecFlow, Trap>(ExecFlow::Next) && wrote_reg(&mid, final(cpu), rd, v),
            },
{
    let a = addr(cpu, rs1, imm);
    let value = Mmu::read64(cpu, a)?;
    cpu.regs.write(rd, value);
    Ok(ExecFlow::Next)
}

/// BEQ: taken when equal. The target is `pc + imm`.
pub fn beq(cpu: &mut Cpu, rs1: Reg, rs2: Reg, imm: i64) -> (r: ExecResult)
    ensures
        *final(cpu) == *old(cpu),
        r == Ok::<ExecFlow, Trap>(
            if old(cpu).regs.spec_read(rs1) == old(cpu).regs.spec_read(rs2) {
                ExecFlow::Jump(old(cpu).pc.wrapping_add(imm as u64))
            } else {
                ExecFlow::Next
            },
        ),
{
    if cpu.regs.read(rs1) == cpu.regs.read(rs2) {
        Ok(ExecFlow::Jump(cpu.pc.wrapping_add(imm as u64)))
    } else {
        Ok(ExecFlow::Next)
    }
}

/// BNE: taken when not equal. The target is `pc + imm`.
pub fn bne(cpu: &mut Cpu, rs1: Reg, rs2: Reg, imm: i64) -> (r: ExecResult)
    ensures
        *final(cpu) == *old(cpu),
        r == Ok::<ExecFlow, Trap>(
            if old(cpu).regs.spec_read(rs1) != old(cpu).regs.spec_read(rs2) {
                ExecFlow::Jump(old(cpu).pc.wrapping_add(imm as u64))
            } else {
                ExecFlow::Next
            },
        ),
{
    if cpu.regs.read(rs1) != cpu.regs.read(rs2) {
        Ok(ExecFlow::Jump(cpu.pc.wrapping_add(imm as u64)))
    } else {
        Ok(ExecFlow::Next)
    }
}

/// BLT: taken when less (signed). The target is `pc + imm`.
pub fn blt(cpu: &mut Cpu, rs1: Reg, rs2: Reg, imm: i64) -> (r: ExecResult)
    ensures
        *final(cpu) == *old(cpu),
        r == Ok::<ExecFlow, Trap>(
            if (old(cpu).regs.spec_read(rs1) as i64) < (old(cpu).regs.spec_read(rs2) as i64) {
                ExecFlow::Jump(old(cpu).pc.wrapping_add(imm as u64))
            } else {
                ExecFlow::Next
            },
        ),
{
    if (cpu.regs.read(rs1) as i64) < (cpu.regs.read(rs2) as i64) {
        Ok(ExecFlow::Jump(cpu.pc.wrapping_add(imm as u64)))
    } else {
        Ok(ExecFlow::Next)
    }
}

/// BGE: taken when greater or equal (signed). The target is `pc + imm`.
pub fn bge(cpu: &mut Cpu, rs1: Reg, rs2: Reg, imm: i64) -> (r: ExecResult)
    ensures
        *final(cpu) == *old(cpu),
        r == Ok::<ExecFlow, Trap>(
            if (old(cpu).regs.spec_read(rs1) as i64) >= (old(cpu).regs.spec_read(rs2) as i64) {
                ExecFlow::Jump(old(cpu).pc.wrapping_add(imm as u64))
            } else {
                ExecFlow::Next
            },
        ),
{
    if (cpu.regs.read(rs1) as i64) >= (cpu.regs.read(rs2) as i64) {
        Ok(ExecFlow::Jump(cpu.pc.wrapping_add(imm as u64)))
    } else {
        Ok(ExecFlow::Next)
    }
}

/// BLTU: taken when less (unsigned). The target is `pc + imm`.
pub fn bltu(cpu: &mut Cpu, rs1: Reg, rs2: Reg, imm: i64) -> (r: ExecResult)
    ensures
        *final(cpu) == *old(cpu),
        r == Ok::<ExecFlow, Trap>(
            if old(cpu).regs.spec_read(rs1) < old(cpu).regs.spec_read(rs2) {
                ExecFlow::Jump(old(cpu).pc.wrapping_add(imm as u64))
            } else {
                ExecFlow::Next
            },
        ),
{
    if cpu.regs.read(rs1) < cpu.regs.read(rs2) {
        Ok(ExecFlow::Jump(cpu.pc.wrapping_add(imm as u64)))
    } else {
        Ok(ExecFlow::Next)
    }
}

/// BGEU: taken when greater or equal (unsigned). The target is `pc + imm`.
pub fn bgeu(cpu: &mut Cpu, rs1: Reg, rs2: Reg, imm: i64) -> (r: ExecResult)
    ensures
        *final(cpu) == *old(cpu),
        r == Ok::<ExecFlow, Trap>(
            if old(cpu).regs.spec_read(rs1) >= old(cpu).regs.spec_read(rs2) {
                ExecFlow::Jump(old(cpu).pc.wrapping_add(imm as u64))
            } else {
                ExecFlow::Next
            },
        ),
{
    if cpu.regs.read(rs1) >= cpu.regs.read(rs2) {
        Ok(ExecFlow::Jump(cpu.pc.wrapping_add(imm as u64)))
    } else {
        Ok(ExecFlow::Next)
    }
}

/// JAL: links the address of the next instruction into `rd` and jumps to
/// `pc + imm`.
pub fn jal(cpu: &mut Cpu, rd: Reg, imm: i64) -> (r: ExecResult)
    ensures
        wrote_reg(old(cpu), final(cpu), rd, old(cpu).pc.wrapping_add(old(cpu).current_instruction_length as u64)),
        r == Ok::<ExecFlow, Trap>(ExecFlow::Jump(old(cpu).pc.wrapping_add(imm as u64))),
{
    let return_addr = cpu.pc.wrapping_add(cpu.current_instruction_length as u64);
    cpu.regs.write(rd, return_addr);
    Ok(ExecFlow::Jump(cpu.pc.wrapping_add(imm as u64)))
}

/// JALR: jumps to `(x[rs1] + imm)` with bit 0 cleared, linking the address
/// of the next instruction into `rd`.
pub fn jalr(cpu: &mut Cpu, rd: Reg, rs1: Reg, imm: i64) -> (r: ExecResult)
    ensures
        ({
            let target = old(cpu).regs.spec_read(rs1).wrapping_add(imm as u64) & !1u64;
            if target & 1 != 0 {
                r == Err::<ExecFlow, Trap>(Trap::InstructionAddressMisaligned(target)) && *final(cpu) == *old(cpu)
            } else {
                &&& r == Ok::<ExecFlow, Trap>(ExecFlow::Jump(target))
                &&& wrote_reg(old(cpu), final(cpu), rd, old(cpu).pc.wrapping_add(old(cpu).current_instruction_length as u64))
            }
        }),
{
    let return_addr = cpu.pc.wrapping_add(cpu.current_instruction_length as u64);
    let target = cpu.regs.read(rs1).wrapping_add(imm as u64) & !1u64;
    if target & 1 != 0 {
        return Err(Trap::InstructionAddressMisaligned(target));
    }
    cpu.regs.write(rd, return_addr);
    Ok(ExecFlow::Jump(target))
}

} // verus!
