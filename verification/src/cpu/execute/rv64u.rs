use vstd::prelude::*;

use crate::cpu::execute::helper::{addr, spec_addr, wrote_reg};
use crate::cpu::register::Reg;
use crate::cpu::{Cpu, ExecFlow, ExecResult};
use crate::mmu::{access_frame, bytes_stored, in_one_page, mmu_write16, mmu_write32, mmu_write64, mmu_write8, Mmu};
use crate::trap::Trap;

verus! {

/// The outcome of a store instruction as the outcome of the store itself.
pub open spec fn store_result(r: ExecResult) -> Result<(), Trap> {
    match r {
        Ok(_) => Ok(()),
        Err(e) => Err(e),
    }
}

/// SB: stores the low byte of `x[rs2]`. at `x[rs1] + imm`, through the MMU.
pub fn sb(cpu: &mut Cpu, rs1: Reg, rs2: Reg, imm: i64) -> (r: ExecResult)
    ensures
        access_frame(old(cpu), final(cpu)),
        r is Ok ==> r == Ok::<ExecFlow, Trap>(ExecFlow::Next),
        mmu_write8(old(cpu), final(cpu), spec_addr(old(cpu), rs1, imm), old(cpu).regs.spec_read(rs2) as u8, store_result(r)),
{
    let a = addr(cpu, rs1, imm);
    let value = cpu.regs.read(rs2) as u8;
    Mmu::write8(cpu, a, value)?;
    Ok(ExecFlow::Next)
}

/// SH: stores the low halfword of `x[rs2]`. at `x[rs1] + imm`, through the MMU.
pub fn sh(cpu: &mut Cpu, rs1: Reg, rs2: Reg, imm: i64) -> (r: ExecResult)
    ensures
        access_frame(old(cpu), final(cpu)),
        r is Ok ==> r == Ok::<ExecFlow, Trap>(ExecFlow::Next),
        in_one_page(spec_addr(old(cpu), rs1, imm), 2) ==> mmu_write16(old(cpu), final(cpu), spec_addr(old(cpu), rs1, imm), old(cpu).regs.spec_read(rs2) as u16, store_result(r)),
        !in_one_page(spec_addr(old(cpu), rs1, imm), 2) ==> bytes_stored(old(cpu), final(cpu), spec_addr(old(cpu), rs1, imm), old(cpu).regs.spec_read(rs2) as u16 as u64, 2, store_result(r)),
{
    let a = addr(cpu, rs1, imm);
    let value = cpu.regs.read(rs2) as u16;
    Mmu::write16(cpu, a, value)?;
    Ok(ExecFlow::Next)
}

/// SW: stores the low word of `x[rs2]`. at `x[rs1] + imm`, through the MMU.
pub fn sw(cpu: &mut Cpu, rs1: Reg, rs2: Reg, imm: i64) -> (r: ExecResult)
    ensures
        access_frame(old(cpu), final(cpu)),
        r is Ok ==> r == Ok::<ExecFlow, Trap>(ExecFlow::Next),
        in_one_page(spec_addr(old(cpu), rs1, imm), 4) ==> mmu_write32(old(cpu), final(cpu), spec_addr(old(cpu), rs1, imm), old(cpu).regs.spec_read(rs2) as u32, store_result(r)),
        !in_one_page(spec_addr(old(cpu), rs1, imm), 4) ==> bytes_stored(old(cpu), final(cpu), spec_addr(old(cpu), rs1, imm), old(cpu).regs.spec_read(rs2) as u32 as u64, 4, store_result(r)),
{
    let a = addr(cpu, rs1, imm);
    let value = cpu.regs.read(rs2) as u32;
    Mmu::write32(cpu, a, value)?;
    Ok(ExecFlow::Next)
}

/// SD: stores `x[rs2]`. at `x[rs1] + imm`, through the MMU.
pub fn sd(cpu: &mut Cpu, rs1: Reg, rs2: Reg, imm: i64) -> (r: ExecResult)
    ensures
        access_frame(old(cpu), final(cpu)),
        r is Ok ==> r == Ok::<ExecFlow, Trap>(ExecFlow::Next),
        in_one_page(spec_addr(old(cpu), rs1, imm), 8) ==> mmu_write64(old(cpu), final(cpu), spec_addr(old(cpu), rs1, imm), old(cpu).regs.spec_read(rs2), store_result(r)),
        !in_one_page(spec_addr(old(cpu), rs1, imm), 8) ==> bytes_stored(old(cpu), final(cpu), spec_addr(old(cpu), rs1, imm), old(cpu).regs.spec_read(rs2), 8, store_result(r)),
{
    let a = addr(cpu, rs1, imm);
    let value = cpu.regs.read(rs2);
    Mmu::write64(cpu, a, value)?;
    Ok(ExecFlow::Next)
}

/// LUI: `x[rd] = imm` (the decoder has placed it in bits 31..12).
pub fn lui(cpu: &mut Cpu, rd: Reg, imm: i64) -> (r: ExecResult)
    ensures
        r == Ok::<ExecFlow, Trap>(ExecFlow::Next),
        wrote_reg(old(cpu), final(cpu), rd, imm as u64),
{
    cpu.regs.write(rd, imm as u64);
    Ok(ExecFlow::Next)
}

/// AUIPC: `x[rd] = pc + imm`.
pub fn auipc(cpu: &mut Cpu, rd: Reg, imm: i64) -> (r: ExecResult)
    ensures
        r == Ok::<ExecFlow, Trap>(ExecFlow::Next),
        wrote_reg(old(cpu), final(cpu), rd, old(cpu).pc.wrapping_add(imm as u64)),
{
    let value = cpu.pc.wrapping_add(imm as u64);
    cpu.regs.write(rd, value);
    Ok(ExecFlow::Next)
}

} // verus!
