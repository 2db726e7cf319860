use vstd::prelude::*;

use crate::cpu::csr::{is_read_only, spec_illegal_csr, Csr};
use crate::cpu::execute::system::{has_csr_access, spec_has_csr_access};
use crate::cpu::register::Reg;
use crate::cpu::{Cpu, ExecFlow, ExecResult};
use crate::trap::Trap;

verus! {

/// The value register `r` reads in the register words `words`.
pub open spec fn read_in(words: Seq<u64>, r: Reg) -> u64 {
    if r.spec_idx() == 0 {
        0
    } else {
        words[r.spec_idx() as int]
    }
}

/// `new` is `old` with `x[rd]` written with `v`, `csr` written with `w`
/// (see `Csr::spec_written`) and the translation caches dropped.
pub open spec fn csr_swapped(old: &Cpu, new: &Cpu, rd: Reg, v: u64, csr: u16, w: u64) -> bool {
    &&& new.regs@ == old.regs.spec_written(rd, v)
    &&& Csr::spec_written(&old.csr, &new.csr, csr, w)
    &&& *new == Cpu {
        regs: new.regs,
        csr: new.csr,
        fetch_page_valid: false,
        data_read_valid: false,
        data_write_valid: false,
        ..*old
    }
}

/// CSRRW: `x[rd]` gets the CSR, the CSR gets `x[rs1]`. Without access from the current privilege, an illegal
/// instruction; a read-only CSR refuses the write (nothing changes).
pub fn csrrw(cpu: &mut Cpu, rd: Reg, rs1: Reg, csr: u16) -> (r: ExecResult)
    ensures
        !spec_has_csr_access(old(cpu).privilege_mode, csr) ==> r == Err::<ExecFlow, Trap>(Trap::IllegalInstruction(0))
            && *final(cpu) == *old(cpu),
        spec_has_csr_access(old(cpu).privilege_mode, csr) && is_read_only(csr) ==> r == Err::<ExecFlow, Trap>(
            spec_illegal_csr(csr),
        ) && *final(cpu) == *old(cpu),
        spec_has_csr_access(old(cpu).privilege_mode, csr) && !is_read_only(csr) ==> r == Ok::<ExecFlow, Trap>(
            ExecFlow::Next,
        ) && csr_swapped(old(cpu), final(cpu), rd, old(cpu).csr.spec_value(csr), csr, old(cpu).regs.spec_read(rs1)),
{
    if !has_csr_access(cpu.privilege_mode, csr) {
        return Err(Trap::IllegalInstruction(0));
    }
    let old = cpu.csr.read(csr)?;
    let value = cpu.regs.read(rs1);
    cpu.csr.write(csr, value)?;
    cpu.invalidate_caches();
    cpu.regs.write(rd, old);
    Ok(ExecFlow::Next)
}

/// CSRRWI: `x[rd]` gets the CSR, the CSR gets `uimm`. Without access from the current privilege, an illegal
/// instruction; a read-only CSR refuses the write (nothing changes).
pub fn csrrwi(cpu: &mut Cpu, rd: Reg, uimm: u8, csr: u16) -> (r: ExecResult)
    ensures
        !spec_has_csr_access(old(cpu).privilege_mode, csr) ==> r == Err::<ExecFlow, Trap>(Trap::IllegalInstruction(0))
            && *final(cpu) == *old(cpu),
        spec_has_csr_access(old(cpu).privilege_mode, csr) && is_read_only(csr) ==> r == Err::<ExecFlow, Trap>(
            spec_illegal_csr(csr),
        ) && *final(cpu) == *old(cpu),
        spec_has_csr_access(old(cpu).privilege_mode, csr) && !is_read_only(csr) ==> r == Ok::<ExecFlow, Trap>(
            ExecFlow::Next,
        ) && csr_swapped(old(cpu), final(cpu), rd, old(cpu).csr.spec_value(csr), csr, uimm as u64),
{
    if !has_csr_access(cpu.privilege_mode, csr) {
        return Err(Trap::IllegalInstruction(0));
    }
    let old = cpu.csr.read(csr)?;
    let value = uimm as u64;
    cpu.csr.write(csr, value)?;
    cpu.invalidate_caches();
    cpu.regs.write(rd, old);
    Ok(ExecFlow::Next)
}

/// CSRRS: `x[rd]` gets the CSR, then the CSR sets the bits of x[rs1] (read
/// after `rd` was written); with x[rs1] being x0 the CSR is not
/// written. Without access, an illegal instruction; a read-only CSR
/// refuses the write after `rd` was written.
pub fn csrrs(cpu: &mut Cpu, rd: Reg, rs1: Reg, csr: u16) -> (r: ExecResult)
    ensures
        !spec_has_csr_access(old(cpu).privilege_mode, csr) ==> r == Err::<ExecFlow, Trap>(Trap::IllegalInstruction(0))
            && *final(cpu) == *old(cpu),
        spec_has_csr_access(old(cpu).privilege_mode, csr) ==> ({
            let v = old(cpu).csr.spec_value(csr);
            if rs1.spec_idx() == 0 {
                &&& r == Ok::<ExecFlow, Trap>(ExecFlow::Next)
                &&& final(cpu).regs@ == old(cpu).regs.spec_written(rd, v)
                &&& *final(cpu) == (Cpu { regs: final(cpu).regs, ..*old(cpu) })
            } else if is_read_only(csr) {
                &&& r == Err::<ExecFlow, Trap>(spec_illegal_csr(csr))
                &&& final(cpu).regs@ == old(cpu).regs.spec_written(rd, v)
                &&& *final(cpu) == (Cpu { regs: final(cpu).regs, ..*old(cpu) })
            } else {
                &&& r == Ok::<ExecFlow, Trap>(ExecFlow::Next)
                &&& csr_swapped(old(cpu), final(cpu), rd, v, csr, old(cpu).csr.spec_value(csr) | read_in(old(cpu).regs.spec_written(rd, old(cpu).csr.spec_value(csr)), rs1))
            }
        }),
{
    if !has_csr_access(cpu.privilege_mode, csr) {
        return Err(Trap::IllegalInstruction(0));
    }
    let old = cpu.csr.read(csr)?;
    cpu.regs.write(rd, old);
    if !(rs1.is_zero()) {
        let v = cpu.regs.read(rs1);
        cpu.csr.write(csr, old | v)?;
        cpu.invalidate_caches();
    }
    Ok(ExecFlow::Next)
}

/// CSRRC: `x[rd]` gets the CSR, then the CSR clears the bits of x[rs1] (read
/// after `rd` was written); with x[rs1] being x0 the CSR is not
/// written. Without access, an illegal instruction; a read-only CSR
/// refuses the write after `rd` was written.
pub fn csrrc(cpu: &mut Cpu, rd: Reg, rs1: Reg, csr: u16) -> (r: ExecResult)
    ensures
        !spec_has_csr_access(old(cpu).privilege_mode, csr) ==> r == Err::<ExecFlow, Trap>(Trap::IllegalInstruction(0))
            && *final(cpu) == *old(cpu),
        spec_has_csr_access(old(cpu).privilege_mode, csr) ==> ({
            let v = old(cpu).csr.spec_value(csr);
            if rs1.spec_idx() == 0 {
                &&& r == Ok::<ExecFlow, Trap>(ExecFlow::Next)
                &&& final(cpu).regs@ == old(cpu).regs.spec_written(rd, v)
                &&& *final(cpu) == (Cpu { regs: final(cpu).regs, ..*old(cpu) })
            } else if is_read_only(csr) {
                &&& r == Err::<ExecFlow, Trap>(spec_illegal_csr(csr))
                &&& final(cpu).regs@ == old(cpu).regs.spec_written(rd, v)
                &&& *final(cpu) == (Cpu { regs: final(cpu).regs, ..*old(cpu) })
            } else {
                &&& r == Ok::<ExecFlow, Trap>(ExecFlow::Next)
                &&& csr_swapped(old(cpu), final(cpu), rd, v, csr, old(cpu).csr.spec_value(csr) & !(read_in(old(cpu).regs.spec_written(rd, old(cpu).csr.spec_value(csr)), rs1)))
            }
        }),
{
    if !has_csr_access(cpu.privilege_mode, csr) {
        return Err(Trap::IllegalInstruction(0));
    }
    let old = cpu.csr.read(csr)?;
    cpu.regs.write(rd, old);
    if !(rs1.is_zero()) {
        let v = cpu.regs.read(rs1);
        cpu.csr.write(csr, old & !v)?;
        cpu.invalidate_caches();
    }
    Ok(ExecFlow::Next)
}

/// CSRRSI: `x[rd]` gets the CSR, then the CSR sets the bits of uimm (read
/// after `rd` was written); with uimm being 0 the CSR is not
/// written. Without access, an illegal instruction; a read-only CSR
/// refuses the write after `rd` was written.
pub fn csrrsi(cpu: &mut Cpu, rd: Reg, uimm: u8, csr: u16) -> (r: ExecResult)
    ensures
        !spec_has_csr_access(old(cpu).privilege_mode, csr) ==> r == Err::<ExecFlow, Trap>(Trap::IllegalInstruction(0))
            && *final(cpu) == *old(cpu),
        spec_has_csr_access(old(cpu).privilege_mode, csr) ==> ({
            let v = old(cpu).csr.spec_value(csr);
            if uimm == 0 {
                &&& r == Ok::<ExecFlow, Trap>(ExecFlow::Next)
                &&& final(cpu).regs@ == old(cpu).regs.spec_written(rd, v)
                &&& *final(cpu) == (Cpu { regs: final(cpu).regs, ..*old(cpu) })
            } else if is_read_only(csr) {
                &&& r == Err::<ExecFlow, Trap>(spec_illegal_csr(csr))
                &&& final(cpu).regs@ == old(cpu).regs.spec_written(rd, v)
                &&& *final(cpu) == (Cpu { regs: final(cpu).regs, ..*old(cpu) })
            } else {
                &&& r == Ok::<ExecFlow, Trap>(ExecFlow::Next)
                &&& csr_swapped(old(cpu), final(cpu), rd, v, csr, old(cpu).csr.spec_value(csr) | uimm as u64)
            }
        }),
{
    if !has_csr_access(cpu.privilege_mode, csr) {
        return Err(Trap::IllegalInstruction(0));
    }
    let old = cpu.csr.read(csr)?;
    cpu.regs.write(rd, old);
    if !(uimm == 0) {
        let v = uimm as u64;
        cpu.csr.write(csr, old | v)?;
        cpu.invalidate_caches();
    }
    Ok(ExecFlow::Next)
}

/// CSRRCI: `x[rd]` gets the CSR, then the CSR clears the bits of uimm (read
/// after `rd` was written); with uimm being 0 the CSR is not
/// written. Without access, an illegal instruction; a read-only CSR
/// refuses the write after `rd` was written.
pub fn csrrci(cpu: &mut Cpu, rd: Reg, uimm: u8, csr: u16) -> (r: ExecResult)
    ensures
        !spec_has_csr_access(old(cpu).privilege_mode, csr) ==> r == Err::<ExecFlow, Trap>(Trap::IllegalInstruction(0))
            && *final(cpu) == *old(cpu),
        spec_has_csr_access(old(cpu).privilege_mode, csr) ==> ({
            let v = old(cpu).csr.spec_value(csr);
            if uimm == 0 {
                &&& r == Ok::<ExecFlow, Trap>(ExecFlow::Next)
                &&& final(cpu).regs@ == old(cpu).regs.spec_written(rd, v)
                &&& *final(cpu) == (Cpu { regs: final(cpu).regs, ..*old(cpu) })
            } else if is_read_only(csr) {
                &&& r == Err::<ExecFlow, Trap>(spec_illegal_csr(csr))
                &&& final(cpu).regs@ == old(cpu).regs.spec_written(rd, v)
                &&& *final(cpu) == (Cpu { regs: final(cpu).regs, ..*old(cpu) })
            } else {
                &&& r == Ok::<ExecFlow, Trap>(ExecFlow::Next)
                &&& csr_swapped(old(cpu), final(cpu), rd, v, csr, old(cpu).csr.spec_value(csr) & !(uimm as u64))
            }
        }),
{
    if !has_csr_access(cpu.privilege_mode, csr) {
        return Err(Trap::IllegalInstruction(0));
    }
    let old = cpu.csr.read(csr)?;
    cpu.regs.write(rd, old);
    if !(uimm == 0) {
        let v = uimm as u64;
        cpu.csr.write(csr, old & !v)?;
        cpu.invalidate_caches();
    }
    Ok(ExecFlow::Next)
}

} // verus!
