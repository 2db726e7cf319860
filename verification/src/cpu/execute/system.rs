use vstd::prelude::*;

use crate::cpu::csr::{MSTATUS_MIE, MSTATUS_MPIE, MSTATUS_MPP_MASK, MSTATUS_MPP_SHIFT};
use crate::cpu::csr::Csr;
use crate::cpu::register::Reg;
use crate::cpu::{mstatus_trap_m, mstatus_trap_s, priv_code, Cpu, ExecFlow, ExecResult, PrivilegeMode};
use crate::trap::Trap;

verus! {

/// FENCE: memory is sequentially consistent here; nothing to do.
pub fn fence(cpu: &mut Cpu, pred: u8, succ: u8, fm: u8) -> (r: ExecResult)
    ensures
        r == Ok::<ExecFlow, Trap>(ExecFlow::Next),
        *final(cpu) == *old(cpu),
{
    Ok(ExecFlow::Next)
}

/// FENCE.I: there is no instruction cache to synchronise.
pub fn fence_i(cpu: &mut Cpu) -> (r: ExecResult)
    ensures
        r == Ok::<ExecFlow, Trap>(ExecFlow::Next),
        *final(cpu) == *old(cpu),
{
    Ok(ExecFlow::Next)
}

/// EBREAK: a breakpoint exception.
pub fn ebreak(cpu: &mut Cpu) -> (r: ExecResult)
    ensures
        r == Err::<ExecFlow, Trap>(Trap::Breakpoint),
        *final(cpu) == *old(cpu),
{
    Err(Trap::Breakpoint)
}

/// ECALL: an environment call from the current privilege level.
pub fn ecall(cpu: &mut Cpu) -> (r: ExecResult)
    ensures
        *final(cpu) == *old(cpu),
        r == Err::<ExecFlow, Trap>(
            match old(cpu).privilege_mode {
                PrivilegeMode::User => Trap::EcallFromUMode,
                PrivilegeMode::Supervisor => Trap::EcallFromSMode,
                PrivilegeMode::Machine => Trap::EcallFromMMode,
            },
        ),
{
    match cpu.privilege_mode {
        PrivilegeMode::User => Err(Trap::EcallFromUMode),
        PrivilegeMode::Supervisor => Err(Trap::EcallFromSMode),
        PrivilegeMode::Machine => Err(Trap::EcallFromMMode),
    }
}

/// mstatus after MRET: MIE gets MPIE, MPIE is set, MPP is cleared.
pub open spec fn mstatus_mret(ms: u64) -> u64 {
    let with_mie = if ms & MSTATUS_MPIE != 0 { ms | MSTATUS_MIE } else { ms & !MSTATUS_MIE };
    (with_mie | MSTATUS_MPIE) & !MSTATUS_MPP_MASK
}

/// mstatus after SRET: SIE gets SPIE, SPIE is set, SPP is cleared.
pub open spec fn mstatus_sret(ms: u64) -> u64 {
    let spie = (ms >> 5u64) & 1;
    (((ms & !(1u64 << 1u64)) | (spie << 1u64)) | (1u64 << 5u64)) & !(1u64 << 8u64)
}

/// MRET: returns to the privilege in mstatus.MPP (the reserved value 2 is
/// an illegal instruction) at mepc, updating mstatus (see `mstatus_mret`).
pub fn mret(cpu: &mut Cpu) -> (r: ExecResult)
    ensures
        ({
            let mpp = (old(cpu).csr.mstatus & MSTATUS_MPP_MASK) >> MSTATUS_MPP_SHIFT;
            if mpp == 2 {
                r == Err::<ExecFlow, Trap>(Trap::IllegalInstruction(0)) && *final(cpu) == *old(cpu)
            } else {
                &&& r == Ok::<ExecFlow, Trap>(ExecFlow::Jump(old(cpu).csr.mepc))
                &&& final(cpu).privilege_mode == if mpp == 0 {
                    PrivilegeMode::User
                } else if mpp == 1 {
                    PrivilegeMode::Supervisor
                } else {
                    PrivilegeMode::Machine
                }
                &&& *final(cpu) == (Cpu {
                    privilege_mode: final(cpu).privilege_mode,
                    csr: Csr { mstatus: mstatus_mret(old(cpu).csr.mstatus), ..old(cpu).csr },
                    ..*old(cpu)
                })
            }
        }),
{
    let ms = cpu.csr.mstatus;
    let mpp = (ms & MSTATUS_MPP_MASK) >> MSTATUS_MPP_SHIFT;
    assert((ms & 0x1800u64) >> 11u64 <= 3) by (bit_vector);
    let mode = if mpp == 0 {
        PrivilegeMode::User
    } else if mpp == 1 {
        PrivilegeMode::Supervisor
    } else if mpp == 3 {
        PrivilegeMode::Machine
    } else {
        return Err(Trap::IllegalInstruction(0));
    };
    cpu.privilege_mode = mode;
    if (cpu.csr.mstatus & MSTATUS_MPIE) != 0 {
        cpu.csr.mstatus = cpu.csr.mstatus | MSTATUS_MIE;
    } else {
        cpu.csr.mstatus = cpu.csr.mstatus & !MSTATUS_MIE;
    }
    cpu.csr.mstatus = cpu.csr.mstatus | MSTATUS_MPIE;
    cpu.csr.mstatus = cpu.csr.mstatus & !MSTATUS_MPP_MASK;
    Ok(ExecFlow::Jump(cpu.csr.mepc))
}

/// SRET: returns to the privilege in sstatus.SPP (U-mode when clear) at
/// sepc, updating the sstatus bits of mstatus (see `mstatus_sret`).
pub fn sret(cpu: &mut Cpu) -> (r: ExecResult)
    ensures
        r == Ok::<ExecFlow, Trap>(ExecFlow::Jump(old(cpu).csr.sepc)),
        final(cpu).privilege_mode == if (old(cpu).csr.mstatus >> 8u64) & 1 == 0 {
            PrivilegeMode::User
        } else {
            PrivilegeMode::Supervisor
        },
        *final(cpu) == (Cpu {
            privilege_mode: final(cpu).privilege_mode,
            csr: Csr { mstatus: mstatus_sret(old(cpu).csr.mstatus), ..old(cpu).csr },
            ..*old(cpu)
        }),
{
    let spp = (cpu.csr.mstatus >> 8) & 1;
    cpu.privilege_mode = if spp == 0 { PrivilegeMode::User } else { PrivilegeMode::Supervisor };
    let spie = (cpu.csr.mstatus >> 5) & 1;
    cpu.csr.mstatus = cpu.csr.mstatus & !(1u64 << 1);
    cpu.csr.mstatus = cpu.csr.mstatus | (spie << 1);
    cpu.csr.mstatus = cpu.csr.mstatus | (1u64 << 5);
    cpu.csr.mstatus = cpu.csr.mstatus & !(1u64 << 8);
    Ok(ExecFlow::Jump(cpu.csr.sepc))
}

/// SFENCE.VMA: no effect (translations are not flushed here).
pub fn sfence_vma(cpu: &mut Cpu, rs1: Reg, rs2: Reg) -> (r: ExecResult)
    ensures
        r == Ok::<ExecFlow, Trap>(ExecFlow::Next),
        *final(cpu) == *old(cpu),
{
    Ok(ExecFlow::Next)
}

/// WFI: executes as a no-op.
pub fn wfi(cpu: &mut Cpu) -> (r: ExecResult)
    ensures
        r == Ok::<ExecFlow, Trap>(ExecFlow::Next),
        *final(cpu) == *old(cpu),
{
    Ok(ExecFlow::Next)
}

/// The lowest privilege that may access CSR `csr`: bits 9..8 of its
/// number (0 user, 1 supervisor, 3 machine; 2, the hypervisor level,
/// does not occur here).
pub open spec fn spec_required_privilege(csr: u16) -> PrivilegeMode {
    let level = (csr >> 8u16) % 4;
    if level == 0 {
        PrivilegeMode::User
    } else if level == 1 {
        PrivilegeMode::Supervisor
    } else {
        PrivilegeMode::Machine
    }
}

pub fn required_privilege(csr: u16) -> (p: PrivilegeMode)
    requires
        (csr >> 8u16) % 4 != 2,
    ensures
        p == spec_required_privilege(csr),
{
    let level = (csr >> 8) % 4;
    if level == 0 {
        PrivilegeMode::User
    } else if level == 1 {
        PrivilegeMode::Supervisor
    } else {
        PrivilegeMode::Machine
    }
}

/// Whether privilege `current` may access CSR `csr`: M-mode reaches every
/// CSR, S-mode the supervisor and user ones, U-mode the user ones.
/// Hypervisor-level CSRs are out of reach below M-mode.
pub open spec fn spec_has_csr_access(current: PrivilegeMode, csr: u16) -> bool {
    match current {
        PrivilegeMode::Machine => true,
        PrivilegeMode::Supervisor => (csr >> 8u16) % 4 == 0 || (csr >> 8u16) % 4 == 1,
        PrivilegeMode::User => (csr >> 8u16) % 4 == 0,
    }
}

pub fn has_csr_access(current: PrivilegeMode, csr: u16) -> (b: bool)
    ensures
        b == spec_has_csr_access(current, csr),
{
    match current {
        PrivilegeMode::Machine => true,
        PrivilegeMode::Supervisor => {
            if (csr >> 8) % 4 == 2 {
                return false;
            }
            match required_privilege(csr) {
                PrivilegeMode::Supervisor | PrivilegeMode::User => true,
                PrivilegeMode::Machine => false,
            }
        },
        PrivilegeMode::User => {
            if (csr >> 8) % 4 == 2 {
                return false;
            }
            match required_privilege(csr) {
                PrivilegeMode::User => true,
                _ => false,
            }
        },
    }
}

/// The bits of mstatus a trap into M-mode sets up, and what MRET makes of
/// them, for a privilege code `c`.
proof fn lemma_m_trap_bits(ms: u64, c: u64)
    requires
        c <= 3,
    ensures
        ({
            let mie = (ms >> 3u64) & 1;
            let t = ((((ms & !(1u64 << 7u64)) | (mie << 7u64)) & !(1u64 << 3u64)) & !(3u64 << 11u64)) | (c << 11u64);
            &&& (t & 0x1800u64) >> 11u64 == c
            &&& t & 0x8u64 == 0
            &&& (((if t & 0x80u64 != 0 { t | 0x8u64 } else { t & !0x8u64 }) | 0x80u64) & !0x1800u64) & 0x8u64 == ms & 0x8u64
        }),
{
    assert(c <= 3 ==> ({
        let mie = (ms >> 3u64) & 1;
        let t = ((((ms & !(1u64 << 7u64)) | (mie << 7u64)) & !(1u64 << 3u64)) & !(3u64 << 11u64)) | (c << 11u64);
        &&& (t & 0x1800u64) >> 11u64 == c
        &&& t & 0x8u64 == 0
        &&& (((if t & 0x80u64 != 0 { t | 0x8u64 } else { t & !0x8u64 }) | 0x80u64) & !0x1800u64) & 0x8u64 == ms & 0x8u64
    })) by (bit_vector);
}

/// A trap into M-mode followed by MRET is a round trip: the trap records
/// the interrupted privilege in MPP (never the reserved value), so MRET
/// returns to that privilege, and MIE, cleared by the trap, is back to
/// what it was before it.
pub proof fn law_mret_undoes_m_trap(ms: u64, p: PrivilegeMode)
    ensures
        ({
            let trapped = mstatus_trap_m(ms, p);
            let mpp = (trapped & MSTATUS_MPP_MASK) >> MSTATUS_MPP_SHIFT;
            &&& trapped & MSTATUS_MIE == 0
            &&& mpp != 2
            &&& p == if mpp == 0 {
                PrivilegeMode::User
            } else if mpp == 1 {
                PrivilegeMode::Supervisor
            } else {
                PrivilegeMode::Machine
            }
            &&& mstatus_mret(trapped) & MSTATUS_MIE == ms & MSTATUS_MIE
        }),
{
    lemma_m_trap_bits(ms, priv_code(p));
}

/// The bits of mstatus a trap into S-mode sets up, and what SRET makes of
/// them.
proof fn lemma_s_trap_bits(ms: u64, s: bool)
    ensures
        ({
            let sie = (ms >> 1u64) & 1;
            let cleared = (((ms & !(1u64 << 5u64)) | (sie << 5u64)) & !(1u64 << 1u64)) & !(1u64 << 8u64);
            let t = if s { cleared | (1u64 << 8u64) } else { cleared };
            let back = (((t & !(1u64 << 1u64)) | (((t >> 5u64) & 1) << 1u64)) | (1u64 << 5u64)) & !(1u64 << 8u64);
            &&& (t >> 8u64) & 1 == (if s { 1u64 } else { 0u64 })
            &&& t & 0x2u64 == 0
            &&& back & 0x2u64 == ms & 0x2u64
        }),
{
    assert(({
        let sie = (ms >> 1u64) & 1;
        let cleared = (((ms & !(1u64 << 5u64)) | (sie << 5u64)) & !(1u64 << 1u64)) & !(1u64 << 8u64);
        let t = if s { cleared | (1u64 << 8u64) } else { cleared };
        let back = (((t & !(1u64 << 1u64)) | (((t >> 5u64) & 1) << 1u64)) | (1u64 << 5u64)) & !(1u64 << 8u64);
        &&& (t >> 8u64) & 1 == (if s { 1u64 } else { 0u64 })
        &&& t & 0x2u64 == 0
        &&& back & 0x2u64 == ms & 0x2u64
    })) by (bit_vector);
}

/// A trap into S-mode (from S- or U-mode) followed by SRET is a round
/// trip: SRET returns to the interrupted privilege and SIE, cleared by
/// the trap, is back to what it was.
pub proof fn law_sret_undoes_s_trap(ms: u64, p: PrivilegeMode)
    requires
        p != PrivilegeMode::Machine,
    ensures
        ({
            let trapped = mstatus_trap_s(ms, p);
            &&& trapped & 0x2 == 0
            &&& p == if (trapped >> 8u64) & 1 == 0 { PrivilegeMode::User } else { PrivilegeMode::Supervisor }
            &&& mstatus_sret(trapped) & 0x2 == ms & 0x2
        }),
{
    lemma_s_trap_bits(ms, p == PrivilegeMode::Supervisor);
}

} // verus!
