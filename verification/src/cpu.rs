pub mod bus;
pub mod csr;
pub mod decoder_cache;
pub mod execute;
pub mod f_register;
pub mod host;
pub mod memory;
pub mod register;

use vstd::prelude::*;

use crate::cpu::bus::Bus;
use crate::cpu::csr::{Csr, CSR_STIMECMP};
use crate::cpu::decoder_cache::DecodeEntry;
use crate::cpu::execute::execute;
use crate::cpu::f_register::FRegister;
use crate::cpu::register::Register;
use crate::cpu::execute::semantics::executes;
use crate::decode::{decode, spec_decode};
use crate::devices::clint::Clint;
use crate::instruction::DecodedInstruction;
use crate::mmu::access_type::AccessType;
use crate::mmu::tlb::{empty_entry, Tlb};
use crate::mmu::walker::{translated, untranslated, walk_frame};
use crate::mmu::{fetched16, Mmu};
use crate::trap::Trap;

verus! {

/// What the hart does after an instruction: go on with the next one,
/// continue at an address, or wait for the host to carry out a
/// floating-point operation (see `Cpu::host_request`).
#[derive(Debug, Clone, Copy, PartialEq, Eq, Structural)]
pub enum ExecFlow {
    Next,
    Jump(u64),
    Host,
}

/// The outcome of executing one instruction.
pub type ExecResult = Result<ExecFlow, Trap>;

/// The privilege levels of the hart.
#[derive(Debug, Clone, Copy, PartialEq, Eq, Structural)]
pub enum PrivilegeMode {
    Machine,
    Supervisor,
    User,
}

/// The encoding of a privilege level in mstatus.MPP.
pub open spec fn priv_code(p: PrivilegeMode) -> u64 {
    match p {
        PrivilegeMode::User => 0,
        PrivilegeMode::Supervisor => 1,
        PrivilegeMode::Machine => 3,
    }
}

/// Slots of the decoded-instruction cache.
pub const DECODE_CACHE_SIZE: usize = 16384;

/// A RISC-V hart with its bus.
pub struct Cpu {
    pub regs: Register,
    pub f_regs: FRegister,
    pub pc: u64,
    pub bus: Bus,
    pub current_instruction_length: u8,
    pub privilege_mode: PrivilegeMode,
    pub csr: Csr,
    pub tlb: Tlb,
    pub decode_cache: Vec<DecodeEntry>,
    /// The address reserved by LR, if any.
    pub reservation: Option<u64>,
    /// Whether the hart sleeps in WFI.
    pub wfi: bool,
    pub clock: u64,
    /// The page of the last instruction fetch and its translation.
    pub fetch_page_vpn: u64,
    pub fetch_page_pa: u64,
    pub fetch_page_pc: u64,
    pub fetch_page_valid: bool,
    /// The page of the last load and its translation.
    pub data_read_vpn: u64,
    pub data_read_pa: u64,
    pub data_read_va: u64,
    pub data_read_valid: bool,
    /// The page of the last store and its translation.
    pub data_write_vpn: u64,
    pub data_write_pa: u64,
    pub data_write_va: u64,
    pub data_write_valid: bool,
    /// A floating-point instruction at `pc` that the host has to compute.
    pub host_request: Option<DecodedInstruction>,
}

/// mstatus after taking a trap into M-mode from privilege `p`: MPIE gets
/// MIE, MIE is cleared, MPP gets `p`.
pub open spec fn mstatus_trap_m(ms: u64, p: PrivilegeMode) -> u64 {
    let mie = (ms >> 3u64) & 1;
    ((((ms & !(1u64 << 7u64)) | (mie << 7u64)) & !(1u64 << 3u64)) & !(3u64 << 11u64)) | (priv_code(p) << 11u64)
}

/// mstatus after taking a trap into S-mode from privilege `p`: SPIE gets
/// SIE, SIE is cleared, SPP is set when `p` is S-mode.
pub open spec fn mstatus_trap_s(ms: u64, p: PrivilegeMode) -> u64 {
    let sie = (ms >> 1u64) & 1;
    let cleared = (((ms & !(1u64 << 5u64)) | (sie << 5u64)) & !(1u64 << 1u64)) & !(1u64 << 8u64);
    if p == PrivilegeMode::Supervisor {
        cleared | (1u64 << 8u64)
    } else {
        cleared
    }
}

/// The pc a trap vector sends cause `cause` to: the base in direct mode,
/// base + 4 * cause for interrupts in vectored mode.
pub open spec fn trap_target(tvec: u64, cause: u64, interrupt: bool) -> u64 {
    let base = tvec & !3u64;
    if tvec & 3 == 1 && interrupt {
        base.wrapping_add(cause << 2u64)
    } else {
        base
    }
}

/// The exception code of `t`.
pub open spec fn spec_exception_cause(t: Trap) -> u64 {
    match t {
        Trap::InstructionAddressMisaligned(_) => 0,
        Trap::InstructionAccessFault(_) => 1,
        Trap::IllegalInstruction(_) => 2,
        Trap::Breakpoint => 3,
        Trap::LoadAddressMisaligned(_) => 4,
        Trap::LoadAccessFault(_) => 5,
        Trap::StoreAddressMisaligned(_) => 6,
        Trap::StoreAccessFault(_) => 7,
        Trap::EcallFromUMode => 8,
        Trap::EcallFromSMode => 9,
        Trap::EcallFromMMode => 11,
        Trap::InstructionPageFault(_) => 12,
        Trap::LoadPageFault(_) => 13,
        Trap::StorePageFault(_) => 15,
    }
}

/// The trap value of `t`: the faulting address or instruction, else 0.
pub open spec fn trap_value(t: Trap) -> u64 {
    match t {
        Trap::InstructionAddressMisaligned(a) => a,
        Trap::InstructionAccessFault(a) => a,
        Trap::IllegalInstruction(i) => i as u64,
        Trap::LoadAddressMisaligned(a) => a,
        Trap::LoadAccessFault(a) => a,
        Trap::StoreAddressMisaligned(a) => a,
        Trap::StoreAccessFault(a) => a,
        Trap::InstructionPageFault(a) => a,
        Trap::LoadPageFault(a) => a,
        Trap::StorePageFault(a) => a,
        _ => 0,
    }
}

fn mstatus_for_m_trap(ms: u64, p: PrivilegeMode) -> (r: u64)
    ensures
        r == mstatus_trap_m(ms, p),
{
    let mie = (ms >> 3) & 1;
    let code: u64 = match p {
        PrivilegeMode::User => 0,
        PrivilegeMode::Supervisor => 1,
        PrivilegeMode::Machine => 3,
    };
    ((((ms & !(1u64 << 7)) | (mie << 7)) & !(1u64 << 3)) & !(3u64 << 11)) | (code << 11)
}

fn mstatus_for_s_trap(ms: u64, p: PrivilegeMode) -> (r: u64)
    ensures
        r == mstatus_trap_s(ms, p),
{
    let sie = (ms >> 1) & 1;
    let cleared = (((ms & !(1u64 << 5)) | (sie << 5)) & !(1u64 << 1)) & !(1u64 << 8);
    if p == PrivilegeMode::Supervisor {
        cleared | (1u64 << 8)
    } else {
        cleared
    }
}

fn vector_target(tvec: u64, cause: u64, interrupt: bool) -> (pc: u64)
    ensures
        pc == trap_target(tvec, cause, interrupt),
{
    let base = tvec & !3u64;
    if tvec & 3 == 1 && interrupt {
        base.wrapping_add(cause << 2)
    } else {
        base
    }
}

/// An exception code has no interrupt bit.
proof fn lemma_exception_code_bits(c: u64)
    requires
        c < 16,
    ensures
        c >> 63u64 == 0,
        c & !(1u64 << 63u64) == c,
{
    assert(c < 16 ==> c >> 63u64 == 0 && c & !(1u64 << 63u64) == c) by (bit_vector);
}

/// The hart `after` is `before` once it has taken interrupt `cause` (see
/// `Cpu::handle_interrupt`).
pub open spec fn interrupt_taken(before: Cpu, cause: u64, after: Cpu) -> bool {
    &&& after == (Cpu {
        csr: after.csr,
        privilege_mode: after.privilege_mode,
        pc: after.pc,
        fetch_page_valid: false,
        data_read_valid: false,
        data_write_valid: false,
        ..before
    })
    &&& ({
        let delegated = before.privilege_mode != PrivilegeMode::Machine && (before.csr.mideleg >> cause) & 1 != 0;
        let icause = (1u64 << 63u64) | cause;
        if delegated {
            &&& after.csr == (Csr {
                sepc: before.pc,
                scause: icause,
                stval: 0,
                mstatus: mstatus_trap_s(before.csr.mstatus, before.privilege_mode),
                ..before.csr
            })
            &&& after.privilege_mode == PrivilegeMode::Supervisor
            &&& after.pc == trap_target(before.csr.stvec, cause, true)
        } else {
            &&& after.csr == (Csr {
                mepc: before.pc,
                mcause: icause,
                mstatus: mstatus_trap_m(before.csr.mstatus, before.privilege_mode),
                ..before.csr
            })
            &&& after.privilege_mode == PrivilegeMode::Machine
            &&& after.pc == trap_target(before.csr.mtvec, cause, true)
        }
    })
}

/// The hart `after` is `before` once it has taken exception `trap` (see
/// `Cpu::handle_trap`).
pub open spec fn trap_taken(before: Cpu, trap: Trap, after: Cpu) -> bool {
    &&& after == (Cpu {
        csr: after.csr,
        privilege_mode: after.privilege_mode,
        pc: after.pc,
        fetch_page_valid: false,
        data_read_valid: false,
        data_write_valid: false,
        ..before
    })
    &&& ({
        let cause = spec_exception_cause(trap);
        let delegated = before.privilege_mode != PrivilegeMode::Machine && (before.csr.medeleg >> cause) & 1 != 0;
        if delegated {
            &&& after.csr == (Csr {
                sepc: before.pc,
                scause: cause,
                stval: trap_value(trap),
                mstatus: mstatus_trap_s(before.csr.mstatus, before.privilege_mode),
                ..before.csr
            })
            &&& after.privilege_mode == PrivilegeMode::Supervisor
            &&& after.pc == before.csr.stvec & !3u64
        } else {
            &&& after.csr == (Csr {
                mepc: before.pc,
                mcause: cause,
                mtval: trap_value(trap),
                mstatus: mstatus_trap_m(before.csr.mstatus, before.privilege_mode),
                ..before.csr
            })
            &&& after.privilege_mode == PrivilegeMode::Machine
            &&& after.pc == before.csr.mtvec & !3u64
        }
    })
}

impl Cpu {
    /// The data structures have their sizes.
    pub open spec fn wf(&self) -> bool {
        self.decode_cache@.len() == DECODE_CACHE_SIZE
    }

    /// `new` is `old` with its translation caches dropped.
    pub open spec fn caches_dropped(new: &Cpu) -> bool {
        !new.fetch_page_valid && !new.data_read_valid && !new.data_write_valid
    }

    /// The exception code of `trap`.
    pub fn exception_cause(trap: &Trap) -> (c: u64)
        ensures
            c == spec_exception_cause(*trap),
    {
        match trap {
            Trap::InstructionAddressMisaligned(_) => 0,
            Trap::InstructionAccessFault(_) => 1,
            Trap::IllegalInstruction(_) => 2,
            Trap::Breakpoint => 3,
            Trap::LoadAddressMisaligned(_) => 4,
            Trap::LoadAccessFault(_) => 5,
            Trap::StoreAddressMisaligned(_) => 6,
            Trap::StoreAccessFault(_) => 7,
            Trap::EcallFromUMode => 8,
            Trap::EcallFromSMode => 9,
            Trap::EcallFromMMode => 11,
            Trap::InstructionPageFault(_) => 12,
            Trap::LoadPageFault(_) => 13,
            Trap::StorePageFault(_) => 15,
        }
    }

    fn trap_value_of(trap: &Trap) -> (v: u64)
        ensures
            v == trap_value(*trap),
    {
        match trap {
            Trap::InstructionAddressMisaligned(a) => *a,
            Trap::InstructionAccessFault(a) => *a,
            Trap::IllegalInstruction(i) => *i as u64,
            Trap::LoadAddressMisaligned(a) => *a,
            Trap::LoadAccessFault(a) => *a,
            Trap::StoreAddressMisaligned(a) => *a,
            Trap::StoreAccessFault(a) => *a,
            Trap::InstructionPageFault(a) => *a,
            Trap::LoadPageFault(a) => *a,
            Trap::StorePageFault(a) => *a,
            _ => 0,
        }
    }

    /// The interrupt to take now, if any: pending and enabled in mie,
    /// globally enabled for the level it goes to (M-mode interrupts always
    /// below M-mode, in M-mode when mstatus.MIE; delegated ones in U-mode,
    /// and in S-mode when mstatus.SIE); M-mode ones first, each level in
    /// the order external, software, timer.
    pub open spec fn spec_pending_interrupt(&self) -> Option<u64> {
        let pending = self.csr.mip & self.csr.mie;
        let m_enabled = self.privilege_mode != PrivilegeMode::Machine || (self.csr.mstatus >> 3u64) & 1 != 0;
        let s_enabled = self.privilege_mode == PrivilegeMode::User || (self.privilege_mode
            == PrivilegeMode::Supervisor && (self.csr.mstatus >> 1u64) & 1 != 0);
        let m_pending = pending & !self.csr.mideleg;
        let s_pending = pending & self.csr.mideleg;
        if pending == 0 {
            None
        } else if m_enabled && m_pending & (1u64 << 11u64) != 0 {
            Some(11)
        } else if m_enabled && m_pending & (1u64 << 3u64) != 0 {
            Some(3)
        } else if m_enabled && m_pending & (1u64 << 7u64) != 0 {
            Some(7)
        } else if s_enabled && s_pending & (1u64 << 9u64) != 0 {
            Some(9)
        } else if s_enabled && s_pending & (1u64 << 1u64) != 0 {
            Some(1)
        } else if s_enabled && s_pending & (1u64 << 5u64) != 0 {
            Some(5)
        } else {
            None
        }
    }

    pub fn pending_interrupt(&self) -> (r: Option<u64>)
        ensures
            r == self.spec_pending_interrupt(),
    {
        let pending = self.csr.mip & self.csr.mie;
        if pending == 0 {
            return None;
        }
        let m_enabled = self.privilege_mode != PrivilegeMode::Machine || ((self.csr.mstatus >> 3) & 1) != 0;
        let s_enabled = self.privilege_mode == PrivilegeMode::User || (self.privilege_mode
            == PrivilegeMode::Supervisor && ((self.csr.mstatus >> 1) & 1) != 0);
        let m_pending = pending & !self.csr.mideleg;
        if m_enabled && (m_pending & (1u64 << 11)) != 0 {
            return Some(11);
        }
        if m_enabled && (m_pending & (1u64 << 3)) != 0 {
            return Some(3);
        }
        if m_enabled && (m_pending & (1u64 << 7)) != 0 {
            return Some(7);
        }
        let s_pending = pending & self.csr.mideleg;
        if s_enabled && (s_pending & (1u64 << 9)) != 0 {
            return Some(9);
        }
        if s_enabled && (s_pending & (1u64 << 1)) != 0 {
            return Some(1);
        }
        if s_enabled && (s_pending & (1u64 << 5)) != 0 {
            return Some(5);
        }
        None
    }

    /// Takes interrupt `cause`: to S-mode when it is delegated and the hart
    /// is below M-mode (sepc, scause with the interrupt bit, stval 0,
    /// mstatus per `mstatus_trap_s`, pc from stvec), else to M-mode (mepc,
    /// mcause, mstatus per `mstatus_trap_m`, pc from mtvec). The
    /// translation caches are dropped.
    pub fn handle_interrupt(&mut self, cause: u64) -> (r: Result<(), Trap>)
        requires
            cause < 64,
        ensures
            r is Ok,
            interrupt_taken(*old(self), cause, *final(self)),
    {
        self.fetch_page_valid = false;
        self.data_read_valid = false;
        self.data_write_valid = false;
        let delegated = self.privilege_mode != PrivilegeMode::Machine && self.csr.is_interrupt_delegated(cause);
        if delegated {
            return self.handle_supervisor_interrupt(cause);
        }
        self.csr.mepc = self.pc;
        self.csr.mcause = (1u64 << 63) | cause;
        self.csr.mstatus = mstatus_for_m_trap(self.csr.mstatus, self.privilege_mode);
        self.privilege_mode = PrivilegeMode::Machine;
        self.pc = vector_target(self.csr.mtvec, cause, true);
        Ok(())
    }

    /// Takes exception `trap`: to S-mode when its code is delegated in
    /// medeleg and the hart is below M-mode (sepc, scause, stval, mstatus
    /// per `mstatus_trap_s`, pc from stvec), else to M-mode (mepc, mcause,
    /// mtval, mstatus per `mstatus_trap_m`, pc from mtvec). Exceptions
    /// always go to the vector base. The translation caches are dropped.
    pub fn handle_trap(&mut self, trap: Trap) -> (r: Result<(), Trap>)
        ensures
            r is Ok,
            trap_taken(*old(self), trap, *final(self)),
    {
        self.fetch_page_valid = false;
        self.data_read_valid = false;
        self.data_write_valid = false;
        let cause = Self::exception_cause(&trap);
        let tval = Self::trap_value_of(&trap);
        let delegated = self.privilege_mode != PrivilegeMode::Machine && self.csr.is_exception_delegated(cause);
        if delegated {
            return self.handle_supervisor_trap(trap);
        }
        self.csr.mepc = self.pc;
        self.csr.mtval = tval;
        self.csr.mcause = cause;
        self.csr.mstatus = mstatus_for_m_trap(self.csr.mstatus, self.privilege_mode);
        self.privilege_mode = PrivilegeMode::Machine;
        let interrupt = (self.csr.mcause >> 63) != 0;
        proof {
            lemma_exception_code_bits(cause);
        }
        self.pc = vector_target(self.csr.mtvec, self.csr.mcause & !(1u64 << 63), interrupt);
        Ok(())
    }

    /// Takes interrupt `cause` into S-mode: sepc, scause (with the
    /// interrupt bit) and stval 0 record it, mstatus changes per
    /// `mstatus_trap_s`, and the pc goes to stvec (plus 4 * cause when
    /// vectored).
    fn handle_supervisor_interrupt(&mut self, cause: u64) -> (r: Result<(), Trap>)
        ensures
            r is Ok,
            *final(self) == (Cpu {
                csr: Csr {
                    sepc: old(self).pc,
                    scause: (1u64 << 63u64) | cause,
                    stval: 0,
                    mstatus: mstatus_trap_s(old(self).csr.mstatus, old(self).privilege_mode),
                    ..old(self).csr
                },
                privilege_mode: PrivilegeMode::Supervisor,
                pc: trap_target(old(self).csr.stvec, cause, true),
                ..*old(self)
            }),
    {
        self.csr.sepc = self.pc;
        self.csr.scause = (1u64 << 63) | cause;
        self.csr.stval = 0;
        self.csr.mstatus = mstatus_for_s_trap(self.csr.mstatus, self.privilege_mode);
        self.privilege_mode = PrivilegeMode::Supervisor;
        self.pc = vector_target(self.csr.stvec, cause, true);
        Ok(())
    }

    /// Takes exception `trap` into S-mode: sepc, scause and stval record
    /// it, mstatus changes per `mstatus_trap_s`, and the pc goes to the
    /// stvec base.
    fn handle_supervisor_trap(&mut self, trap: Trap) -> (r: Result<(), Trap>)
        ensures
            r is Ok,
            *final(self) == (Cpu {
                csr: Csr {
                    sepc: old(self).pc,
                    scause: spec_exception_cause(trap),
                    stval: trap_value(trap),
                    mstatus: mstatus_trap_s(old(self).csr.mstatus, old(self).privilege_mode),
                    ..old(self).csr
                },
                privilege_mode: PrivilegeMode::Supervisor,
                pc: old(self).csr.stvec & !3u64,
                ..*old(self)
            }),
    {
        let cause = Self::exception_cause(&trap);
        self.csr.sepc = self.pc;
        self.csr.stval = Self::trap_value_of(&trap);
        self.csr.scause = cause;
        self.csr.mstatus = mstatus_for_s_trap(self.csr.mstatus, self.privilege_mode);
        self.privilege_mode = PrivilegeMode::Supervisor;
        let interrupt = (self.csr.scause >> 63) != 0;
        proof {
            lemma_exception_code_bits(cause);
        }
        self.pc = vector_target(self.csr.stvec, self.csr.scause & !(1u64 << 63), interrupt);
        Ok(())
    }

    /// Drops the translation caches (after a change that may alter
    /// translation).
    pub fn invalidate_caches(&mut self)
        ensures
            *final(self) == (Cpu {
                fetch_page_valid: false,
                data_read_valid: false,
                data_write_valid: false,
                ..*old(self)
            }),
    {
        self.fetch_page_valid = false;
        self.data_read_valid = false;
        self.data_write_valid = false;
    }

    /// Reserves `addr` for a later SC.
    pub fn reserve_address(&mut self, addr: u64)
        ensures
            *final(self) == (Cpu { reservation: Some(addr), ..*old(self) }),
    {
        self.reservation = Some(addr);
    }

    /// Drops the reservation.
    pub fn clear_reservation(&mut self)
        ensures
            *final(self) == (Cpu { reservation: None, ..*old(self) }),
    {
        self.reservation = None;
    }

    /// Whether `addr` is the reserved address.
    pub fn reservation_matches(&self, addr: u64) -> (b: bool)
        ensures
            b == (self.reservation == Some(addr)),
    {
        match self.reservation {
            Some(a) => a == addr,
            None => false,
        }
    }
}

/// `x` with bit `bit` set when `on`, cleared otherwise.
pub open spec fn with_bit(x: u64, bit: u64, on: bool) -> u64 {
    if on {
        x | (1u64 << bit)
    } else {
        x & !(1u64 << bit)
    }
}

/// The physical address of the instruction at `pc`, where it is known
/// without a table walk: from the fetch cache when it covers the page, or
/// `pc` itself when fetches are untranslated.
pub open spec fn known_fetch_pa(cpu: &Cpu) -> Option<u64> {
    if cpu.fetch_page_valid && cpu.fetch_page_vpn == cpu.pc >> 12u64 {
        Some(cpu.fetch_page_pa.wrapping_add(cpu.pc.wrapping_sub(cpu.fetch_page_pc)))
    } else if untranslated(cpu, AccessType::Instruction) {
        Some(cpu.pc)
    } else {
        None
    }
}

/// The instruction bits a fetched word stands for: its low half when that
/// is a compressed instruction, else the whole word.
pub open spec fn fetched_bits(w: u32) -> u32 {
    if w & 3 != 3 { w & 0xFFFF } else { w }
}

/// The decode-cache slot of `pc`.
pub open spec fn cache_slot(pc: u64) -> int {
    ((pc >> 2u64) % 16384) as int
}

/// An aligned fetch from `before` to `after`: pc's physical address is
/// found (see `fetch_page_found`); a fault there is the outcome, else
/// the instruction bits are read there (see `fetch_read`).
#[verifier::opaque]
pub open spec fn fetch_found(before: Cpu, after: Cpu, r: Result<u32, Trap>) -> bool {
    exists|mid: Cpu, t: Result<u64, Trap>|
        #![trigger fetch_page_found(before, mid, t)]
        fetch_page_found(before, mid, t) && match t {
            Err(e) => r == Err::<u32, Trap>(e) && after == mid,
            Ok(pa) => fetch_read(mid, pa, after, r),
        }
}

/// The physical address of pc as `fetch` finds it, from `before` to
/// `mid`: from the fetch-page cache when it covers pc's page; otherwise
/// pc is translated (see `translated`) and, on success, the cache is
/// filled with its page.
pub open spec fn fetch_page_found(before: Cpu, mid: Cpu, t: Result<u64, Trap>) -> bool {
    if before.fetch_page_valid && before.fetch_page_vpn == before.pc >> 12u64 {
        mid == before && t == Ok::<u64, Trap>(
            before.fetch_page_pa.wrapping_add(before.pc.wrapping_sub(before.fetch_page_pc)),
        )
    } else {
        exists|w: Cpu|
            #![trigger translated(&before, &w, before.pc, AccessType::Instruction, t)]
            translated(&before, &w, before.pc, AccessType::Instruction, t) && match t {
                Err(_) => mid == w,
                Ok(pa) => mid == (Cpu {
                    fetch_page_pa: pa,
                    fetch_page_pc: before.pc,
                    fetch_page_vpn: before.pc >> 12u64,
                    fetch_page_valid: true,
                    ..w
                }),
            }
    }
}

/// The instruction bits read at pc (physical address `pa`) from `mid` to
/// `after`: a word that does not cross the page is read at `pa` at once;
/// else the halfword at pc is fetched, and the one after it too unless
/// the first is a compressed instruction.
pub open spec fn fetch_read(mid: Cpu, pa: u64, after: Cpu, r: Result<u32, Trap>) -> bool {
    if mid.pc % 4096 <= 0xFFC {
        after == (Cpu { bus: after.bus, ..mid }) && exists|res: Result<u32, Trap>|
            #![trigger Bus::read32_post(&mid.bus, &after.bus, pa, res)]
            Bus::read32_post(&mid.bus, &after.bus, pa, res) && r == match res {
                Ok(w) => Ok::<u32, Trap>(fetched_bits(w)),
                Err(e) => Err(e),
            }
    } else {
        exists|m2: Cpu, h: Result<u16, Trap>|
            #![trigger fetched16(&mid, &m2, mid.pc, h)]
            fetched16(&mid, &m2, mid.pc, h) && match h {
                Err(e) => r == Err::<u32, Trap>(e) && after == m2,
                Ok(f) => if f & 3 != 3 {
                    r == Ok::<u32, Trap>(f as u32) && after == m2
                } else {
                    exists|h2: Result<u16, Trap>|
                        #![trigger fetched16(&m2, &after, mid.pc.wrapping_add(2), h2)]
                        fetched16(&m2, &after, mid.pc.wrapping_add(2), h2) && r == match h2 {
                            Err(e) => Err::<u32, Trap>(e),
                            Ok(sec) => Ok((f as u32) | ((sec as u32) << 16u32)),
                        }
                },
            }
    }
}

/// What fetching the instruction at pc from `before` may end with: the
/// word `r` and the hart `after` (see `Cpu::fetch`).
pub open spec fn fetch_post(before: Cpu, after: Cpu, r: Result<u32, Trap>) -> bool {
    &&& (after == (Cpu {
        bus: after.bus,
        tlb: after.tlb,
        fetch_page_vpn: after.fetch_page_vpn,
        fetch_page_pa: after.fetch_page_pa,
        fetch_page_pc: after.fetch_page_pc,
        fetch_page_valid: after.fetch_page_valid,
        ..before
    }))
    &&& (before.pc % 2 != 0 ==> r == Err::<u32, Trap>(Trap::InstructionAddressMisaligned(before.pc))
        && after == before)
    &&& (before.pc % 2 == 0 && before.pc % 4096 <= 0xFFC ==> (known_fetch_pa(&before) matches Some(pa)
        ==> exists|res: Result<u32, Trap>|
        #![trigger Bus::read32_post(&before.bus, &after.bus, pa, res)]
        Bus::read32_post(&before.bus, &after.bus, pa, res) && r == match res {
            Ok(w) => Ok::<u32, Trap>(fetched_bits(w)),
            Err(e) => Err(e),
        }))
    &&& (before.pc % 2 == 0 ==> fetch_found(before, after, r))
}

/// The hart after an instruction's outcome: on `Next` the pc moves on by
/// `length`, on `Jump` it goes to the target, while the host computes it
/// stays, and a trap is taken.
pub open spec fn retired(mid: Cpu, res: ExecResult, length: u8, after: Cpu) -> bool {
    match res {
        Ok(ExecFlow::Next) => after == (Cpu { pc: mid.pc.wrapping_add(length as u64), ..mid }),
        Ok(ExecFlow::Jump(target)) => after == (Cpu { pc: target, ..mid }),
        Ok(ExecFlow::Host) => after == mid,
        Err(trap) => trap_taken(mid, trap, after),
    }
}

/// The hart `after` once instruction `d` of `length` bytes was carried
/// out from `pre`: some outcome of executing it (see `executes`), then
/// retired (see `retired`); `trapped` says whether it raised an
/// exception.
pub open spec fn carried_out(pre: Cpu, d: DecodedInstruction, length: u8, after: Cpu, trapped: bool) -> bool {
    exists|mid: Cpu, res: ExecResult|
        #![trigger executes(d, &pre, &mid, res)]
        executes(d, &pre, &mid, res) && mid.clock == pre.clock && mid.decode_cache == pre.decode_cache
            && retired(mid, res, length, after) && trapped == res is Err
}

/// One instruction from `before`: when the decode cache holds the
/// instruction at pc it is carried out at once; otherwise it is fetched
/// (a fetch fault is taken as a trap), decoded, remembered in its cache
/// slot, and carried out. `trapped` says whether an exception was taken
/// (at the fetch or from the instruction).
pub open spec fn instruction_stepped(before: Cpu, after: Cpu, trapped: bool) -> bool {
    let slot = cache_slot(before.pc);
    let entry = before.decode_cache@[slot];
    if entry.valid && entry.pc == before.pc {
        carried_out(Cpu { current_instruction_length: entry.length, ..before }, entry.decoded, entry.length, after, trapped)
    } else {
        exists|fetched: Cpu, fr: Result<u32, Trap>|
            #![trigger fetch_post(before, fetched, fr)]
            fetch_post(before, fetched, fr) && match fr {
                Err(t) => trapped && trap_taken(fetched, t, after),
                Ok(w) => exists|pre: Cpu|
                    #![trigger carried_out(pre, spec_decode(w), spec_decode(w).length, after, trapped)]
                    pre == (Cpu {
                        decode_cache: pre.decode_cache,
                        current_instruction_length: spec_decode(w).length,
                        ..fetched
                    }) && pre.decode_cache@ == fetched.decode_cache@.update(
                        slot,
                        DecodeEntry {
                            pc: before.pc,
                            valid: true,
                            decoded: spec_decode(w),
                            length: spec_decode(w).length,
                        },
                    ) && carried_out(pre, spec_decode(w), spec_decode(w).length, after, trapped),
            }
    }
}

/// One instruction from `before`, whether or not it took an exception
/// (see `instruction_stepped`).
pub open spec fn instruction_done(before: Cpu, after: Cpu) -> bool {
    exists|trapped: bool|
        #![trigger instruction_stepped(before, after, trapped)]
        instruction_stepped(before, after, trapped)
}

/// One instruction from `before` (see `instruction_stepped`), where `stop`
/// says whether it took an exception or left a host floating-point
/// operation pending.
pub open spec fn instruction_stops(before: Cpu, after: Cpu, stop: bool) -> bool {
    exists|trapped: bool|
        #![trigger instruction_stepped(before, after, trapped)]
        instruction_stepped(before, after, trapped) && stop == (trapped || after.host_request is Some)
}

/// `c` with the PLIC's external-interrupt lines copied into mip.
pub open spec fn synced(c: Cpu) -> Cpu {
    Cpu {
        csr: Csr {
            mip: with_bit(with_bit(c.csr.mip, 11, c.bus.plic.spec_asserted(0)), 9, c.bus.plic.spec_asserted(1)),
            ..c.csr
        },
        ..c
    }
}

/// One clock of the hart from `before` (see `Cpu::step`).
pub open spec fn stepped(before: Cpu, after: Cpu) -> bool {
    if before.host_request is Some {
        after == before
    } else {
        let c1 = Cpu { clock: before.clock.wrapping_add(1), ..before };
        let s1 = if c1.clock % 1024 == 0 || c1.wfi { synced(c1) } else { c1 };
        let woken = s1.csr.mip & s1.csr.mie != 0;
        let s2 = if woken { Cpu { wfi: false, ..s1 } } else { s1 };
        if woken && s2.spec_pending_interrupt() is Some {
            interrupt_taken(s2, s2.spec_pending_interrupt()->Some_0, after)
        } else if s2.wfi {
            after == s2
        } else {
            instruction_done(s2, after)
        }
    }
}

/// One clock of `Cpu::run_batch` from `before`: the clock advances, every
/// 1024 clocks the PLIC lines are copied in, a pending and enabled
/// interrupt wakes the hart and is taken, a sleeping hart stays and the
/// batch stops (`stop`), and otherwise one instruction runs, the batch
/// stopping when it raised an exception (taken as a trap) or asks the
/// host for a floating-point operation.
pub open spec fn batch_clock(before: Cpu, after: Cpu, stop: bool) -> bool {
    let c1 = Cpu { clock: before.clock.wrapping_add(1), ..before };
    let s1 = if c1.clock % 1024 == 0 { synced(c1) } else { c1 };
    let woken = s1.csr.mip & s1.csr.mie != 0;
    let s2 = if woken { Cpu { wfi: false, ..s1 } } else { s1 };
    if woken && s2.spec_pending_interrupt() is Some {
        !stop && interrupt_taken(s2, s2.spec_pending_interrupt()->Some_0, after)
    } else if s2.wfi {
        stop && after == s2
    } else {
        instruction_stops(s2, after, stop)
    }
}

/// `k` clocks of `Cpu::run_batch` from `start` to `end`, none of which
/// stopped the batch.
pub open spec fn ran(start: Cpu, k: nat, end: Cpu) -> bool
    decreases k,
{
    if k == 0 {
        end == start
    } else {
        exists|mid: Cpu| #![trigger batch_clock(mid, end, false)] ran(start, (k - 1) as nat, mid) && batch_clock(mid, end, false)
    }
}

proof fn lemma_carried_out(pre: Cpu, d: DecodedInstruction, length: u8, mid: Cpu, res: ExecResult, after: Cpu, trapped: bool)
    requires
        executes(d, &pre, &mid, res),
        mid.clock == pre.clock,
        mid.decode_cache == pre.decode_cache,
        retired(mid, res, length, after),
        trapped == res is Err,
    ensures
        carried_out(pre, d, length, after, trapped),
{
}

proof fn lemma_stepped_cached(before: Cpu, after: Cpu, trapped: bool)
    requires
        before.decode_cache@[cache_slot(before.pc)].valid,
        before.decode_cache@[cache_slot(before.pc)].pc == before.pc,
        carried_out(
            Cpu { current_instruction_length: before.decode_cache@[cache_slot(before.pc)].length, ..before },
            before.decode_cache@[cache_slot(before.pc)].decoded,
            before.decode_cache@[cache_slot(before.pc)].length,
            after,
            trapped,
        ),
    ensures
        instruction_stepped(before, after, trapped),
{
}

proof fn lemma_stepped_fetch_fault(before: Cpu, fetched: Cpu, t: Trap, after: Cpu)
    requires
        !(before.decode_cache@[cache_slot(before.pc)].valid && before.decode_cache@[cache_slot(before.pc)].pc
            == before.pc),
        fetch_post(before, fetched, Err(t)),
        trap_taken(fetched, t, after),
    ensures
        instruction_stepped(before, after, true),
{
}

proof fn lemma_stepped_fetched(before: Cpu, fetched: Cpu, w: u32, pre: Cpu, after: Cpu, trapped: bool)
    requires
        !(before.decode_cache@[cache_slot(before.pc)].valid && before.decode_cache@[cache_slot(before.pc)].pc
            == before.pc),
        fetch_post(before, fetched, Ok(w)),
        pre == (Cpu { decode_cache: pre.decode_cache, current_instruction_length: spec_decode(w).length, ..fetched }),
        pre.decode_cache@ == fetched.decode_cache@.update(
            cache_slot(before.pc),
            DecodeEntry { pc: before.pc, valid: true, decoded: spec_decode(w), length: spec_decode(w).length },
        ),
        carried_out(pre, spec_decode(w), spec_decode(w).length, after, trapped),
    ensures
        instruction_stepped(before, after, trapped),
{
}

impl Cpu {
    /// A hart at the reset vector 0x8000_0000 in M-mode, with zeroed
    /// registers, fresh CSRs, an empty TLB and decode cache, and a bus with
    /// 128 MiB of RAM.
    pub fn new() -> (c: Cpu)
        ensures
            c.wf(),
            c.pc == 0x8000_0000,
            c.privilege_mode == PrivilegeMode::Machine,
            c.regs@ == Seq::new(32, |i: int| 0u64),
            c.f_regs@ == Seq::new(32, |i: int| 0u64),
            c.csr.is_reset(),
            forall|i: int| 0 <= i < 4096 ==> #[trigger] c.tlb.entries@[i] == empty_entry(),
            c.bus.is_fresh(0x800_0000),
            c.current_instruction_length == 4,
            c.reservation is None,
            !c.wfi,
            c.clock == 0,
            Cpu::caches_dropped(&c),
            c.host_request is None,
            forall|i: int| 0 <= i < DECODE_CACHE_SIZE ==> !(#[trigger] c.decode_cache@[i]).valid,
    {
        let mut cache: Vec<DecodeEntry> = Vec::new();
        let mut i: usize = 0;
        while i < DECODE_CACHE_SIZE
            invariant
                i <= DECODE_CACHE_SIZE,
                cache@.len() == i,
                forall|k: int| 0 <= k < i ==> !(#[trigger] cache@[k]).valid,
            decreases DECODE_CACHE_SIZE - i,
        {
            cache.push(DecodeEntry::default());
            i += 1;
        }
        Cpu {
            regs: Register::new(),
            f_regs: FRegister::new(),
            pc: 0x8000_0000,
            bus: Bus::new(128 * 1024 * 1024),
            current_instruction_length: 4,
            privilege_mode: PrivilegeMode::Machine,
            csr: Csr::new(),
            tlb: Tlb::new(),
            decode_cache: cache,
            reservation: None,
            wfi: false,
            clock: 0,
            fetch_page_vpn: 0,
            fetch_page_pa: 0,
            fetch_page_pc: 0,
            fetch_page_valid: false,
            data_read_vpn: 0,
            data_read_pa: 0,
            data_read_va: 0,
            data_read_valid: false,
            data_write_vpn: 0,
            data_write_pa: 0,
            data_write_va: 0,
            data_write_valid: false,
            host_request: None,
        }
    }

    /// Lets `elapsed_ticks` ticks of the 10 MHz machine timer pass: mtime
    /// (and the `time` CSR) advance, and the machine and supervisor timer
    /// interrupts become pending (MTIP, bit 7; STIP, bit 5) once mtime has
    /// reached mtimecmp, respectively the `stimecmp` CSR. Pending bits are never
    /// cleared here.
    pub fn advance_time(&mut self, elapsed_ticks: u64)
        ensures
            ({
                let t = old(self).bus.clint.mtime.wrapping_add(elapsed_ticks);
                let m1 = if t >= old(self).bus.clint.mtimecmp { old(self).csr.mip | (1u64 << 7u64) } else { old(self).csr.mip };
                let m2 = if t >= old(self).csr.spec_value(CSR_STIMECMP) { m1 | (1u64 << 5u64) } else { m1 };
                *final(self) == (Cpu {
                    bus: Bus { clint: Clint { mtime: t, ..old(self).bus.clint }, ..old(self).bus },
                    csr: Csr { time: t, mip: m2, ..old(self).csr },
                    ..*old(self)
                })
            }),
    {
        let cmp = self.csr.stimecmp();
        self.bus.clint.mtime = self.bus.clint.mtime.wrapping_add(elapsed_ticks);
        self.csr.time = self.bus.clint.mtime;
        if self.bus.clint.mtime >= self.bus.clint.mtimecmp {
            self.csr.mip = self.csr.mip | (1u64 << 7);
        }
        if self.bus.clint.mtime >= cmp {
            self.csr.mip = self.csr.mip | (1u64 << 5);
        }
    }

    /// Copies the PLIC's external-interrupt lines into mip: MEIP (bit 11)
    /// for context 0 and SEIP (bit 9) for context 1.
    fn sync_external_interrupts(&mut self)
        ensures
            final(self).csr.mip == with_bit(
                with_bit(old(self).csr.mip, 11, old(self).bus.plic.spec_asserted(0)),
                9,
                old(self).bus.plic.spec_asserted(1),
            ),
            *final(self) == (Cpu { csr: Csr { mip: final(self).csr.mip, ..old(self).csr }, ..*old(self) }),
    {
        let (meip, seip) = self.bus.plic.evaluate_interrupt();
        if meip {
            self.csr.mip = self.csr.mip | (1u64 << 11);
        } else {
            self.csr.mip = self.csr.mip & !(1u64 << 11);
        }
        if seip {
            self.csr.mip = self.csr.mip | (1u64 << 9);
        } else {
            self.csr.mip = self.csr.mip & !(1u64 << 9);
        }
    }

    /// Fetches the instruction at pc: a misaligned pc traps; the page's
    /// translation is cached; a word that does not cross the page is read
    /// at once (its low half alone when compressed), one that does is read
    /// as halfwords through the MMU.
    fn fetch(&mut self) -> (r: Result<u32, Trap>)
        ensures
            fetch_post(*old(self), *final(self), r),
    {
        proof {
            lemma_pc_bits(self.pc);
            reveal(fetch_found);
            reveal(fetch_page_found);
            reveal(fetch_read);
        }
        if self.pc & 1 != 0 {
            return Err(Trap::InstructionAddressMisaligned(self.pc));
        }
        let ghost before = *self;
        let pc = self.pc;
        let vpn = pc >> 12;
        let offset = pc & 0xFFF;
        let ghost mut t: Result<u64, Trap> = Ok(
            before.fetch_page_pa.wrapping_add(pc.wrapping_sub(before.fetch_page_pc)),
        );
        if !self.fetch_page_valid || self.fetch_page_vpn != vpn {
            let found = Mmu::translate(self, pc, AccessType::Instruction);
            proof {
                t = found;
                let w = *self;
                assert(translated(&before, &w, before.pc, AccessType::Instruction, t));
            }
            let pa = match found {
                Ok(pa) => pa,
                Err(e) => {
                    proof {
                        assert(fetch_page_found(before, *self, t));
                    }
                    return Err(e);
                },
            };
            self.fetch_page_pa = pa;
            self.fetch_page_pc = pc;
            self.fetch_page_vpn = vpn;
            self.fetch_page_valid = true;
        }
        let ghost mid = *self;
        let pa = self.fetch_page_pa.wrapping_add(pc.wrapping_sub(self.fetch_page_pc));
        proof {
            if !(old(self).fetch_page_valid && old(self).fetch_page_vpn == vpn) {
                assert(pc.wrapping_sub(pc) == 0);
                assert(pc.wrapping_add(0) == pc);
            }
            assert(fetch_page_found(before, mid, t));
            assert(t == Ok::<u64, Trap>(pa));
        }
        if offset <= 0xFFC {
            assert(known_fetch_pa(old(self)) matches Some(p) ==> p == pa);
            let res = self.bus.read32(pa);
            match res {
                Ok(word) => {
                    if word & 0b11 != 0b11 {
                        Ok(word & 0xFFFF)
                    } else {
                        Ok(word)
                    }
                },
                Err(e) => Err(e),
            }
        } else {
            proof {
                lemma_next_page(pc);
            }
            let first = Mmu::fetch16(self, pc)?;
            if first & 0b11 != 0b11 {
                Ok(first as u32)
            } else {
                let ghost m2 = *self;
                let second = Mmu::fetch16(self, pc.wrapping_add(2));
                proof {
                    assert(fetched16(&m2, self, mid.pc.wrapping_add(2), second));
                }
                let second = second?;
                Ok((first as u32) | ((second as u32) << 16))
            }
        }
    }

    /// One clock of the hart. While a host floating-point operation is
    /// pending nothing happens. Otherwise the clock advances; every 1024
    /// clocks (and while waiting for an interrupt) the PLIC lines are
    /// copied into mip; an enabled pending interrupt wakes the hart and is
    /// taken; else, unless sleeping, the instruction at pc is fetched
    /// (through the decode cache), decoded and executed, a trap being taken
    /// where one arises.
    pub fn step(&mut self) -> (r: Result<(), Trap>)
        requires
            old(self).wf(),
        ensures
            final(self).wf(),
            r is Ok,
            stepped(*old(self), *final(self)),
    {
        if self.host_request.is_some() {
            return Ok(());
        }
        self.clock = self.clock.wrapping_add(1);
        if self.clock % 1024 == 0 || self.wfi {
            self.sync_external_interrupts();
        }
        if (self.csr.mip & self.csr.mie) != 0 {
            self.wfi = false;
        }
        if (self.csr.mip & self.csr.mie) != 0 {
            if let Some(cause) = self.pending_interrupt() {
                self.handle_interrupt(cause)?;
                return Ok(());
            }
        }
        if self.wfi {
            return Ok(());
        }
        let _ = self.step_instruction();
        Ok(())
    }

    /// Fetches (through the decode cache), decodes and executes the
    /// instruction at pc, taking the exception it raises, if any; answers
    /// whether one was taken.
    fn step_instruction(&mut self) -> (trapped: bool)
        requires
            old(self).wf(),
        ensures
            final(self).wf(),
            final(self).clock == old(self).clock,
            instruction_stepped(*old(self), *final(self), trapped),
    {
        let index = ((self.pc >> 2) % 16384) as usize;
        assert(index == cache_slot(self.pc));
        let entry = self.decode_cache[index];
        let hit = entry.valid && entry.pc == self.pc;
        let ghost before = *self;
        let ghost mut fetched_state = *self;
        let ghost mut word: u32 = 0;
        let (decoded, length) = if hit {
            (entry.decoded, entry.length)
        } else {
            let fetched = self.fetch();
            proof {
                fetched_state = *self;
            }
            let raw = match fetched {
                Ok(inst) => inst,
                Err(trap) => {
                    let _ = self.handle_trap(trap);
                    proof {
                        lemma_stepped_fetch_fault(before, fetched_state, trap, *self);
                    }
                    return true;
                },
            };
            proof {
                word = raw;
            }
            let decoded = decode(raw);
            let length = decoded.length;
            self.decode_cache.set(index, DecodeEntry { pc: self.pc, valid: true, decoded, length });
            (decoded, length)
        };
        self.current_instruction_length = length;
        let ghost pre = *self;
        let res = execute(decoded, self);
        let ghost mid = *self;
        match res {
            Ok(ExecFlow::Next) => {
                self.pc = self.pc.wrapping_add(length as u64);
            },
            Ok(ExecFlow::Jump(target)) => {
                self.pc = target;
            },
            Ok(ExecFlow::Host) => {},
            Err(trap) => {
                let _ = self.handle_trap(trap);
            },
        }
        let trapped = res.is_err();
        proof {
            lemma_carried_out(pre, decoded, length, mid, res, *self, trapped);
            if hit {
                lemma_stepped_cached(before, *self, trapped);
            } else {
                lemma_stepped_fetched(before, fetched_state, word, pre, *self, trapped);
            }
        }
        trapped
    }

    /// Runs up to `count` clocks and answers how many ran in full: it stops
    /// early while the hart sleeps, on the clock that takes an exception
    /// (once the exception is taken), when a host floating-point operation
    /// is pending, or when an instruction asks for one.
    pub fn run_batch(&mut self, count: u64) -> (n: u64)
        requires
            old(self).wf(),
        ensures
            final(self).wf(),
            n <= count,
            old(self).host_request is Some ==> n == 0 && *final(self) == *old(self),
            old(self).host_request is None ==> {
                ||| n == count && ran(synced(*old(self)), count as nat, *final(self))
                ||| n < count && exists|mid: Cpu|
                    #![trigger batch_clock(mid, *final(self), true)]
                    ran(synced(*old(self)), n as nat, mid) && batch_clock(mid, *final(self), true)
            },
    {
        if self.host_request.is_some() {
            return 0;
        }
        self.sync_external_interrupts();
        let ghost start = *self;
        let mut i: u64 = 0;
        while i < count
            invariant
                self.wf(),
                i <= count,
                self.host_request is None,
                old(self).host_request is None,
                start == synced(*old(self)),
                ran(start, i as nat, *self),
            decreases count - i,
        {
            let ghost before = *self;
            let stop = self.batch_clock_step();
            if stop {
                assert(ran(start, i as nat, before) && batch_clock(before, *self, true));
                return i;
            }
            assert(ran(start, (i + 1) as nat, *self)) by {
                assert(ran(start, ((i + 1) - 1) as nat, before) && batch_clock(before, *self, false));
            }
            i += 1;
        }
        count
    }

    /// One clock of `run_batch`; answers whether the batch stops there.
    fn batch_clock_step(&mut self) -> (stop: bool)
        requires
            old(self).wf(),
            old(self).host_request is None,
        ensures
            final(self).wf(),
            batch_clock(*old(self), *final(self), stop),
            !stop ==> final(self).host_request is None,
    {
        self.clock = self.clock.wrapping_add(1);
        if self.clock % 1024 == 0 {
            self.sync_external_interrupts();
        }
        if (self.csr.mip & self.csr.mie) != 0 {
            self.wfi = false;
            if let Some(cause) = self.pending_interrupt() {
                let _ = self.handle_interrupt(cause);
                return false;
            }
        }
        if self.wfi {
            return true;
        }
        let trapped = self.step_instruction();
        trapped || self.host_request.is_some()
    }
}

/// The low bits of the pc, as the fetch tests them.
/// The halfword at the last even offset of a page lies in that page,
/// and the next one starts the next page.
proof fn lemma_next_page(pc: u64)
    requires
        pc % 4096 > 0xFFC,
        pc % 2 == 0,
    ensures
        pc % 4096 + 2 <= 4096,
        pc.wrapping_add(2) % 4096 == 0,
{
    assert(pc % 4096 == 0xFFE);
    assert(pc.wrapping_add(2) % 4096 == 0) by (bit_vector)
        requires
            pc % 4096 == 0xFFE,
    ;
}

proof fn lemma_pc_bits(pc: u64)
    ensures
        pc & 1 == pc % 2,
        pc & 0xFFF == pc % 4096,
{
    assert(pc & 1 == pc % 2 && pc & 0xFFF == pc % 4096) by (bit_vector);
}

/// Masking only clears bits.
proof fn lemma_mask_keeps_bit(p: u64, m: u64, b: u64)
    ensures
        (p & m) & b != 0 ==> p & b != 0,
{
    assert((p & m) & b != 0 ==> p & b != 0) by (bit_vector);
}

/// The interrupt the hart takes is one that is both pending (mip) and
/// enabled (mie): bit `cause` of `mip & mie` is set.
pub proof fn law_taken_interrupt_is_pending(cpu: Cpu)
    ensures
        cpu.spec_pending_interrupt() matches Some(c) ==> (cpu.csr.mip & cpu.csr.mie) & (1u64 << c) != 0,
{
    let pending = cpu.csr.mip & cpu.csr.mie;
    lemma_mask_keeps_bit(pending, !cpu.csr.mideleg, 1u64 << 11u64);
    lemma_mask_keeps_bit(pending, !cpu.csr.mideleg, 1u64 << 3u64);
    lemma_mask_keeps_bit(pending, !cpu.csr.mideleg, 1u64 << 7u64);
    lemma_mask_keeps_bit(pending, cpu.csr.mideleg, 1u64 << 9u64);
    lemma_mask_keeps_bit(pending, cpu.csr.mideleg, 1u64 << 1u64);
    lemma_mask_keeps_bit(pending, cpu.csr.mideleg, 1u64 << 5u64);
}

/// The exception code recorded in mcause or scause follows the table of
/// the RISC-V privileged architecture, whatever address or instruction
/// the trap carries.
pub proof fn law_exception_codes(a: u64, i: u32)
    ensures
        spec_exception_cause(Trap::InstructionAddressMisaligned(a)) == 0,
        spec_exception_cause(Trap::InstructionAccessFault(a)) == 1,
        spec_exception_cause(Trap::IllegalInstruction(i)) == 2,
        spec_exception_cause(Trap::Breakpoint) == 3,
        spec_exception_cause(Trap::LoadAddressMisaligned(a)) == 4,
        spec_exception_cause(Trap::LoadAccessFault(a)) == 5,
        spec_exception_cause(Trap::StoreAddressMisaligned(a)) == 6,
        spec_exception_cause(Trap::StoreAccessFault(a)) == 7,
        spec_exception_cause(Trap::EcallFromUMode) == 8,
        spec_exception_cause(Trap::EcallFromSMode) == 9,
        spec_exception_cause(Trap::EcallFromMMode) == 11,
        spec_exception_cause(Trap::InstructionPageFault(a)) == 12,
        spec_exception_cause(Trap::LoadPageFault(a)) == 13,
        spec_exception_cause(Trap::StorePageFault(a)) == 15,
{
}

/// Taking a page fault records its code in the cause register of the
/// mode that handles it: 12 for a fetch, 13 for a load, 15 for a store.
pub proof fn law_page_fault_causes(before: Cpu, after: Cpu, a: u64, t: Trap)
    requires
        t == Trap::InstructionPageFault(a) || t == Trap::LoadPageFault(a) || t == Trap::StorePageFault(a),
        trap_taken(before, t, after),
    ensures
        ({
            let code: u64 = if t is InstructionPageFault { 12 } else if t is LoadPageFault { 13 } else { 15 };
            ||| after.privilege_mode == PrivilegeMode::Supervisor && after.csr.scause == code
            ||| after.privilege_mode == PrivilegeMode::Machine && after.csr.mcause == code
        }),
{
}

} // verus!
