use vstd::prelude::*;

use crate::cpu::bus::Bus;
use crate::cpu::execute::rv64u::store_result;
use crate::cpu::register::Reg;
use crate::cpu::{Cpu, ExecFlow, ExecResult};
use crate::trap::Trap;

verus! {

/// The read-modify-write operations of the A extension.
#[derive(Clone, Copy, Debug, PartialEq, Eq, Structural)]
pub enum AmoOp {
    Swap,
    Add,
    Xor,
    Or,
    And,
    Min,
    Max,
    Minu,
    Maxu,
}

/// The word an AMO stores, from the word `old` in memory and `rhs`.
pub open spec fn amo32(op: AmoOp, old: u32, rhs: u32) -> u32 {
    match op {
        AmoOp::Swap => rhs,
        AmoOp::Add => (old as i32).wrapping_add(rhs as i32) as u32,
        AmoOp::Xor => old ^ rhs,
        AmoOp::Or => old | rhs,
        AmoOp::And => old & rhs,
        AmoOp::Min => if (old as i32) <= (rhs as i32) { old } else { rhs },
        AmoOp::Max => if (old as i32) >= (rhs as i32) { old } else { rhs },
        AmoOp::Minu => if old <= rhs { old } else { rhs },
        AmoOp::Maxu => if old >= rhs { old } else { rhs },
    }
}

/// The doubleword an AMO stores.
pub open spec fn amo64(op: AmoOp, old: u64, rhs: u64) -> u64 {
    match op {
        AmoOp::Swap => rhs,
        AmoOp::Add => (old as i64).wrapping_add(rhs as i64) as u64,
        AmoOp::Xor => old ^ rhs,
        AmoOp::Or => old | rhs,
        AmoOp::And => old & rhs,
        AmoOp::Min => if (old as i64) <= (rhs as i64) { old } else { rhs },
        AmoOp::Max => if (old as i64) >= (rhs as i64) { old } else { rhs },
        AmoOp::Minu => if old <= rhs { old } else { rhs },
        AmoOp::Maxu => if old >= rhs { old } else { rhs },
    }
}

fn apply32(op: AmoOp, old: u32, rhs: u32) -> (v: u32)
    ensures
        v == amo32(op, old, rhs),
{
    match op {
        AmoOp::Swap => rhs,
        AmoOp::Add => (old as i32).wrapping_add(rhs as i32) as u32,
        AmoOp::Xor => old ^ rhs,
        AmoOp::Or => old | rhs,
        AmoOp::And => old & rhs,
        AmoOp::Min => if (old as i32) <= (rhs as i32) { old } else { rhs },
        AmoOp::Max => if (old as i32) >= (rhs as i32) { old } else { rhs },
        AmoOp::Minu => if old <= rhs { old } else { rhs },
        AmoOp::Maxu => if old >= rhs { old } else { rhs },
    }
}

fn apply64(op: AmoOp, old: u64, rhs: u64) -> (v: u64)
    ensures
        v == amo64(op, old, rhs),
{
    match op {
        AmoOp::Swap => rhs,
        AmoOp::Add => (old as i64).wrapping_add(rhs as i64) as u64,
        AmoOp::Xor => old ^ rhs,
        AmoOp::Or => old | rhs,
        AmoOp::And => old & rhs,
        AmoOp::Min => if (old as i64) <= (rhs as i64) { old } else { rhs },
        AmoOp::Max => if (old as i64) >= (rhs as i64) { old } else { rhs },
        AmoOp::Minu => if old <= rhs { old } else { rhs },
        AmoOp::Maxu => if old >= rhs { old } else { rhs },
    }
}

/// `new` differs from `old` at most in registers, bus and reservation.
pub open spec fn atomic_frame(old: &Cpu, new: &Cpu) -> bool {
    *new == Cpu { regs: new.regs, bus: new.bus, reservation: new.reservation, ..*old }
}

/// An AMO on the word at physical address `addr` (see `amo_w`), from hart
/// `old` to `new` with outcome `r`: the word is read (see
/// `Bus::read32_post`), and a fault there is the outcome, with nothing
/// but the bus changed by the read. Else `op` of it and `rhs` (see
/// `amo32`) is written back, and a fault there is the outcome, with
/// nothing but the bus changed. Else the old word, sign-extended, goes to
/// `rd`, the reservation is dropped and the outcome is `Next`.
pub open spec fn amo_w_done(old: &Cpu, new: &Cpu, rd: Reg, addr: u64, rhs: u32, op: AmoOp, r: ExecResult) -> bool {
    exists|mid: Bus, t: Result<u32, Trap>|
        #![trigger Bus::read32_post(&old.bus, &mid, addr, t)]
        Bus::read32_post(&old.bus, &mid, addr, t) && match t {
            Err(e) => r == Err::<ExecFlow, Trap>(e) && *new == (Cpu { bus: mid, ..*old }),
            Ok(v) => exists|w: Result<(), Trap>|
                #![trigger Bus::write32_post(&mid, &new.bus, addr, amo32(op, v, rhs), w)]
                Bus::write32_post(&mid, &new.bus, addr, amo32(op, v, rhs), w) && match w {
                    Err(e) => r == Err::<ExecFlow, Trap>(e) && *new == (Cpu { bus: new.bus, ..*old }),
                    Ok(_) => {
                        &&& r == Ok::<ExecFlow, Trap>(ExecFlow::Next)
                        &&& *new == (Cpu { bus: new.bus, regs: new.regs, reservation: None, ..*old })
                        &&& new.regs@ == old.regs.spec_written(rd, v as i32 as i64 as u64)
                    },
                },
        }
}

/// An AMO on the doubleword at physical address `addr` (see `amo_d`), as
/// `amo_w_done` says of a word, with `amo64` and the old doubleword going
/// to `rd` as it is.
pub open spec fn amo_d_done(old: &Cpu, new: &Cpu, rd: Reg, addr: u64, rhs: u64, op: AmoOp, r: ExecResult) -> bool {
    exists|mid: Bus, t: Result<u64, Trap>|
        #![trigger Bus::read64_post(&old.bus, &mid, addr, t)]
        Bus::read64_post(&old.bus, &mid, addr, t) && match t {
            Err(e) => r == Err::<ExecFlow, Trap>(e) && *new == (Cpu { bus: mid, ..*old }),
            Ok(v) => exists|w: Result<(), Trap>|
                #![trigger Bus::write64_post(&mid, &new.bus, addr, amo64(op, v, rhs), w)]
                Bus::write64_post(&mid, &new.bus, addr, amo64(op, v, rhs), w) && match w {
                    Err(e) => r == Err::<ExecFlow, Trap>(e) && *new == (Cpu { bus: new.bus, ..*old }),
                    Ok(_) => {
                        &&& r == Ok::<ExecFlow, Trap>(ExecFlow::Next)
                        &&& *new == (Cpu { bus: new.bus, regs: new.regs, reservation: None, ..*old })
                        &&& new.regs@ == old.regs.spec_written(rd, v)
                    },
                },
        }
}

/// A load-reserved of the word at physical address `addr` (see `lr_w`),
/// from hart `old` to `new` with outcome `r`: the word is read (see
/// `Bus::read32_post`); a fault there is the outcome, with nothing but
/// the bus changed by the read. Else it goes to `rd` sign-extended, `addr`
/// is reserved and the outcome is `Next`.
pub open spec fn lr_w_done(old: &Cpu, new: &Cpu, rd: Reg, addr: u64, r: ExecResult) -> bool {
    exists|mid: Bus, t: Result<u32, Trap>|
        #![trigger Bus::read32_post(&old.bus, &mid, addr, t)]
        Bus::read32_post(&old.bus, &mid, addr, t) && match t {
            Err(e) => r == Err::<ExecFlow, Trap>(e) && *new == (Cpu { bus: mid, ..*old }),
            Ok(v) => {
                &&& r == Ok::<ExecFlow, Trap>(ExecFlow::Next)
                &&& *new == (Cpu { bus: mid, regs: new.regs, reservation: Some(addr), ..*old })
                &&& new.regs@ == old.regs.spec_written(rd, v as i32 as i64 as u64)
            },
        }
}

/// A load-reserved of the doubleword at physical address `addr` (see
/// `lr_d`), as `lr_w_done` says of a word, the doubleword going to `rd`
/// as it is.
pub open spec fn lr_d_done(old: &Cpu, new: &Cpu, rd: Reg, addr: u64, r: ExecResult) -> bool {
    exists|mid: Bus, t: Result<u64, Trap>|
        #![trigger Bus::read64_post(&old.bus, &mid, addr, t)]
        Bus::read64_post(&old.bus, &mid, addr, t) && match t {
            Err(e) => r == Err::<ExecFlow, Trap>(e) && *new == (Cpu { bus: mid, ..*old }),
            Ok(v) => {
                &&& r == Ok::<ExecFlow, Trap>(ExecFlow::Next)
                &&& *new == (Cpu { bus: mid, regs: new.regs, reservation: Some(addr), ..*old })
                &&& new.regs@ == old.regs.spec_written(rd, v)
            },
        }
}

/// An AMO on the word at physical address `x[rs1]`: the old value
/// goes to `rd` (sign-extended), `op` of it and `x[rs2]` goes back to memory,
/// and the reservation is dropped.
fn amo_w(cpu: &mut Cpu, rd: Reg, rs1: Reg, rs2: Reg, op: AmoOp) -> (r: ExecResult)
    ensures
        atomic_frame(old(cpu), final(cpu)),
        amo_w_done(old(cpu), final(cpu), rd, old(cpu).regs.spec_read(rs1), old(cpu).regs.spec_read(rs2) as u32, op, r),
{
    let addr = cpu.regs.read(rs1);
    let old = cpu.bus.read32(addr)?;
    let ghost mid = cpu.bus;
    let rhs = cpu.regs.read(rs2) as u32;
    let new = apply32(op, old, rhs);
    cpu.bus.write32(addr, new)?;
    cpu.regs.write(rd, old as i32 as i64 as u64);
    cpu.clear_reservation();
    assert(Bus::write32_post(&mid, &cpu.bus, addr, amo32(op, old, rhs), Ok(())));
    Ok(ExecFlow::Next)
}

/// AMOSWAP.W (see `amo_w`).
pub fn amoswap_w(cpu: &mut Cpu, rd: Reg, rs1: Reg, rs2: Reg) -> (r: ExecResult)
    ensures
        atomic_frame(old(cpu), final(cpu)),
        amo_w_done(old(cpu), final(cpu), rd, old(cpu).regs.spec_read(rs1), old(cpu).regs.spec_read(rs2) as u32, AmoOp::Swap, r),
{
    amo_w(cpu, rd, rs1, rs2, AmoOp::Swap)
}

/// AMOADD.W (see `amo_w`).
pub fn amoadd_w(cpu: &mut Cpu, rd: Reg, rs1: Reg, rs2: Reg) -> (r: ExecResult)
    ensures
        atomic_frame(old(cpu), final(cpu)),
        amo_w_done(old(cpu), final(cpu), rd, old(cpu).regs.spec_read(rs1), old(cpu).regs.spec_read(rs2) as u32, AmoOp::Add, r),
{
    amo_w(cpu, rd, rs1, rs2, AmoOp::Add)
}

/// AMOXOR.W (see `amo_w`).
pub fn amoxor_w(cpu: &mut Cpu, rd: Reg, rs1: Reg, rs2: Reg) -> (r: ExecResult)
    ensures
        atomic_frame(old(cpu), final(cpu)),
        amo_w_done(old(cpu), final(cpu), rd, old(cpu).regs.spec_read(rs1), old(cpu).regs.spec_read(rs2) as u32, AmoOp::Xor, r),
{
    amo_w(cpu, rd, rs1, rs2, AmoOp::Xor)
}

/// AMOOR.W (see `amo_w`).
pub fn amoor_w(cpu: &mut Cpu, rd: Reg, rs1: Reg, rs2: Reg) -> (r: ExecResult)
    ensures
        atomic_frame(old(cpu), final(cpu)),
        amo_w_done(old(cpu), final(cpu), rd, old(cpu).regs.spec_read(rs1), old(cpu).regs.spec_read(rs2) as u32, AmoOp::Or, r),
{
    amo_w(cpu, rd, rs1, rs2, AmoOp::Or)
}

/// AMOAND.W (see `amo_w`).
pub fn amoand_w(cpu: &mut Cpu, rd: Reg, rs1: Reg, rs2: Reg) -> (r: ExecResult)
    ensures
        atomic_frame(old(cpu), final(cpu)),
        amo_w_done(old(cpu), final(cpu), rd, old(cpu).regs.spec_read(rs1), old(cpu).regs.spec_read(rs2) as u32, AmoOp::And, r),
{
    amo_w(cpu, rd, rs1, rs2, AmoOp::And)
}

/// AMOMIN.W (see `amo_w`).
pub fn amomin_w(cpu: &mut Cpu, rd: Reg, rs1: Reg, rs2: Reg) -> (r: ExecResult)
    ensures
        atomic_frame(old(cpu), final(cpu)),
        amo_w_done(old(cpu), final(cpu), rd, old(cpu).regs.spec_read(rs1), old(cpu).regs.spec_read(rs2) as u32, AmoOp::Min, r),
{
    amo_w(cpu, rd, rs1, rs2, AmoOp::Min)
}

/// AMOMAX.W (see `amo_w`).
pub fn amomax_w(cpu: &mut Cpu, rd: Reg, rs1: Reg, rs2: Reg) -> (r: ExecResult)
    ensures
        atomic_frame(old(cpu), final(cpu)),
        amo_w_done(old(cpu), final(cpu), rd, old(cpu).regs.spec_read(rs1), old(cpu).regs.spec_read(rs2) as u32, AmoOp::Max, r),
{
    amo_w(cpu, rd, rs1, rs2, AmoOp::Max)
}

/// AMOMINU.W (see `amo_w`).
pub fn amominu_w(cpu: &mut Cpu, rd: Reg, rs1: Reg, rs2: Reg) -> (r: ExecResult)
    ensures
        atomic_frame(old(cpu), final(cpu)),
        amo_w_done(old(cpu), final(cpu), rd, old(cpu).regs.spec_read(rs1), old(cpu).regs.spec_read(rs2) as u32, AmoOp::Minu, r),
{
    amo_w(cpu, rd, rs1, rs2, AmoOp::Minu)
}

/// AMOMAXU.W (see `amo_w`).
pub fn amomaxu_w(cpu: &mut Cpu, rd: Reg, rs1: Reg, rs2: Reg) -> (r: ExecResult)
    ensures
        atomic_frame(old(cpu), final(cpu)),
        amo_w_done(old(cpu), final(cpu), rd, old(cpu).regs.spec_read(rs1), old(cpu).regs.spec_read(rs2) as u32, AmoOp::Maxu, r),
{
    amo_w(cpu, rd, rs1, rs2, AmoOp::Maxu)
}

/// LR.W: loads the word at physical address `x[rs1]` into `rd`
/// and reserves that address.
pub fn lr_w(cpu: &mut Cpu, rd: Reg, rs1: Reg) -> (r: ExecResult)
    ensures
        atomic_frame(old(cpu), final(cpu)),
        lr_w_done(old(cpu), final(cpu), rd, old(cpu).regs.spec_read(rs1), r),
{
    let addr = cpu.regs.read(rs1);
    let old = cpu.bus.read32(addr)?;
    cpu.reserve_address(addr);
    cpu.regs.write(rd, old as i32 as i64 as u64);
    Ok(ExecFlow::Next)
}

/// SC.W: when `x[rs1]` is the reserved address, stores `x[rs2]` there
/// and writes 0 to `rd`; otherwise writes 1 to `rd`. The reservation is
/// dropped either way.
pub fn sc_w(cpu: &mut Cpu, rd: Reg, rs1: Reg, rs2: Reg) -> (r: ExecResult)
    ensures
        atomic_frame(old(cpu), final(cpu)),
        r is Ok ==> r == Ok::<ExecFlow, Trap>(ExecFlow::Next) && final(cpu).reservation is None,
        old(cpu).reservation == Some(old(cpu).regs.spec_read(rs1)) ==> Bus::write32_post(&old(cpu).bus, &final(cpu).bus, old(cpu).regs.spec_read(rs1), old(cpu).regs.spec_read(rs2) as u32, store_result(r))
            && (r is Ok ==> final(cpu).regs@ == old(cpu).regs.spec_written(rd, 0)),
        old(cpu).reservation != Some(old(cpu).regs.spec_read(rs1)) ==> r is Ok && final(cpu).bus == old(cpu).bus
            && final(cpu).regs@ == old(cpu).regs.spec_written(rd, 1),
        r is Err ==> final(cpu).regs == old(cpu).regs && final(cpu).reservation == old(cpu).reservation,
{
    let addr = cpu.regs.read(rs1);
    if cpu.reservation_matches(addr) {
        let value = cpu.regs.read(rs2) as u32;
        cpu.bus.write32(addr, value)?;
        cpu.regs.write(rd, 0);
    } else {
        cpu.regs.write(rd, 1);
    }
    cpu.clear_reservation();
    Ok(ExecFlow::Next)
}

/// An AMO on the doubleword at physical address `x[rs1]`: the old value
/// goes to `rd` (as it is), `op` of it and `x[rs2]` goes back to memory,
/// and the reservation is dropped.
fn amo_d(cpu: &mut Cpu, rd: Reg, rs1: Reg, rs2: Reg, op: AmoOp) -> (r: ExecResult)
    ensures
        atomic_frame(old(cpu), final(cpu)),
        amo_d_done(old(cpu), final(cpu), rd, old(cpu).regs.spec_read(rs1), old(cpu).regs.spec_read(rs2), op, r),
{
    let addr = cpu.regs.read(rs1);
    let old = cpu.bus.read64(addr)?;
    let ghost mid = cpu.bus;
    let rhs = cpu.regs.read(rs2);
    let new = apply64(op, old, rhs);
    cpu.bus.write64(addr, new)?;
    cpu.regs.write(rd, old);
    cpu.clear_reservation();
    assert(Bus::write64_post(&mid, &cpu.bus, addr, amo64(op, old, rhs), Ok(())));
    Ok(ExecFlow::Next)
}

/// AMOSWAP.D (see `amo_d`).
pub fn amoswap_d(cpu: &mut Cpu, rd: Reg, rs1: Reg, rs2: Reg) -> (r: ExecResult)
    ensures
        atomic_frame(old(cpu), final(cpu)),
        amo_d_done(old(cpu), final(cpu), rd, old(cpu).regs.spec_read(rs1), old(cpu).regs.spec_read(rs2), AmoOp::Swap, r),
{
    amo_d(cpu, rd, rs1, rs2, AmoOp::Swap)
}

/// AMOADD.D (see `amo_d`).
pub fn amoadd_d(cpu: &mut Cpu, rd: Reg, rs1: Reg, rs2: Reg) -> (r: ExecResult)
    ensures
        atomic_frame(old(cpu), final(cpu)),
        amo_d_done(old(cpu), final(cpu), rd, old(cpu).regs.spec_read(rs1), old(cpu).regs.spec_read(rs2), AmoOp::Add, r),
{
    amo_d(cpu, rd, rs1, rs2, AmoOp::Add)
}

/// AMOXOR.D (see `amo_d`).
pub fn amoxor_d(cpu: &mut Cpu, rd: Reg, rs1: Reg, rs2: Reg) -> (r: ExecResult)
    ensures
        atomic_frame(old(cpu), final(cpu)),
        amo_d_done(old(cpu), final(cpu), rd, old(cpu).regs.spec_read(rs1), old(cpu).regs.spec_read(rs2), AmoOp::Xor, r),
{
    amo_d(cpu, rd, rs1, rs2, AmoOp::Xor)
}

/// AMOOR.D (see `amo_d`).
pub fn amoor_d(cpu: &mut Cpu, rd: Reg, rs1: Reg, rs2: Reg) -> (r: ExecResult)
    ensures
        atomic_frame(old(cpu), final(cpu)),
        amo_d_done(old(cpu), final(cpu), rd, old(cpu).regs.spec_read(rs1), old(cpu).regs.spec_read(rs2), AmoOp::Or, r),
{
    amo_d(cpu, rd, rs1, rs2, AmoOp::Or)
}

/// AMOAND.D (see `amo_d`).
pub fn amoand_d(cpu: &mut Cpu, rd: Reg, rs1: Reg, rs2: Reg) -> (r: ExecResult)
    ensures
        atomic_frame(old(cpu), final(cpu)),
        amo_d_done(old(cpu), final(cpu), rd, old(cpu).regs.spec_read(rs1), old(cpu).regs.spec_read(rs2), AmoOp::And, r),
{
    amo_d(cpu, rd, rs1, rs2, AmoOp::And)
}

/// AMOMIN.D (see `amo_d`).
pub fn amomin_d(cpu: &mut Cpu, rd: Reg, rs1: Reg, rs2: Reg) -> (r: ExecResult)
    ensures
        atomic_frame(old(cpu), final(cpu)),
        amo_d_done(old(cpu), final(cpu), rd, old(cpu).regs.spec_read(rs1), old(cpu).regs.spec_read(rs2), AmoOp::Min, r),
{
    amo_d(cpu, rd, rs1, rs2, AmoOp::Min)
}

/// AMOMAX.D (see `amo_d`).
pub fn amomax_d(cpu: &mut Cpu, rd: Reg, rs1: Reg, rs2: Reg) -> (r: ExecResult)
    ensures
        atomic_frame(old(cpu), final(cpu)),
        amo_d_done(old(cpu), final(cpu), rd, old(cpu).regs.spec_read(rs1), old(cpu).regs.spec_read(rs2), AmoOp::Max, r),
{
    amo_d(cpu, rd, rs1, rs2, AmoOp::Max)
}

/// AMOMINU.D (see `amo_d`).
pub fn amominu_d(cpu: &mut Cpu, rd: Reg, rs1: Reg, rs2: Reg) -> (r: ExecResult)
    ensures
        atomic_frame(old(cpu), final(cpu)),
        amo_d_done(old(cpu), final(cpu), rd, old(cpu).regs.spec_read(rs1), old(cpu).regs.spec_read(rs2), AmoOp::Minu, r),
{
    amo_d(cpu, rd, rs1, rs2, AmoOp::Minu)
}

/// AMOMAXU.D (see `amo_d`).
pub fn amomaxu_d(cpu: &mut Cpu, rd: Reg, rs1: Reg, rs2: Reg) -> (r: ExecResult)
    ensures
        atomic_frame(old(cpu), final(cpu)),
        amo_d_done(old(cpu), final(cpu), rd, old(cpu).regs.spec_read(rs1), old(cpu).regs.spec_read(rs2), AmoOp::Maxu, r),
{
    amo_d(cpu, rd, rs1, rs2, AmoOp::Maxu)
}

/// LR.D: loads the doubleword at physical address `x[rs1]` into `rd`
/// and reserves that address.
pub fn lr_d(cpu: &mut Cpu, rd: Reg, rs1: Reg) -> (r: ExecResult)
    ensures
        atomic_frame(old(cpu), final(cpu)),
        lr_d_done(old(cpu), final(cpu), rd, old(cpu).regs.spec_read(rs1), r),
{
    let addr = cpu.regs.read(rs1);
    let old = cpu.bus.read64(addr)?;
    cpu.reserve_address(addr);
    cpu.regs.write(rd, old);
    Ok(ExecFlow::Next)
}

/// SC.D: when `x[rs1]` is the reserved address, stores `x[rs2]` there
/// and writes 0 to `rd`; otherwise writes 1 to `rd`. The reservation is
/// dropped either way.
pub fn sc_d(cpu: &mut Cpu, rd: Reg, rs1: Reg, rs2: Reg) -> (r: ExecResult)
    ensures
        atomic_frame(old(cpu), final(cpu)),
        r is Ok ==> r == Ok::<ExecFlow, Trap>(ExecFlow::Next) && final(cpu).reservation is None,
        old(cpu).reservation == Some(old(cpu).regs.spec_read(rs1)) ==> Bus::write64_post(&old(cpu).bus, &final(cpu).bus, old(cpu).regs.spec_read(rs1), old(cpu).regs.spec_read(rs2), store_result(r))
            && (r is Ok ==> final(cpu).regs@ == old(cpu).regs.spec_written(rd, 0)),
        old(cpu).reservation != Some(old(cpu).regs.spec_read(rs1)) ==> r is Ok && final(cpu).bus == old(cpu).bus
            && final(cpu).regs@ == old(cpu).regs.spec_written(rd, 1),
        r is Err ==> final(cpu).regs == old(cpu).regs && final(cpu).reservation == old(cpu).reservation,
{
    let addr = cpu.regs.read(rs1);
    if cpu.reservation_matches(addr) {
        let value = cpu.regs.read(rs2);
        cpu.bus.write64(addr, value)?;
        cpu.regs.write(rd, 0);
    } else {
        cpu.regs.write(rd, 1);
    }
    cpu.clear_reservation();
    Ok(ExecFlow::Next)
}

/// The value an AMO stores is what its operation makes of the word in
/// memory and `x[rs2]`: MIN and MAX compare them as signed numbers,
/// MINU and MAXU as unsigned ones, and each picks one of the two; SWAP
/// stores the register.
pub proof fn law_amo32_results(old: u32, rhs: u32)
    ensures
        amo32(AmoOp::Max, old, rhs) as i32 >= old as i32 && amo32(AmoOp::Max, old, rhs) as i32 >= rhs as i32,
        amo32(AmoOp::Min, old, rhs) as i32 <= old as i32 && amo32(AmoOp::Min, old, rhs) as i32 <= rhs as i32,
        amo32(AmoOp::Maxu, old, rhs) >= old && amo32(AmoOp::Maxu, old, rhs) >= rhs,
        amo32(AmoOp::Minu, old, rhs) <= old && amo32(AmoOp::Minu, old, rhs) <= rhs,
        amo32(AmoOp::Max, old, rhs) == old || amo32(AmoOp::Max, old, rhs) == rhs,
        amo32(AmoOp::Min, old, rhs) == old || amo32(AmoOp::Min, old, rhs) == rhs,
        amo32(AmoOp::Maxu, old, rhs) == old || amo32(AmoOp::Maxu, old, rhs) == rhs,
        amo32(AmoOp::Minu, old, rhs) == old || amo32(AmoOp::Minu, old, rhs) == rhs,
        amo32(AmoOp::Swap, old, rhs) == rhs,
{
}

/// The doubleword form of `law_amo32_results`: MIN and MAX compare as
/// signed 64-bit numbers, MINU and MAXU as unsigned ones.
pub proof fn law_amo64_results(old: u64, rhs: u64)
    ensures
        amo64(AmoOp::Max, old, rhs) as i64 >= old as i64 && amo64(AmoOp::Max, old, rhs) as i64 >= rhs as i64,
        amo64(AmoOp::Min, old, rhs) as i64 <= old as i64 && amo64(AmoOp::Min, old, rhs) as i64 <= rhs as i64,
        amo64(AmoOp::Maxu, old, rhs) >= old && amo64(AmoOp::Maxu, old, rhs) >= rhs,
        amo64(AmoOp::Minu, old, rhs) <= old && amo64(AmoOp::Minu, old, rhs) <= rhs,
        amo64(AmoOp::Max, old, rhs) == old || amo64(AmoOp::Max, old, rhs) == rhs,
        amo64(AmoOp::Min, old, rhs) == old || amo64(AmoOp::Min, old, rhs) == rhs,
        amo64(AmoOp::Maxu, old, rhs) == old || amo64(AmoOp::Maxu, old, rhs) == rhs,
        amo64(AmoOp::Minu, old, rhs) == old || amo64(AmoOp::Minu, old, rhs) == rhs,
        amo64(AmoOp::Swap, old, rhs) == rhs,
{
}

} // verus!
