use vstd::prelude::*;

use crate::cpu::bus::Bus;
use crate::cpu::csr::{is_read_only, Csr, spec_illegal_csr, MSTATUS_MPP_MASK, MSTATUS_MPP_SHIFT};
use crate::cpu::execute::csr_execute::{csr_swapped, read_in};
use crate::cpu::execute::fp::{is_nan_f32, is_snan_f32, FLAG_INVALID};
use crate::cpu::execute::helper::{data_frame, spec_addr, wrote_reg};
use crate::cpu::execute::rv64a::{amo_d_done, amo_w_done, atomic_frame, lr_d_done, lr_w_done, AmoOp};
use crate::cpu::execute::rv64f::{accrued, class_f32, eq_f32, lt_f32, max_f32, min_f32, minmax_flags, raw_single, single, wrote_freg};
use crate::cpu::execute::rv64d::{class_f64, double, eq_f64, is_nan_f64, is_snan_f64, lt_f64, max_f64, min_f64, minmax_flags_f64};
use crate::cpu::execute::rv64m::{rv_div32, rv_div64, rv_rem32, rv_rem64};
use crate::cpu::execute::rv64u::store_result;
use crate::cpu::execute::system::{mstatus_mret, mstatus_sret, spec_has_csr_access};
use crate::cpu::f_register::box_f32;
use crate::cpu::{Cpu, ExecFlow, ExecResult, PrivilegeMode};
use crate::cpu::execute::host_rounding;
use crate::cpu::execute::fp::spec_rounding_mode;
use crate::instruction::{DecodedInstruction, Instruction};
use crate::mmu::{
    access_frame, bytes_loaded, bytes_stored, in_one_page, mmu_read16, mmu_read32, mmu_read64, mmu_read8, mmu_write16, mmu_write32,
    mmu_write64, mmu_write8,
};
use crate::trap::Trap;

verus! {

/// What executing `d` on `before` may end with: the result `r` and the
/// state `after`. Each arm is the contract of the function that carries
/// the instruction out. An undefined instruction is illegal and changes
/// nothing; one that the host computes is recorded in `host_request` once
/// its rounding mode is known to be legal.
#[verifier::opaque]
pub open spec fn executes(d: DecodedInstruction, before: &Cpu, after: &Cpu, r: ExecResult) -> bool {
    match d.instruction {
        Instruction::Addi { rd, rs1, imm } => {
            &&& (r == Ok::<ExecFlow, Trap>(ExecFlow::Next))
            &&& (wrote_reg(before, after, rd, (before.regs.spec_read(rs1) as i64).wrapping_add(imm) as u64))
        },
        Instruction::Slti { rd, rs1, imm } => {
            &&& (r == Ok::<ExecFlow, Trap>(ExecFlow::Next))
            &&& (wrote_reg(before, after, rd, if (before.regs.spec_read(rs1) as i64) < imm { 1u64 } else { 0u64 }))
        },
        Instruction::Sltiu { rd, rs1, imm } => {
            &&& (r == Ok::<ExecFlow, Trap>(ExecFlow::Next))
            &&& (wrote_reg(before, after, rd, if before.regs.spec_read(rs1) < (imm as u64) { 1u64 } else { 0u64 }))
        },
        Instruction::Xori { rd, rs1, imm } => {
            &&& (r == Ok::<ExecFlow, Trap>(ExecFlow::Next))
            &&& (wrote_reg(before, after, rd, before.regs.spec_read(rs1) ^ (imm as u64)))
        },
        Instruction::Ori { rd, rs1, imm } => {
            &&& (r == Ok::<ExecFlow, Trap>(ExecFlow::Next))
            &&& (wrote_reg(before, after, rd, before.regs.spec_read(rs1) | (imm as u64)))
        },
        Instruction::Andi { rd, rs1, imm } => {
            &&& (r == Ok::<ExecFlow, Trap>(ExecFlow::Next))
            &&& (wrote_reg(before, after, rd, before.regs.spec_read(rs1) & (imm as u64)))
        },
        Instruction::Slli { rd, rs1, shamt } => {
            &&& (r == Ok::<ExecFlow, Trap>(ExecFlow::Next))
            &&& (wrote_reg(before, after, rd, before.regs.spec_read(rs1) << (shamt % 64)))
        },
        Instruction::Srli { rd, rs1, shamt } => {
            &&& (r == Ok::<ExecFlow, Trap>(ExecFlow::Next))
            &&& (wrote_reg(before, after, rd, before.regs.spec_read(rs1) >> (shamt % 64)))
        },
        Instruction::Srai { rd, rs1, shamt } => {
            &&& (r == Ok::<ExecFlow, Trap>(ExecFlow::Next))
            &&& (wrote_reg(before, after, rd, ((before.regs.spec_read(rs1) as i64) >> (shamt % 64)) as u64))
        },
        Instruction::Addiw { rd, rs1, imm } => {
            &&& (r == Ok::<ExecFlow, Trap>(ExecFlow::Next))
            &&& (wrote_reg(before, after, rd, (before.regs.spec_read(rs1) as i32).wrapping_add(imm as i32) as i64 as u64))
        },
        Instruction::Slliw { rd, rs1, shamt } => {
            &&& (r == Ok::<ExecFlow, Trap>(ExecFlow::Next))
            &&& (wrote_reg(before, after, rd, (before.regs.spec_read(rs1) as i32).wrapping_shl(shamt) as i64 as u64))
        },
        Instruction::Srliw { rd, rs1, shamt } => {
            &&& (r == Ok::<ExecFlow, Trap>(ExecFlow::Next))
            &&& (wrote_reg(before, after, rd, ((before.regs.spec_read(rs1) as u32) >> (shamt % 32)) as i32 as i64 as u64))
        },
        Instruction::Sraiw { rd, rs1, shamt } => {
            &&& (r == Ok::<ExecFlow, Trap>(ExecFlow::Next))
            &&& (wrote_reg(before, after, rd, ((before.regs.spec_read(rs1) as i32) >> (shamt % 32)) as i64 as u64))
        },
        Instruction::Add { rd, rs1, rs2 } => {
            &&& (r == Ok::<ExecFlow, Trap>(ExecFlow::Next))
            &&& (wrote_reg(before, after, rd, before.regs.spec_read(rs1).wrapping_add(before.regs.spec_read(rs2))))
        },
        Instruction::Sub { rd, rs1, rs2 } => {
            &&& (r == Ok::<ExecFlow, Trap>(ExecFlow::Next))
            &&& (wrote_reg(before, after, rd, before.regs.spec_read(rs1).wrapping_sub(before.regs.spec_read(rs2))))
        },
        Instruction::Sll { rd, rs1, rs2 } => {
            &&& (r == Ok::<ExecFlow, Trap>(ExecFlow::Next))
            &&& (wrote_reg(before, after, rd, before.regs.spec_read(rs1) << (before.regs.spec_read(rs2) % 64) as u32))
        },
        Instruction::Slt { rd, rs1, rs2 } => {
            &&& (r == Ok::<ExecFlow, Trap>(ExecFlow::Next))
            &&& (wrote_reg(before, after, rd, if (before.regs.spec_read(rs1) as i64) < (before.regs.spec_read(rs2) as i64) { 1u64 } else { 0u64 }))
        },
        Instruction::Sltu { rd, rs1, rs2 } => {
            &&& (r == Ok::<ExecFlow, Trap>(ExecFlow::Next))
            &&& (wrote_reg(before, after, rd, if before.regs.spec_read(rs1) < before.regs.spec_read(rs2) { 1u64 } else { 0u64 }))
        },
        Instruction::Sra { rd, rs1, rs2 } => {
            &&& (r == Ok::<ExecFlow, Trap>(ExecFlow::Next))
            &&& (wrote_reg(before, after, rd, ((before.regs.spec_read(rs1) as i64) >> (before.regs.spec_read(rs2) % 64) as u32) as u64))
        },
        Instruction::Xor { rd, rs1, rs2 } => {
            &&& (r == Ok::<ExecFlow, Trap>(ExecFlow::Next))
            &&& (wrote_reg(before, after, rd, before.regs.spec_read(rs1) ^ before.regs.spec_read(rs2)))
        },
        Instruction::Srl { rd, rs1, rs2 } => {
            &&& (r == Ok::<ExecFlow, Trap>(ExecFlow::Next))
            &&& (wrote_reg(before, after, rd, before.regs.spec_read(rs1) >> (before.regs.spec_read(rs2) % 64) as u32))
        },
        Instruction::Or { rd, rs1, rs2 } => {
            &&& (r == Ok::<ExecFlow, Trap>(ExecFlow::Next))
            &&& (wrote_reg(before, after, rd, before.regs.spec_read(rs1) | before.regs.spec_read(rs2)))
        },
        Instruction::And { rd, rs1, rs2 } => {
            &&& (r == Ok::<ExecFlow, Trap>(ExecFlow::Next))
            &&& (wrote_reg(before, after, rd, before.regs.spec_read(rs1) & before.regs.spec_read(rs2)))
        },
        Instruction::Mul { rd, rs1, rs2 } => {
            &&& (r == Ok::<ExecFlow, Trap>(ExecFlow::Next))
            &&& (wrote_reg(before, after, rd, before.regs.spec_read(rs1).wrapping_mul(before.regs.spec_read(rs2))))
        },
        Instruction::Mulh { rd, rs1, rs2 } => {
            &&& (r == Ok::<ExecFlow, Trap>(ExecFlow::Next))
            &&& (wrote_reg(before, after, rd, (((before.regs.spec_read(rs1) as i64 as i128) * (before.regs.spec_read(rs2) as i64 as i128)) as i128 >> 64i128) as i64 as u64))
        },
        Instruction::Mulhsu { rd, rs1, rs2 } => {
            &&& (r == Ok::<ExecFlow, Trap>(ExecFlow::Next))
            &&& (wrote_reg(before, after, rd, (((before.regs.spec_read(rs1) as i64 as i128) * (before.regs.spec_read(rs2) as u128 as i128)) as i128 >> 64i128) as i64 as u64))
        },
        Instruction::Mulhu { rd, rs1, rs2 } => {
            &&& (r == Ok::<ExecFlow, Trap>(ExecFlow::Next))
            &&& (wrote_reg(before, after, rd, (((before.regs.spec_read(rs1) as u128) * (before.regs.spec_read(rs2) as u128)) as u128 >> 64u128) as u64))
        },
        Instruction::Div { rd, rs1, rs2 } => {
            &&& (r == Ok::<ExecFlow, Trap>(ExecFlow::Next))
            &&& (wrote_reg(before, after, rd, rv_div64(before.regs.spec_read(rs1) as i64, before.regs.spec_read(rs2) as i64) as u64))
        },
        Instruction::Divu { rd, rs1, rs2 } => {
            &&& (r == Ok::<ExecFlow, Trap>(ExecFlow::Next))
            &&& (wrote_reg(before, after, rd, if before.regs.spec_read(rs2) == 0 { u64::MAX } else { (before.regs.spec_read(rs1) / before.regs.spec_read(rs2)) as u64 }))
        },
        Instruction::Rem { rd, rs1, rs2 } => {
            &&& (r == Ok::<ExecFlow, Trap>(ExecFlow::Next))
            &&& (wrote_reg(before, after, rd, rv_rem64(before.regs.spec_read(rs1) as i64, before.regs.spec_read(rs2) as i64) as u64))
        },
        Instruction::Remu { rd, rs1, rs2 } => {
            &&& (r == Ok::<ExecFlow, Trap>(ExecFlow::Next))
            &&& (wrote_reg(before, after, rd, if before.regs.spec_read(rs2) == 0 { before.regs.spec_read(rs1) } else { (before.regs.spec_read(rs1) % before.regs.spec_read(rs2)) as u64 }))
        },
        Instruction::Addw { rd, rs1, rs2 } => {
            &&& (r == Ok::<ExecFlow, Trap>(ExecFlow::Next))
            &&& (wrote_reg(before, after, rd, (before.regs.spec_read(rs1) as u32).wrapping_add(before.regs.spec_read(rs2) as u32) as i32 as i64 as u64))
        },
        Instruction::Subw { rd, rs1, rs2 } => {
            &&& (r == Ok::<ExecFlow, Trap>(ExecFlow::Next))
            &&& (wrote_reg(before, after, rd, (before.regs.spec_read(rs1) as u32).wrapping_sub(before.regs.spec_read(rs2) as u32) as i32 as i64 as u64))
        },
        Instruction::Sllw { rd, rs1, rs2 } => {
            &&& (r == Ok::<ExecFlow, Trap>(ExecFlow::Next))
            &&& (wrote_reg(before, after, rd, ((before.regs.spec_read(rs1) as u32) << (before.regs.spec_read(rs2) % 32) as u32) as i32 as i64 as u64))
        },
        Instruction::Srlw { rd, rs1, rs2 } => {
            &&& (r == Ok::<ExecFlow, Trap>(ExecFlow::Next))
            &&& (wrote_reg(before, after, rd, ((before.regs.spec_read(rs1) as u32) >> (before.regs.spec_read(rs2) % 32) as u32) as i32 as i64 as u64))
        },
        Instruction::Sraw { rd, rs1, rs2 } => {
            &&& (r == Ok::<ExecFlow, Trap>(ExecFlow::Next))
            &&& (wrote_reg(before, after, rd, ((before.regs.spec_read(rs1) as i32) >> (before.regs.spec_read(rs2) % 32) as u32) as i64 as u64))
        },
        Instruction::Mulw { rd, rs1, rs2 } => {
            &&& (r == Ok::<ExecFlow, Trap>(ExecFlow::Next))
            &&& (wrote_reg(before, after, rd, (before.regs.spec_read(rs1) as i32).wrapping_mul(before.regs.spec_read(rs2) as i32) as i64 as u64))
        },
        Instruction::Divw { rd, rs1, rs2 } => {
            &&& (r == Ok::<ExecFlow, Trap>(ExecFlow::Next))
            &&& (wrote_reg(before, after, rd, rv_div32(before.regs.spec_read(rs1) as i32, before.regs.spec_read(rs2) as i32) as i64 as u64))
        },
        Instruction::Divuw { rd, rs1, rs2 } => {
            &&& (r == Ok::<ExecFlow, Trap>(ExecFlow::Next))
            &&& (wrote_reg(before, after, rd, (if (before.regs.spec_read(rs2) as u32) == 0 { u32::MAX } else { ((before.regs.spec_read(rs1) as u32) / (before.regs.spec_read(rs2) as u32)) as u32 }) as i32 as i64 as u64))
        },
        Instruction::Remw { rd, rs1, rs2 } => {
            &&& (r == Ok::<ExecFlow, Trap>(ExecFlow::Next))
            &&& (wrote_reg(before, after, rd, rv_rem32(before.regs.spec_read(rs1) as i32, before.regs.spec_read(rs2) as i32) as i64 as u64))
        },
        Instruction::Remuw { rd, rs1, rs2 } => {
            &&& (r == Ok::<ExecFlow, Trap>(ExecFlow::Next))
            &&& (wrote_reg(before, after, rd, (if (before.regs.spec_read(rs2) as u32) == 0 { before.regs.spec_read(rs1) as u32 } else { ((before.regs.spec_read(rs1) as u32) % (before.regs.spec_read(rs2) as u32)) as u32 }) as i32 as i64 as u64))
        },
        Instruction::Lb { rd, rs1, imm } => {
            &&& (data_frame(before, after))
            &&& (r is Ok ==> r == Ok::<ExecFlow, Trap>(ExecFlow::Next))
            &&& (r is Err ==> after.regs == before.regs)
            &&& (exists|mid: Cpu, t: Result<u8, Trap>|
                #![trigger mmu_read8(before, &mid, spec_addr(before, rs1, imm), t)]
                mmu_read8(before, &mid, spec_addr(before, rs1, imm), t) && match t {
                    Err(e) => r == Err::<ExecFlow, Trap>(e) && *after == mid,
                    Ok(v) => r == Ok::<ExecFlow, Trap>(ExecFlow::Next) && wrote_reg(&mid, after, rd, v as i8 as i64 as u64),
                })
        },
        Instruction::Lh { rd, rs1, imm } => {
            &&& (data_frame(before, after))
            &&& (r is Ok ==> r == Ok::<ExecFlow, Trap>(ExecFlow::Next))
            &&& (r is Err ==> after.regs == before.regs)
            &&& (in_one_page(spec_addr(before, rs1, imm), 2) ==> exists|mid: Cpu, t: Result<u16, Trap>|
                #![trigger mmu_read16(before, &mid, spec_addr(before, rs1, imm), t)]
                mmu_read16(before, &mid, spec_addr(before, rs1, imm), t) && match t {
                    Err(e) => r == Err::<ExecFlow, Trap>(e) && *after == mid,
                    Ok(v) => r == Ok::<ExecFlow, Trap>(ExecFlow::Next) && wrote_reg(&mid, after, rd, v as i16 as i64 as u64),
                })
            &&& (!in_one_page(spec_addr(before, rs1, imm), 2) ==> exists|mid: Cpu, t: Result<u64, Trap>|
                #![trigger bytes_loaded(before, &mid, spec_addr(before, rs1, imm), 2, t)]
                bytes_loaded(before, &mid, spec_addr(before, rs1, imm), 2, t) && match t {
                    Err(e) => r == Err::<ExecFlow, Trap>(e) && *after == mid,
                    Ok(v) => r == Ok::<ExecFlow, Trap>(ExecFlow::Next) && wrote_reg(&mid, after, rd, v as u16 as i16 as i64 as u64),
                })
        },
        Instruction::Lw { rd, rs1, imm } => {
            &&& (data_frame(before, after))
            &&& (r is Ok ==> r == Ok::<ExecFlow, Trap>(ExecFlow::Next))
            &&& (r is Err ==> after.regs == before.regs)
            &&& (in_one_page(spec_addr(before, rs1, imm), 4) ==> exists|mid: Cpu, t: Result<u32, Trap>|
                #![trigger mmu_read32(before, &mid, spec_addr(before, rs1, imm), t)]
                mmu_read32(before, &mid, spec_addr(before, rs1, imm), t) && match t {
                    Err(e) => r == Err::<ExecFlow, Trap>(e) && *after == mid,
                    Ok(v) => r == Ok::<ExecFlow, Trap>(ExecFlow::Next) && wrote_reg(&mid, after, rd, v as i32 as i64 as u64),
                })
            &&& (!in_one_page(spec_addr(before, rs1, imm), 4) ==> exists|mid: Cpu, t: Result<u64, Trap>|
                #![trigger bytes_loaded(before, &mid, spec_addr(before, rs1, imm), 4, t)]
                bytes_loaded(before, &mid, spec_addr(before, rs1, imm), 4, t) && match t {
                    Err(e) => r == Err::<ExecFlow, Trap>(e) && *after == mid,
                    Ok(v) => r == Ok::<ExecFlow, Trap>(ExecFlow::Next) && wrote_reg(&mid, after, rd, v as u32 as i32 as i64 as u64),
                })
        },
        Instruction::Lbu { rd, rs1, imm } => {
            &&& (data_frame(before, after))
            &&& (r is Ok ==> r == Ok::<ExecFlow, Trap>(ExecFlow::Next))
            &&& (r is Err ==> after.regs == before.regs)
            &&& (exists|mid: Cpu, t: Result<u8, Trap>|
                #![trigger mmu_read8(before, &mid, spec_addr(before, rs1, imm), t)]
                mmu_read8(before, &mid, spec_addr(before, rs1, imm), t) && match t {
                    Err(e) => r == Err::<ExecFlow, Trap>(e) && *after == mid,
                    Ok(v) => r == Ok::<ExecFlow, Trap>(ExecFlow::Next) && wrote_reg(&mid, after, rd, v as u64),
                })
        },
        Instruction::Lhu { rd, rs1, imm } => {
            &&& (data_frame(before, after))
            &&& (r is Ok ==> r == Ok::<ExecFlow, Trap>(ExecFlow::Next))
            &&& (r is Err ==> after.regs == before.regs)
            &&& (in_one_page(spec_addr(before, rs1, imm), 2) ==> exists|mid: Cpu, t: Result<u16, Trap>|
                #![trigger mmu_read16(before, &mid, spec_addr(before, rs1, imm), t)]
                mmu_read16(before, &mid, spec_addr(before, rs1, imm), t) && match t {
                    Err(e) => r == Err::<ExecFlow, Trap>(e) && *after == mid,
                    Ok(v) => r == Ok::<ExecFlow, Trap>(ExecFlow::Next) && wrote_reg(&mid, after, rd, v as u64),
                })
            &&& (!in_one_page(spec_addr(before, rs1, imm), 2) ==> exists|mid: Cpu, t: Result<u64, Trap>|
                #![trigger bytes_loaded(before, &mid, spec_addr(before, rs1, imm), 2, t)]
                bytes_loaded(before, &mid, spec_addr(before, rs1, imm), 2, t) && match t {
                    Err(e) => r == Err::<ExecFlow, Trap>(e) && *after == mid,
                    Ok(v) => r == Ok::<ExecFlow, Trap>(ExecFlow::Next) && wrote_reg(&mid, after, rd, v as u16 as u64),
                })
        },
        Instruction::Lwu { rd, rs1, imm } => {
            &&& (data_frame(before, after))
            &&& (r is Ok ==> r == Ok::<ExecFlow, Trap>(ExecFlow::Next))
            &&& (r is Err ==> after.regs == before.regs)
            &&& (in_one_page(spec_addr(before, rs1, imm), 4) ==> exists|mid: Cpu, t: Result<u32, Trap>|
                #![trigger mmu_read32(before, &mid, spec_addr(before, rs1, imm), t)]
                mmu_read32(before, &mid, spec_addr(before, rs1, imm), t) && match t {
                    Err(e) => r == Err::<ExecFlow, Trap>(e) && *after == mid,
                    Ok(v) => r == Ok::<ExecFlow, Trap>(ExecFlow::Next) && wrote_reg(&mid, after, rd, v as u64),
                })
            &&& (!in_one_page(spec_addr(before, rs1, imm), 4) ==> exists|mid: Cpu, t: Result<u64, Trap>|
                #![trigger bytes_loaded(before, &mid, spec_addr(before, rs1, imm), 4, t)]
                bytes_loaded(before, &mid, spec_addr(before, rs1, imm), 4, t) && match t {
                    Err(e) => r == Err::<ExecFlow, Trap>(e) && *after == mid,
                    Ok(v) => r == Ok::<ExecFlow, Trap>(ExecFlow::Next) && wrote_reg(&mid, after, rd, v as u32 as u64),
                })
        },
        Instruction::Ld { rd, rs1, imm } => {
            &&& (data_frame(before, after))
            &&& (r is Ok ==> r == Ok::<ExecFlow, Trap>(ExecFlow::Next))
            &&& (r is Err ==> after.regs == before.regs)
            &&& (in_one_page(spec_addr(before, rs1, imm), 8) ==> exists|mid: Cpu, t: Result<u64, Trap>|
                #![trigger mmu_read64(before, &mid, spec_addr(before, rs1, imm), t)]
                mmu_read64(before, &mid, spec_addr(before, rs1, imm), t) && match t {
                    Err(e) => r == Err::<ExecFlow, Trap>(e) && *after == mid,
                    Ok(v) => r == Ok::<ExecFlow, Trap>(ExecFlow::Next) && wrote_reg(&mid, after, rd, v),
                })
            &&& (!in_one_page(spec_addr(before, rs1, imm), 8) ==> exists|mid: Cpu, t: Result<u64, Trap>|
                #![trigger bytes_loaded(before, &mid, spec_addr(before, rs1, imm), 8, t)]
                bytes_loaded(before, &mid, spec_addr(before, rs1, imm), 8, t) && match t {
                    Err(e) => r == Err::<ExecFlow, Trap>(e) && *after == mid,
                    Ok(v) => r == Ok::<ExecFlow, Trap>(ExecFlow::Next) && wrote_reg(&mid, after, rd, v),
                })
        },
        Instruction::Sb { rs2, rs1, imm } => {
            &&& (access_frame(before, after))
            &&& (r is Ok ==> r == Ok::<ExecFlow, Trap>(ExecFlow::Next))
            &&& (mmu_write8(before, after, spec_addr(before, rs1, imm), before.regs.spec_read(rs2) as u8, store_result(r)))
        },
        Instruction::Sh { rs2, rs1, imm } => {
            &&& (access_frame(before, after))
            &&& (r is Ok ==> r == Ok::<ExecFlow, Trap>(ExecFlow::Next))
            &&& (in_one_page(spec_addr(before, rs1, imm), 2) ==> mmu_write16(before, after, spec_addr(before, rs1, imm), before.regs.spec_read(rs2) as u16, store_result(r)))
            &&& (!in_one_page(spec_addr(before, rs1, imm), 2) ==> bytes_stored(before, after, spec_addr(before, rs1, imm), before.regs.spec_read(rs2) as u16 as u64, 2, store_result(r)))
        },
        Instruction::Sw { rs2, rs1, imm } => {
            &&& (access_frame(before, after))
            &&& (r is Ok ==> r == Ok::<ExecFlow, Trap>(ExecFlow::Next))
            &&& (in_one_page(spec_addr(before, rs1, imm), 4) ==> mmu_write32(before, after, spec_addr(before, rs1, imm), before.regs.spec_read(rs2) as u32, store_result(r)))
            &&& (!in_one_page(spec_addr(before, rs1, imm), 4) ==> bytes_stored(before, after, spec_addr(before, rs1, imm), before.regs.spec_read(rs2) as u32 as u64, 4, store_result(r)))
        },
        Instruction::Sd { rs2, rs1, imm } => {
            &&& (access_frame(before, after))
            &&& (r is Ok ==> r == Ok::<ExecFlow, Trap>(ExecFlow::Next))
            &&& (in_one_page(spec_addr(before, rs1, imm), 8) ==> mmu_write64(before, after, spec_addr(before, rs1, imm), before.regs.spec_read(rs2), store_result(r)))
            &&& (!in_one_page(spec_addr(before, rs1, imm), 8) ==> bytes_stored(before, after, spec_addr(before, rs1, imm), before.regs.spec_read(rs2), 8, store_result(r)))
        },
        Instruction::Lrw { rd, rs1, rl: _, aq: _ } => {
            &&& (atomic_frame(before, after))
            &&& (lr_w_done(before, after, rd, before.regs.spec_read(rs1), r))
        },
        Instruction::Scw { rd, rs1, rs2, rl: _, aq: _ } => {
            &&& (atomic_frame(before, after))
            &&& (r is Ok ==> r == Ok::<ExecFlow, Trap>(ExecFlow::Next) && after.reservation is None)
            &&& (before.reservation == Some(before.regs.spec_read(rs1)) ==> Bus::write32_post(&before.bus, &after.bus, before.regs.spec_read(rs1), before.regs.spec_read(rs2) as u32, store_result(r))
                && (r is Ok ==> after.regs@ == before.regs.spec_written(rd, 0)))
            &&& (before.reservation != Some(before.regs.spec_read(rs1)) ==> r is Ok && after.bus == before.bus
                && after.regs@ == before.regs.spec_written(rd, 1))
            &&& (r is Err ==> after.regs == before.regs && after.reservation == before.reservation)
        },
        Instruction::Amoswapw { rd, rs1, rs2, rl: _, aq: _ } => {
            &&& (atomic_frame(before, after))
            &&& (amo_w_done(before, after, rd, before.regs.spec_read(rs1), before.regs.spec_read(rs2) as u32, AmoOp::Swap, r))
        },
        Instruction::Amoaddw { rd, rs1, rs2, rl: _, aq: _ } => {
            &&& (atomic_frame(before, after))
            &&& (amo_w_done(before, after, rd, before.regs.spec_read(rs1), before.regs.spec_read(rs2) as u32, AmoOp::Add, r))
        },
        Instruction::Amoxorw { rd, rs1, rs2, rl: _, aq: _ } => {
            &&& (atomic_frame(before, after))
            &&& (amo_w_done(before, after, rd, before.regs.spec_read(rs1), before.regs.spec_read(rs2) as u32, AmoOp::Xor, r))
        },
        Instruction::Amoandw { rd, rs1, rs2, rl: _, aq: _ } => {
            &&& (atomic_frame(before, after))
            &&& (amo_w_done(before, after, rd, before.regs.spec_read(rs1), before.regs.spec_read(rs2) as u32, AmoOp::And, r))
        },
        Instruction::Amoorw { rd, rs1, rs2, rl: _, aq: _ } => {
            &&& (atomic_frame(before, after))
            &&& (amo_w_done(before, after, rd, before.regs.spec_read(rs1), before.regs.spec_read(rs2) as u32, AmoOp::Or, r))
        },
        Instruction::Amominw { rd, rs1, rs2, rl: _, aq: _ } => {
            &&& (atomic_frame(before, after))
            &&& (amo_w_done(before, after, rd, before.regs.spec_read(rs1), before.regs.spec_read(rs2) as u32, AmoOp::Min, r))
        },
        Instruction::Amomaxw { rd, rs1, rs2, rl: _, aq: _ } => {
            &&& (atomic_frame(before, after))
            &&& (amo_w_done(before, after, rd, before.regs.spec_read(rs1), before.regs.spec_read(rs2) as u32, AmoOp::Max, r))
        },
        Instruction::Amominuw { rd, rs1, rs2, rl: _, aq: _ } => {
            &&& (atomic_frame(before, after))
            &&& (amo_w_done(before, after, rd, before.regs.spec_read(rs1), before.regs.spec_read(rs2) as u32, AmoOp::Minu, r))
        },
        Instruction::Amomaxuw { rd, rs1, rs2, rl: _, aq: _ } => {
            &&& (atomic_frame(before, after))
            &&& (amo_w_done(before, after, rd, before.regs.spec_read(rs1), before.regs.spec_read(rs2) as u32, AmoOp::Maxu, r))
        },
        Instruction::Lrd { rd, rs1, rl: _, aq: _ } => {
            &&& (atomic_frame(before, after))
            &&& (lr_d_done(before, after, rd, before.regs.spec_read(rs1), r))
        },
        Instruction::Scd { rd, rs1, rs2, rl: _, aq: _ } => {
            &&& (atomic_frame(before, after))
            &&& (r is Ok ==> r == Ok::<ExecFlow, Trap>(ExecFlow::Next) && after.reservation is None)
            &&& (before.reservation == Some(before.regs.spec_read(rs1)) ==> Bus::write64_post(&before.bus, &after.bus, before.regs.spec_read(rs1), before.regs.spec_read(rs2), store_result(r))
                && (r is Ok ==> after.regs@ == before.regs.spec_written(rd, 0)))
            &&& (before.reservation != Some(before.regs.spec_read(rs1)) ==> r is Ok && after.bus == before.bus
                && after.regs@ == before.regs.spec_written(rd, 1))
            &&& (r is Err ==> after.regs == before.regs && after.reservation == before.reservation)
        },
        Instruction::Amoswapd { rd, rs1, rs2, rl: _, aq: _ } => {
            &&& (atomic_frame(before, after))
            &&& (amo_d_done(before, after, rd, before.regs.spec_read(rs1), before.regs.spec_read(rs2), AmoOp::Swap, r))
        },
        Instruction::Amoaddd { rd, rs1, rs2, rl: _, aq: _ } => {
            &&& (atomic_frame(before, after))
            &&& (amo_d_done(before, after, rd, before.regs.spec_read(rs1), before.regs.spec_read(rs2), AmoOp::Add, r))
        },
        Instruction::Amoxord { rd, rs1, rs2, rl: _, aq: _ } => {
            &&& (atomic_frame(before, after))
            &&& (amo_d_done(before, after, rd, before.regs.spec_read(rs1), before.regs.spec_read(rs2), AmoOp::Xor, r))
        },
        Instruction::Amoandd { rd, rs1, rs2, rl: _, aq: _ } => {
            &&& (atomic_frame(before, after))
            &&& (amo_d_done(before, after, rd, before.regs.spec_read(rs1), before.regs.spec_read(rs2), AmoOp::And, r))
        },
        Instruction::Amoord { rd, rs1, rs2, rl: _, aq: _ } => {
            &&& (atomic_frame(before, after))
            &&& (amo_d_done(before, after, rd, before.regs.spec_read(rs1), before.regs.spec_read(rs2), AmoOp::Or, r))
        },
        Instruction::Amomind { rd, rs1, rs2, rl: _, aq: _ } => {
            &&& (atomic_frame(before, after))
            &&& (amo_d_done(before, after, rd, before.regs.spec_read(rs1), before.regs.spec_read(rs2), AmoOp::Min, r))
        },
        Instruction::Amomaxd { rd, rs1, rs2, rl: _, aq: _ } => {
            &&& (atomic_frame(before, after))
            &&& (amo_d_done(before, after, rd, before.regs.spec_read(rs1), before.regs.spec_read(rs2), AmoOp::Max, r))
        },
        Instruction::Amominud { rd, rs1, rs2, rl: _, aq: _ } => {
            &&& (atomic_frame(before, after))
            &&& (amo_d_done(before, after, rd, before.regs.spec_read(rs1), before.regs.spec_read(rs2), AmoOp::Minu, r))
        },
        Instruction::Amomaxud { rd, rs1, rs2, rl: _, aq: _ } => {
            &&& (atomic_frame(before, after))
            &&& (amo_d_done(before, after, rd, before.regs.spec_read(rs1), before.regs.spec_read(rs2), AmoOp::Maxu, r))
        },
        Instruction::Beq { rs1, rs2, imm } => {
            &&& (*after == *before)
            &&& (r == Ok::<ExecFlow, Trap>(
                if before.regs.spec_read(rs1) == before.regs.spec_read(rs2) {
                    ExecFlow::Jump(before.pc.wrapping_add(imm as u64))
                } else {
                    ExecFlow::Next
                },
            ))
        },
        Instruction::Bne { rs1, rs2, imm } => {
            &&& (*after == *before)
            &&& (r == Ok::<ExecFlow, Trap>(
                if before.regs.spec_read(rs1) != before.regs.spec_read(rs2) {
                    ExecFlow::Jump(before.pc.wrapping_add(imm as u64))
                } else {
                    ExecFlow::Next
                },
            ))
        },
        Instruction::Blt { rs1, rs2, imm } => {
            &&& (*after == *before)
            &&& (r == Ok::<ExecFlow, Trap>(
                if (before.regs.spec_read(rs1) as i64) < (before.regs.spec_read(rs2) as i64) {
                    ExecFlow::Jump(before.pc.wrapping_add(imm as u64))
                } else {
                    ExecFlow::Next
                },
            ))
        },
        Instruction::Bge { rs1, rs2, imm } => {
            &&& (*after == *before)
            &&& (r == Ok::<ExecFlow, Trap>(
                if (before.regs.spec_read(rs1) as i64) >= (before.regs.spec_read(rs2) as i64) {
                    ExecFlow::Jump(before.pc.wrapping_add(imm as u64))
                } else {
                    ExecFlow::Next
                },
            ))
        },
        Instruction::Bltu { rs1, rs2, imm } => {
            &&& (*after == *before)
            &&& (r == Ok::<ExecFlow, Trap>(
                if before.regs.spec_read(rs1) < before.regs.spec_read(rs2) {
                    ExecFlow::Jump(before.pc.wrapping_add(imm as u64))
                } else {
                    ExecFlow::Next
                },
            ))
        },
        Instruction::Bgeu { rs1, rs2, imm } => {
            &&& (*after == *before)
            &&& (r == Ok::<ExecFlow, Trap>(
                if before.regs.spec_read(rs1) >= before.regs.spec_read(rs2) {
                    ExecFlow::Jump(before.pc.wrapping_add(imm as u64))
                } else {
                    ExecFlow::Next
                },
            ))
        },
        Instruction::Jal { rd, imm } => {
            &&& (wrote_reg(before, after, rd, before.pc.wrapping_add(before.current_instruction_length as u64)))
            &&& (r == Ok::<ExecFlow, Trap>(ExecFlow::Jump(before.pc.wrapping_add(imm as u64))))
        },
        Instruction::Jalr { rd, rs1, imm } => {
            &&& (({
                let target = before.regs.spec_read(rs1).wrapping_add(imm as u64) & !1u64;
                if target & 1 != 0 {
                    r == Err::<ExecFlow, Trap>(Trap::InstructionAddressMisaligned(target)) && *after == *before
                } else {
                    &&& r == Ok::<ExecFlow, Trap>(ExecFlow::Jump(target))
                    &&& wrote_reg(before, after, rd, before.pc.wrapping_add(before.current_instruction_length as u64))
                }
            }))
        },
        Instruction::Lui { rd, imm } => {
            &&& (r == Ok::<ExecFlow, Trap>(ExecFlow::Next))
            &&& (wrote_reg(before, after, rd, imm as u64))
        },
        Instruction::Auipc { rd, imm } => {
            &&& (r == Ok::<ExecFlow, Trap>(ExecFlow::Next))
            &&& (wrote_reg(before, after, rd, before.pc.wrapping_add(imm as u64)))
        },
        Instruction::Csrrw { rd, rs1, csr } => {
            &&& (!spec_has_csr_access(before.privilege_mode, csr) ==> r == Err::<ExecFlow, Trap>(Trap::IllegalInstruction(0))
                && *after == *before)
            &&& (spec_has_csr_access(before.privilege_mode, csr) && is_read_only(csr) ==> r == Err::<ExecFlow, Trap>(
                spec_illegal_csr(csr),
            ) && *after == *before)
            &&& (spec_has_csr_access(before.privilege_mode, csr) && !is_read_only(csr) ==> r == Ok::<ExecFlow, Trap>(
                ExecFlow::Next,
            ) && csr_swapped(before, after, rd, before.csr.spec_value(csr), csr, before.regs.spec_read(rs1)))
        },
        Instruction::Csrrs { rd, rs1, csr } => {
            &&& (!spec_has_csr_access(before.privilege_mode, csr) ==> r == Err::<ExecFlow, Trap>(Trap::IllegalInstruction(0))
                && *after == *before)
            &&& (spec_has_csr_access(before.privilege_mode, csr) ==> ({
                let v = before.csr.spec_value(csr);
                if rs1.spec_idx() == 0 {
                    &&& r == Ok::<ExecFlow, Trap>(ExecFlow::Next)
                    &&& after.regs@ == before.regs.spec_written(rd, v)
                    &&& *after == (Cpu { regs: after.regs, ..*before })
                } else if is_read_only(csr) {
                    &&& r == Err::<ExecFlow, Trap>(spec_illegal_csr(csr))
                    &&& after.regs@ == before.regs.spec_written(rd, v)
                    &&& *after == (Cpu { regs: after.regs, ..*before })
                } else {
                    &&& r == Ok::<ExecFlow, Trap>(ExecFlow::Next)
                    &&& csr_swapped(before, after, rd, v, csr, before.csr.spec_value(csr) | read_in(before.regs.spec_written(rd, before.csr.spec_value(csr)), rs1))
                }
            }))
        },
        Instruction::Csrrc { rd, rs1, csr } => {
            &&& (!spec_has_csr_access(before.privilege_mode, csr) ==> r == Err::<ExecFlow, Trap>(Trap::IllegalInstruction(0))
                && *after == *before)
            &&& (spec_has_csr_access(before.privilege_mode, csr) ==> ({
                let v = before.csr.spec_value(csr);
                if rs1.spec_idx() == 0 {
                    &&& r == Ok::<ExecFlow, Trap>(ExecFlow::Next)
                    &&& after.regs@ == before.regs.spec_written(rd, v)
                    &&& *after == (Cpu { regs: after.regs, ..*before })
                } else if is_read_only(csr) {
                    &&& r == Err::<ExecFlow, Trap>(spec_illegal_csr(csr))
                    &&& after.regs@ == before.regs.spec_written(rd, v)
                    &&& *after == (Cpu { regs: after.regs, ..*before })
                } else {
                    &&& r == Ok::<ExecFlow, Trap>(ExecFlow::Next)
                    &&& csr_swapped(before, after, rd, v, csr, before.csr.spec_value(csr) & !(read_in(before.regs.spec_written(rd, before.csr.spec_value(csr)), rs1)))
                }
            }))
        },
        Instruction::Csrrwi { rd, uimm, csr } => {
            &&& (!spec_has_csr_access(before.privilege_mode, csr) ==> r == Err::<ExecFlow, Trap>(Trap::IllegalInstruction(0))
                && *after == *before)
            &&& (spec_has_csr_access(before.privilege_mode, csr) && is_read_only(csr) ==> r == Err::<ExecFlow, Trap>(
                spec_illegal_csr(csr),
            ) && *after == *before)
            &&& (spec_has_csr_access(before.privilege_mode, csr) && !is_read_only(csr) ==> r == Ok::<ExecFlow, Trap>(
                ExecFlow::Next,
            ) && csr_swapped(before, after, rd, before.csr.spec_value(csr), csr, uimm as u64))
        },
        Instruction::Csrrsi { rd, uimm, csr } => {
            &&& (!spec_has_csr_access(before.privilege_mode, csr) ==> r == Err::<ExecFlow, Trap>(Trap::IllegalInstruction(0))
                && *after == *before)
            &&& (spec_has_csr_access(before.privilege_mode, csr) ==> ({
                let v = before.csr.spec_value(csr);
                if uimm == 0 {
                    &&& r == Ok::<ExecFlow, Trap>(ExecFlow::Next)
                    &&& after.regs@ == before.regs.spec_written(rd, v)
                    &&& *after == (Cpu { regs: after.regs, ..*before })
                } else if is_read_only(csr) {
                    &&& r == Err::<ExecFlow, Trap>(spec_illegal_csr(csr))
                    &&& after.regs@ == before.regs.spec_written(rd, v)
                    &&& *after == (Cpu { regs: after.regs, ..*before })
                } else {
                    &&& r == Ok::<ExecFlow, Trap>(ExecFlow::Next)
                    &&& csr_swapped(before, after, rd, v, csr, before.csr.spec_value(csr) | uimm as u64)
                }
            }))
        },
        Instruction::Csrrci { rd, uimm, csr } => {
            &&& (!spec_has_csr_access(before.privilege_mode, csr) ==> r == Err::<ExecFlow, Trap>(Trap::IllegalInstruction(0))
                && *after == *before)
            &&& (spec_has_csr_access(before.privilege_mode, csr) ==> ({
                let v = before.csr.spec_value(csr);
                if uimm == 0 {
                    &&& r == Ok::<ExecFlow, Trap>(ExecFlow::Next)
                    &&& after.regs@ == before.regs.spec_written(rd, v)
                    &&& *after == (Cpu { regs: after.regs, ..*before })
                } else if is_read_only(csr) {
                    &&& r == Err::<ExecFlow, Trap>(spec_illegal_csr(csr))
                    &&& after.regs@ == before.regs.spec_written(rd, v)
                    &&& *after == (Cpu { regs: after.regs, ..*before })
                } else {
                    &&& r == Ok::<ExecFlow, Trap>(ExecFlow::Next)
                    &&& csr_swapped(before, after, rd, v, csr, before.csr.spec_value(csr) & !(uimm as u64))
                }
            }))
        },
        Instruction::SfenceVma { rs1, rs2 } => {
            &&& (r == Ok::<ExecFlow, Trap>(ExecFlow::Next))
            &&& (*after == *before)
        },
        Instruction::Fence { pred, succ, fm } => {
            &&& (r == Ok::<ExecFlow, Trap>(ExecFlow::Next))
            &&& (*after == *before)
        },
        Instruction::Flw { rd, rs1, imm } => {
            &&& (*after == (Cpu { f_regs: after.f_regs, bus: after.bus, ..*before }))
            &&& (exists|t: Result<u32, Trap>|
                #![trigger Bus::read32_post(&before.bus, &after.bus, spec_addr(before, rs1, imm), t)]
                Bus::read32_post(&before.bus, &after.bus, spec_addr(before, rs1, imm), t) && match t {
                    Err(e) => r == Err::<ExecFlow, Trap>(e) && after.f_regs == before.f_regs,
                    Ok(v) => r == Ok::<ExecFlow, Trap>(ExecFlow::Next) && after.f_regs@ == before.f_regs@.update(
                        rd.spec_idx() as int,
                        box_f32(v),
                    ),
                })
        },
        Instruction::Fld { rd, rs1, imm } => {
            &&& (*after == (Cpu { f_regs: after.f_regs, bus: after.bus, ..*before }))
            &&& (exists|t: Result<u64, Trap>|
                #![trigger Bus::read64_post(&before.bus, &after.bus, spec_addr(before, rs1, imm), t)]
                Bus::read64_post(&before.bus, &after.bus, spec_addr(before, rs1, imm), t) && match t {
                    Err(e) => r == Err::<ExecFlow, Trap>(e) && after.f_regs == before.f_regs,
                    Ok(v) => r == Ok::<ExecFlow, Trap>(ExecFlow::Next) && after.f_regs@ == before.f_regs@.update(
                        rd.spec_idx() as int,
                        v,
                    ),
                })
        },
        Instruction::Fsw { rs1, rs2, imm } => {
            &&& (*after == (Cpu { bus: after.bus, ..*before }))
            &&& (r is Ok ==> r == Ok::<ExecFlow, Trap>(ExecFlow::Next))
            &&& (Bus::write32_post(
                &before.bus,
                &after.bus,
                before.regs.spec_read(rs1).wrapping_add(imm as u64),
                single(before, rs2),
                store_result(r),
            ))
        },
        Instruction::Fsd { rs1, rs2, imm } => {
            &&& (*after == (Cpu { bus: after.bus, ..*before }))
            &&& (r is Ok ==> r == Ok::<ExecFlow, Trap>(ExecFlow::Next))
            &&& (Bus::write64_post(
                &before.bus,
                &after.bus,
                spec_addr(before, rs1, imm),
                before.f_regs.spec_bits(rs2),
                store_result(r),
            ))
        },
        Instruction::FmvWX { rd, rs1 } => {
            &&& (r == Ok::<ExecFlow, Trap>(ExecFlow::Next))
            &&& (wrote_freg(before, after, rd, box_f32(before.regs.spec_read(rs1) as u32)))
        },
        Instruction::FmvXW { rd, rs1 } => {
            &&& (r == Ok::<ExecFlow, Trap>(ExecFlow::Next))
            &&& (wrote_reg(before, after, rd, raw_single(before, rs1) as i32 as i64 as u64))
        },
        Instruction::FsgnjS { rd, rs1, rs2 } => {
            &&& (r == Ok::<ExecFlow, Trap>(ExecFlow::Next))
            &&& (wrote_freg(
                before,
                after,
                rd,
                box_f32((raw_single(before, rs1) & 0x7fff_ffff) | (raw_single(before, rs2) & 0x8000_0000)),
            ))
        },
        Instruction::FsgnjnS { rd, rs1, rs2 } => {
            &&& (r == Ok::<ExecFlow, Trap>(ExecFlow::Next))
            &&& (wrote_freg(
                before,
                after,
                rd,
                box_f32((raw_single(before, rs1) & 0x7fff_ffff) | (!raw_single(before, rs2) & 0x8000_0000)),
            ))
        },
        Instruction::FsgnjxS { rd, rs1, rs2 } => {
            &&& (r == Ok::<ExecFlow, Trap>(ExecFlow::Next))
            &&& (wrote_freg(
                before,
                after,
                rd,
                box_f32(
                    (raw_single(before, rs1) & 0x7fff_ffff) | ((raw_single(before, rs1) ^ raw_single(before, rs2))
                        & 0x8000_0000),
                ),
            ))
        },
        Instruction::FminS { rd, rs1, rs2 } => {
            &&& (r == Ok::<ExecFlow, Trap>(ExecFlow::Next))
            &&& (after.f_regs@ == before.f_regs@.update(
                rd.spec_idx() as int,
                box_f32(min_f32(single(before, rs1), single(before, rs2))),
            ))
            &&& (accrued(
                before,
                &Cpu { f_regs: after.f_regs, ..*before },
                after,
                minmax_flags(single(before, rs1), single(before, rs2)),
            ))
        },
        Instruction::FmaxS { rd, rs1, rs2 } => {
            &&& (r == Ok::<ExecFlow, Trap>(ExecFlow::Next))
            &&& (after.f_regs@ == before.f_regs@.update(
                rd.spec_idx() as int,
                box_f32(max_f32(single(before, rs1), single(before, rs2))),
            ))
            &&& (accrued(
                before,
                &Cpu { f_regs: after.f_regs, ..*before },
                after,
                minmax_flags(single(before, rs1), single(before, rs2)),
            ))
        },
        Instruction::FeqS { rd, rs1, rs2 } => {
            &&& (r == Ok::<ExecFlow, Trap>(ExecFlow::Next))
            &&& (({
                let a = single(before, rs1);
                let b = single(before, rs2);
                let v: u64 = if !is_nan_f32(a) && !is_nan_f32(b) && eq_f32(a, b) { 1 } else { 0 };
                &&& after.regs@ == before.regs.spec_written(rd, v)
                &&& accrued(
                    before,
                    &Cpu { regs: after.regs, ..*before },
                    after,
                    if is_snan_f32(a) || is_snan_f32(b) { FLAG_INVALID } else { 0 },
                )
            }))
        },
        Instruction::FltS { rd, rs1, rs2 } => {
            &&& (r == Ok::<ExecFlow, Trap>(ExecFlow::Next))
            &&& (({
                let a = single(before, rs1);
                let b = single(before, rs2);
                let v: u64 = if !is_nan_f32(a) && !is_nan_f32(b) && lt_f32(a, b) { 1 } else { 0 };
                &&& after.regs@ == before.regs.spec_written(rd, v)
                &&& accrued(
                    before,
                    &Cpu { regs: after.regs, ..*before },
                    after,
                    if is_nan_f32(a) || is_nan_f32(b) { FLAG_INVALID } else { 0 },
                )
            }))
        },
        Instruction::FleS { rd, rs1, rs2 } => {
            &&& (r == Ok::<ExecFlow, Trap>(ExecFlow::Next))
            &&& (({
                let a = single(before, rs1);
                let b = single(before, rs2);
                let v: u64 = if !is_nan_f32(a) && !is_nan_f32(b) && (lt_f32(a, b) || eq_f32(a, b)) { 1 } else { 0 };
                &&& after.regs@ == before.regs.spec_written(rd, v)
                &&& accrued(
                    before,
                    &Cpu { regs: after.regs, ..*before },
                    after,
                    if is_nan_f32(a) || is_nan_f32(b) { FLAG_INVALID } else { 0 },
                )
            }))
        },
        Instruction::FclassS { rd, rs1 } => {
            &&& (r == Ok::<ExecFlow, Trap>(ExecFlow::Next))
            &&& (wrote_reg(before, after, rd, class_f32(single(before, rs1))))
        },
        Instruction::FmvXD { rd, rs1 } => {
            &&& (r == Ok::<ExecFlow, Trap>(ExecFlow::Next))
            &&& (wrote_reg(before, after, rd, before.f_regs.spec_bits(rs1)))
        },
        Instruction::FmvDX { rd, rs1 } => {
            &&& (r == Ok::<ExecFlow, Trap>(ExecFlow::Next))
            &&& (wrote_freg(before, after, rd, before.regs.spec_read(rs1)))
        },
        Instruction::FsgnjD { rd, rs1, rs2 } => {
            &&& (r == Ok::<ExecFlow, Trap>(ExecFlow::Next))
            &&& (wrote_freg(
                before,
                after,
                rd,
                (double(before, rs1) & 0x7fff_ffff_ffff_ffff) | (double(before, rs2) & 0x8000_0000_0000_0000),
            ))
        },
        Instruction::FsgnjnD { rd, rs1, rs2 } => {
            &&& (r == Ok::<ExecFlow, Trap>(ExecFlow::Next))
            &&& (wrote_freg(
                before,
                after,
                rd,
                (double(before, rs1) & 0x7fff_ffff_ffff_ffff) | (!double(before, rs2) & 0x8000_0000_0000_0000),
            ))
        },
        Instruction::FsgnjxD { rd, rs1, rs2 } => {
            &&& (r == Ok::<ExecFlow, Trap>(ExecFlow::Next))
            &&& (wrote_freg(
                before,
                after,
                rd,
                (double(before, rs1) & 0x7fff_ffff_ffff_ffff) | ((double(before, rs1) ^ double(before, rs2))
                    & 0x8000_0000_0000_0000),
            ))
        },
        Instruction::FminD { rd, rs1, rs2 } => {
            &&& (r == Ok::<ExecFlow, Trap>(ExecFlow::Next))
            &&& (after.f_regs@ == before.f_regs@.update(
                rd.spec_idx() as int,
                min_f64(double(before, rs1), double(before, rs2)),
            ))
            &&& (accrued(
                before,
                &Cpu { f_regs: after.f_regs, ..*before },
                after,
                minmax_flags_f64(double(before, rs1), double(before, rs2)),
            ))
        },
        Instruction::FmaxD { rd, rs1, rs2 } => {
            &&& (r == Ok::<ExecFlow, Trap>(ExecFlow::Next))
            &&& (after.f_regs@ == before.f_regs@.update(
                rd.spec_idx() as int,
                max_f64(double(before, rs1), double(before, rs2)),
            ))
            &&& (accrued(
                before,
                &Cpu { f_regs: after.f_regs, ..*before },
                after,
                minmax_flags_f64(double(before, rs1), double(before, rs2)),
            ))
        },
        Instruction::FeqD { rd, rs1, rs2 } => {
            &&& (r == Ok::<ExecFlow, Trap>(ExecFlow::Next))
            &&& (({
                let a = double(before, rs1);
                let b = double(before, rs2);
                let v: u64 = if !is_nan_f64(a) && !is_nan_f64(b) && eq_f64(a, b) { 1 } else { 0 };
                &&& after.regs@ == before.regs.spec_written(rd, v)
                &&& accrued(
                    before,
                    &Cpu { regs: after.regs, ..*before },
                    after,
                    if is_snan_f64(a) || is_snan_f64(b) { FLAG_INVALID } else { 0 },
                )
            }))
        },
        Instruction::FltD { rd, rs1, rs2 } => {
            &&& (r == Ok::<ExecFlow, Trap>(ExecFlow::Next))
            &&& (({
                let a = double(before, rs1);
                let b = double(before, rs2);
                let v: u64 = if !is_nan_f64(a) && !is_nan_f64(b) && lt_f64(a, b) { 1 } else { 0 };
                &&& after.regs@ == before.regs.spec_written(rd, v)
                &&& accrued(
                    before,
                    &Cpu { regs: after.regs, ..*before },
                    after,
                    if is_nan_f64(a) || is_nan_f64(b) { FLAG_INVALID } else { 0 },
                )
            }))
        },
        Instruction::FleD { rd, rs1, rs2 } => {
            &&& (r == Ok::<ExecFlow, Trap>(ExecFlow::Next))
            &&& (({
                let a = double(before, rs1);
                let b = double(before, rs2);
                let v: u64 = if !is_nan_f64(a) && !is_nan_f64(b) && (lt_f64(a, b) || eq_f64(a, b)) { 1 } else { 0 };
                &&& after.regs@ == before.regs.spec_written(rd, v)
                &&& accrued(
                    before,
                    &Cpu { regs: after.regs, ..*before },
                    after,
                    if is_nan_f64(a) || is_nan_f64(b) { FLAG_INVALID } else { 0 },
                )
            }))
        },
        Instruction::FclassD { rd, rs1 } => {
            &&& (r == Ok::<ExecFlow, Trap>(ExecFlow::Next))
            &&& (wrote_reg(before, after, rd, class_f64(double(before, rs1))))
        },
        Instruction::Ecall => {
            &&& (*after == *before)
            &&& (r == Err::<ExecFlow, Trap>(
                match before.privilege_mode {
                    PrivilegeMode::User => Trap::EcallFromUMode,
                    PrivilegeMode::Supervisor => Trap::EcallFromSMode,
                    PrivilegeMode::Machine => Trap::EcallFromMMode,
                },
            ))
        },
        Instruction::Ebreak => {
            &&& (r == Err::<ExecFlow, Trap>(Trap::Breakpoint))
            &&& (*after == *before)
        },
        Instruction::Sret => {
            &&& (r == Ok::<ExecFlow, Trap>(ExecFlow::Jump(before.csr.sepc)))
            &&& (after.privilege_mode == if (before.csr.mstatus >> 8u64) & 1 == 0 {
                PrivilegeMode::User
            } else {
                PrivilegeMode::Supervisor
            })
            &&& (*after == (Cpu {
                privilege_mode: after.privilege_mode,
                csr: Csr { mstatus: mstatus_sret(before.csr.mstatus), ..before.csr },
                ..*before
            }))
        },
        Instruction::Mret => {
            &&& (({
                let mpp = (before.csr.mstatus & MSTATUS_MPP_MASK) >> MSTATUS_MPP_SHIFT;
                if mpp == 2 {
                    r == Err::<ExecFlow, Trap>(Trap::IllegalInstruction(0)) && *after == *before
                } else {
                    &&& r == Ok::<ExecFlow, Trap>(ExecFlow::Jump(before.csr.mepc))
                    &&& after.privilege_mode == if mpp == 0 {
                        PrivilegeMode::User
                    } else if mpp == 1 {
                        PrivilegeMode::Supervisor
                    } else {
                        PrivilegeMode::Machine
                    }
                    &&& *after == (Cpu {
                        privilege_mode: after.privilege_mode,
                        csr: Csr { mstatus: mstatus_mret(before.csr.mstatus), ..before.csr },
                        ..*before
                    })
                }
            }))
        },
        Instruction::Wfi => {
            &&& (r == Ok::<ExecFlow, Trap>(ExecFlow::Next))
            &&& (*after == *before)
        },
        Instruction::FenceI => {
            &&& (r == Ok::<ExecFlow, Trap>(ExecFlow::Next))
            &&& (*after == *before)
        },
        Instruction::Undefined { raw } => {
            &&& r == Err::<ExecFlow, Trap>(Trap::IllegalInstruction(raw))
            &&& *after == *before
        },
        _ => match host_rounding(d.instruction) {
            Some(rm) => {
                let legal = match rm {
                    Some(m) => spec_rounding_mode(before.csr.frm, m) is Some,
                    None => true,
                };
                &&& legal ==> r == Ok::<ExecFlow, Trap>(ExecFlow::Host) && *after == (Cpu {
                    host_request: Some(d),
                    ..*before
                })
                &&& !legal ==> r == Err::<ExecFlow, Trap>(Trap::IllegalInstruction(0)) && *after == *before
            },
            None => true,
        },
    }
}

} // verus!
