use vstd::prelude::*;

use crate::cpu::register::Reg;
use crate::decode::c_formats::{quadrant, funct3c, creg, cfreg, cl_frd, cs_frs2, ci_frd, css_frs2, ciw_rd, ciw_nzuimm, cl_rd, cl_rs1, cl_lw_offset, cl_ld_offset, cs_rs2, cs_rs1, cs_sw_offset, cs_sd_offset, cr_rd_rs1, cr_rs2, cr_funct4, ci_rd, ci_rs1, ci_lwsp_offset, ci_ldsp_offset, ci_imm, ci_shamt, ci_addi16sp_imm, ci_lui_imm, css_rs2, css_swsp_offset, css_sdsp_offset, ca_rd_rs1, ca_rs2, ca_funct2, ca_funct6, ca_bit12, cb_funct2, cb_rs1, cb_imm, cb_shamt, cb_offset, cj_offset, spec_quadrant, spec_funct3c, spec_creg, spec_cfreg, spec_cl_frd, spec_cs_frs2, spec_ci_frd, spec_css_frs2, spec_ciw_rd, spec_ciw_nzuimm, spec_cl_rd, spec_cl_rs1, spec_cl_lw_offset, spec_cl_ld_offset, spec_cs_rs2, spec_cs_rs1, spec_cs_sw_offset, spec_cs_sd_offset, spec_cr_rd_rs1, spec_cr_rs2, spec_cr_funct4, spec_ci_rd, spec_ci_rs1, spec_ci_lwsp_offset, spec_ci_ldsp_offset, spec_ci_imm, spec_ci_shamt, spec_ci_addi16sp_imm, spec_ci_lui_imm, spec_css_rs2, spec_css_swsp_offset, spec_css_sdsp_offset, spec_ca_rd_rs1, spec_ca_rs2, spec_ca_funct2, spec_ca_funct6, spec_ca_bit12, spec_cb_funct2, spec_cb_rs1, spec_cb_imm, spec_cb_shamt, spec_cb_offset, spec_cj_offset};
use crate::instruction::Instruction;

verus! {

/// C.LW.
pub open spec fn spec_decode_c_lw(raw: u16) -> Instruction {
    Instruction::Lw { rd: cl_rd(raw), rs1: cl_rs1(raw), imm: cl_lw_offset(raw) as i64 }
}

/// C.LW.
fn decode_c_lw(raw: u16) -> (r: Instruction)
    ensures
        r == spec_decode_c_lw(raw),
{
    Instruction::Lw { rd: cl_rd(raw), rs1: cl_rs1(raw), imm: cl_lw_offset(raw) as i64 }
}

/// C.LD.
pub open spec fn spec_decode_c_ld(raw: u16) -> Instruction {
    Instruction::Ld { rd: cl_rd(raw), rs1: cl_rs1(raw), imm: cl_ld_offset(raw) as i64 }
}

/// C.LD.
fn decode_c_ld(raw: u16) -> (r: Instruction)
    ensures
        r == spec_decode_c_ld(raw),
{
    Instruction::Ld { rd: cl_rd(raw), rs1: cl_rs1(raw), imm: cl_ld_offset(raw) as i64 }
}

/// C.SW.
pub open spec fn spec_decode_c_sw(raw: u16) -> Instruction {
    Instruction::Sw { rs1: cs_rs1(raw), rs2: cs_rs2(raw), imm: cs_sw_offset(raw) as i64 }
}

/// C.SW.
fn decode_c_sw(raw: u16) -> (r: Instruction)
    ensures
        r == spec_decode_c_sw(raw),
{
    Instruction::Sw { rs1: cs_rs1(raw), rs2: cs_rs2(raw), imm: cs_sw_offset(raw) as i64 }
}

/// C.SD.
pub open spec fn spec_decode_c_sd(raw: u16) -> Instruction {
    Instruction::Sd { rs1: cs_rs1(raw), rs2: cs_rs2(raw), imm: cs_sd_offset(raw) as i64 }
}

/// C.SD.
fn decode_c_sd(raw: u16) -> (r: Instruction)
    ensures
        r == spec_decode_c_sd(raw),
{
    Instruction::Sd { rs1: cs_rs1(raw), rs2: cs_rs2(raw), imm: cs_sd_offset(raw) as i64 }
}

/// C.ADDI4SPN: addi rd', sp, nzuimm.
pub open spec fn spec_decode_c_addi4spn(raw: u16) -> Instruction {
    Instruction::Addi { rd: ciw_rd(raw), rs1: Reg::new(2), imm: ciw_nzuimm(raw) as i64 }
}

/// C.ADDI4SPN: addi rd', sp, nzuimm.
fn decode_c_addi4spn(raw: u16) -> (r: Instruction)
    ensures
        r == spec_decode_c_addi4spn(raw),
{
    Instruction::Addi { rd: ciw_rd(raw), rs1: Reg::new(2), imm: ciw_nzuimm(raw) as i64 }
}

/// C.FLD.
pub open spec fn spec_decode_c_fld(raw: u16) -> Instruction {
    Instruction::Fld { rd: cl_frd(raw), rs1: cl_rs1(raw), imm: cl_ld_offset(raw) as i64 }
}

/// C.FLD.
fn decode_c_fld(raw: u16) -> (r: Instruction)
    ensures
        r == spec_decode_c_fld(raw),
{
    Instruction::Fld { rd: cl_frd(raw), rs1: cl_rs1(raw), imm: cl_ld_offset(raw) as i64 }
}

/// C.FSD.
pub open spec fn spec_decode_c_fsd(raw: u16) -> Instruction {
    Instruction::Fsd { rs1: cs_rs1(raw), rs2: cs_frs2(raw), imm: cs_sd_offset(raw) as i64 }
}

/// C.FSD.
fn decode_c_fsd(raw: u16) -> (r: Instruction)
    ensures
        r == spec_decode_c_fsd(raw),
{
    Instruction::Fsd { rs1: cs_rs1(raw), rs2: cs_frs2(raw), imm: cs_sd_offset(raw) as i64 }
}

/// C.ADDI: addi rd, rd, imm.
pub open spec fn spec_decode_c_addi(raw: u16) -> Instruction {
    let rd = ci_rd(raw);
    Instruction::Addi { rd, rs1: rd, imm: ci_imm(raw) }
}

/// C.ADDI: addi rd, rd, imm.
fn decode_c_addi(raw: u16) -> (r: Instruction)
    ensures
        r == spec_decode_c_addi(raw),
{
    let rd = ci_rd(raw);
    Instruction::Addi { rd, rs1: rd, imm: ci_imm(raw) }
}

/// C.ADDIW: addiw rd, rd, imm.
pub open spec fn spec_decode_c_addiw(raw: u16) -> Instruction {
    let rd = ci_rd(raw);
    Instruction::Addiw { rd, rs1: rd, imm: ci_imm(raw) }
}

/// C.ADDIW: addiw rd, rd, imm.
fn decode_c_addiw(raw: u16) -> (r: Instruction)
    ensures
        r == spec_decode_c_addiw(raw),
{
    let rd = ci_rd(raw);
    Instruction::Addiw { rd, rs1: rd, imm: ci_imm(raw) }
}

/// C.LI: addi rd, x0, imm.
pub open spec fn spec_decode_c_li(raw: u16) -> Instruction {
    Instruction::Addi { rd: ci_rd(raw), rs1: Reg::new(0), imm: ci_imm(raw) }
}

/// C.LI: addi rd, x0, imm.
fn decode_c_li(raw: u16) -> (r: Instruction)
    ensures
        r == spec_decode_c_li(raw),
{
    Instruction::Addi { rd: ci_rd(raw), rs1: Reg::new(0), imm: ci_imm(raw) }
}

/// C.LUI, or C.ADDI16SP when rd is sp.
pub open spec fn spec_decode_c_lui_addi16sp(raw: u16) -> Instruction {
    let rd = ci_rd(raw);
    if rd.is_sp() {
        Instruction::Addi { rd, rs1: rd, imm: ci_addi16sp_imm(raw) }
    } else {
        Instruction::Lui { rd, imm: ci_lui_imm(raw) }
    }
}

/// C.LUI, or C.ADDI16SP when rd is sp.
fn decode_c_lui_addi16sp(raw: u16) -> (r: Instruction)
    ensures
        r == spec_decode_c_lui_addi16sp(raw),
{
    let rd = ci_rd(raw);
    if rd.is_sp() {
        Instruction::Addi { rd, rs1: rd, imm: ci_addi16sp_imm(raw) }
    } else {
        Instruction::Lui { rd, imm: ci_lui_imm(raw) }
    }
}

/// C.J: jal x0, offset.
pub open spec fn spec_decode_c_j(raw: u16) -> Instruction {
    Instruction::Jal { rd: Reg::new(0), imm: cj_offset(raw) }
}

/// C.J: jal x0, offset.
fn decode_c_j(raw: u16) -> (r: Instruction)
    ensures
        r == spec_decode_c_j(raw),
{
    Instruction::Jal { rd: Reg::new(0), imm: cj_offset(raw) }
}

/// C.BEQZ: beq rs1', x0, offset.
pub open spec fn spec_decode_c_beqz(raw: u16) -> Instruction {
    Instruction::Beq { rs1: cb_rs1(raw), rs2: Reg::new(0), imm: cb_offset(raw) }
}

/// C.BEQZ: beq rs1', x0, offset.
fn decode_c_beqz(raw: u16) -> (r: Instruction)
    ensures
        r == spec_decode_c_beqz(raw),
{
    Instruction::Beq { rs1: cb_rs1(raw), rs2: Reg::new(0), imm: cb_offset(raw) }
}

/// C.BNEZ: bne rs1', x0, offset.
pub open spec fn spec_decode_c_bnez(raw: u16) -> Instruction {
    Instruction::Bne { rs1: cb_rs1(raw), rs2: Reg::new(0), imm: cb_offset(raw) }
}

/// C.BNEZ: bne rs1', x0, offset.
fn decode_c_bnez(raw: u16) -> (r: Instruction)
    ensures
        r == spec_decode_c_bnez(raw),
{
    Instruction::Bne { rs1: cb_rs1(raw), rs2: Reg::new(0), imm: cb_offset(raw) }
}

/// C.SRLI.
pub open spec fn spec_decode_c_srli(raw: u16) -> Instruction {
    let rd = cb_rs1(raw);
    Instruction::Srli { rd, rs1: rd, shamt: cb_shamt(raw) }
}

/// C.SRLI.
fn decode_c_srli(raw: u16) -> (r: Instruction)
    ensures
        r == spec_decode_c_srli(raw),
{
    let rd = cb_rs1(raw);
    Instruction::Srli { rd, rs1: rd, shamt: cb_shamt(raw) }
}

/// C.SRAI.
pub open spec fn spec_decode_c_srai(raw: u16) -> Instruction {
    let rd = cb_rs1(raw);
    Instruction::Srai { rd, rs1: rd, shamt: cb_shamt(raw) }
}

/// C.SRAI.
fn decode_c_srai(raw: u16) -> (r: Instruction)
    ensures
        r == spec_decode_c_srai(raw),
{
    let rd = cb_rs1(raw);
    Instruction::Srai { rd, rs1: rd, shamt: cb_shamt(raw) }
}

/// C.ANDI.
pub open spec fn spec_decode_c_andi(raw: u16) -> Instruction {
    let rd = cb_rs1(raw);
    Instruction::Andi { rd, rs1: rd, imm: cb_imm(raw) }
}

/// C.ANDI.
fn decode_c_andi(raw: u16) -> (r: Instruction)
    ensures
        r == spec_decode_c_andi(raw),
{
    let rd = cb_rs1(raw);
    Instruction::Andi { rd, rs1: rd, imm: cb_imm(raw) }
}

/// C.SUB, C.XOR, C.OR, C.AND.
pub open spec fn spec_decode_c_rv32_arithmetic(raw: u16) -> Instruction {
    let rd = ca_rd_rs1(raw);
    let rs2 = ca_rs2(raw);
    let f2 = ca_funct2(raw);
    if f2 == 0 {
        Instruction::Sub { rd, rs1: rd, rs2 }
    } else if f2 == 1 {
        Instruction::Xor { rd, rs1: rd, rs2 }
    } else if f2 == 2 {
        Instruction::Or { rd, rs1: rd, rs2 }
    } else {
        Instruction::And { rd, rs1: rd, rs2 }
    }
}

/// C.SUB, C.XOR, C.OR, C.AND.
fn decode_c_rv32_arithmetic(raw: u16) -> (r: Instruction)
    ensures
        r == spec_decode_c_rv32_arithmetic(raw),
{
    let rd = ca_rd_rs1(raw);
    let rs2 = ca_rs2(raw);
    let f2 = ca_funct2(raw);
    if f2 == 0 {
        Instruction::Sub { rd, rs1: rd, rs2 }
    } else if f2 == 1 {
        Instruction::Xor { rd, rs1: rd, rs2 }
    } else if f2 == 2 {
        Instruction::Or { rd, rs1: rd, rs2 }
    } else {
        Instruction::And { rd, rs1: rd, rs2 }
    }
}

/// C.SUBW and C.ADDW; the other two encodings are reserved.
pub open spec fn spec_decode_c_rv64_arithmetic(raw: u16) -> Instruction {
    let rd = ca_rd_rs1(raw);
    let rs2 = ca_rs2(raw);
    let f2 = ca_funct2(raw);
    if f2 == 0 {
        Instruction::Subw { rd, rs1: rd, rs2 }
    } else if f2 == 1 {
        Instruction::Addw { rd, rs1: rd, rs2 }
    } else {
        Instruction::Undefined { raw: raw as u32 }
    }
}

/// C.SUBW and C.ADDW; the other two encodings are reserved.
fn decode_c_rv64_arithmetic(raw: u16) -> (r: Instruction)
    ensures
        r == spec_decode_c_rv64_arithmetic(raw),
{
    let rd = ca_rd_rs1(raw);
    let rs2 = ca_rs2(raw);
    let f2 = ca_funct2(raw);
    if f2 == 0 {
        Instruction::Subw { rd, rs1: rd, rs2 }
    } else if f2 == 1 {
        Instruction::Addw { rd, rs1: rd, rs2 }
    } else {
        Instruction::Undefined { raw: raw as u32 }
    }
}

/// The register-register group of quadrant 1, split by bit 12.
pub open spec fn spec_decode_c_arithmetic(raw: u16) -> Instruction {
    if ca_bit12(raw) {
        spec_decode_c_rv64_arithmetic(raw)
    } else {
        spec_decode_c_rv32_arithmetic(raw)
    }
}

/// The register-register group of quadrant 1, split by bit 12.
fn decode_c_arithmetic(raw: u16) -> (r: Instruction)
    ensures
        r == spec_decode_c_arithmetic(raw),
{
    if ca_bit12(raw) {
        decode_c_rv64_arithmetic(raw)
    } else {
        decode_c_rv32_arithmetic(raw)
    }
}

/// The ALU group of quadrant 1 (C.SRLI, C.SRAI, C.ANDI, register-register).
pub open spec fn spec_decode_c_alu(raw: u16) -> Instruction {
    let f2 = cb_funct2(raw);
    if f2 == 0 {
        spec_decode_c_srli(raw)
    } else if f2 == 1 {
        spec_decode_c_srai(raw)
    } else if f2 == 2 {
        spec_decode_c_andi(raw)
    } else {
        spec_decode_c_arithmetic(raw)
    }
}

/// The ALU group of quadrant 1 (C.SRLI, C.SRAI, C.ANDI, register-register).
fn decode_c_alu(raw: u16) -> (r: Instruction)
    ensures
        r == spec_decode_c_alu(raw),
{
    let f2 = cb_funct2(raw);
    if f2 == 0 {
        decode_c_srli(raw)
    } else if f2 == 1 {
        decode_c_srai(raw)
    } else if f2 == 2 {
        decode_c_andi(raw)
    } else {
        decode_c_arithmetic(raw)
    }
}

/// C.SLLI.
pub open spec fn spec_decode_c_slli(raw: u16) -> Instruction {
    let rd = ci_rd(raw);
    Instruction::Slli { rd, rs1: rd, shamt: ci_shamt(raw) }
}

/// C.SLLI.
fn decode_c_slli(raw: u16) -> (r: Instruction)
    ensures
        r == spec_decode_c_slli(raw),
{
    let rd = ci_rd(raw);
    Instruction::Slli { rd, rs1: rd, shamt: ci_shamt(raw) }
}

/// C.FLDSP.
pub open spec fn spec_decode_c_fldsp(raw: u16) -> Instruction {
    Instruction::Fld { rd: ci_frd(raw), rs1: Reg::new(2), imm: ci_ldsp_offset(raw) as i64 }
}

/// C.FLDSP.
fn decode_c_fldsp(raw: u16) -> (r: Instruction)
    ensures
        r == spec_decode_c_fldsp(raw),
{
    Instruction::Fld { rd: ci_frd(raw), rs1: Reg::new(2), imm: ci_ldsp_offset(raw) as i64 }
}

/// C.LWSP.
pub open spec fn spec_decode_c_lwsp(raw: u16) -> Instruction {
    Instruction::Lw { rd: ci_rd(raw), rs1: Reg::new(2), imm: ci_lwsp_offset(raw) as i64 }
}

/// C.LWSP.
fn decode_c_lwsp(raw: u16) -> (r: Instruction)
    ensures
        r == spec_decode_c_lwsp(raw),
{
    Instruction::Lw { rd: ci_rd(raw), rs1: Reg::new(2), imm: ci_lwsp_offset(raw) as i64 }
}

/// C.LDSP.
pub open spec fn spec_decode_c_ldsp(raw: u16) -> Instruction {
    Instruction::Ld { rd: ci_rd(raw), rs1: Reg::new(2), imm: ci_ldsp_offset(raw) as i64 }
}

/// C.LDSP.
fn decode_c_ldsp(raw: u16) -> (r: Instruction)
    ensures
        r == spec_decode_c_ldsp(raw),
{
    Instruction::Ld { rd: ci_rd(raw), rs1: Reg::new(2), imm: ci_ldsp_offset(raw) as i64 }
}

/// C.FSDSP.
pub open spec fn spec_decode_c_fsdsp(raw: u16) -> Instruction {
    Instruction::Fsd { rs1: Reg::new(2), rs2: css_frs2(raw), imm: css_sdsp_offset(raw) as i64 }
}

/// C.FSDSP.
fn decode_c_fsdsp(raw: u16) -> (r: Instruction)
    ensures
        r == spec_decode_c_fsdsp(raw),
{
    Instruction::Fsd { rs1: Reg::new(2), rs2: css_frs2(raw), imm: css_sdsp_offset(raw) as i64 }
}

/// C.SWSP.
pub open spec fn spec_decode_c_swsp(raw: u16) -> Instruction {
    Instruction::Sw { rs1: Reg::new(2), rs2: css_rs2(raw), imm: css_swsp_offset(raw) as i64 }
}

/// C.SWSP.
fn decode_c_swsp(raw: u16) -> (r: Instruction)
    ensures
        r == spec_decode_c_swsp(raw),
{
    Instruction::Sw { rs1: Reg::new(2), rs2: css_rs2(raw), imm: css_swsp_offset(raw) as i64 }
}

/// C.SDSP.
pub open spec fn spec_decode_c_sdsp(raw: u16) -> Instruction {
    Instruction::Sd { rs1: Reg::new(2), rs2: css_rs2(raw), imm: css_sdsp_offset(raw) as i64 }
}

/// C.SDSP.
fn decode_c_sdsp(raw: u16) -> (r: Instruction)
    ensures
        r == spec_decode_c_sdsp(raw),
{
    Instruction::Sd { rs1: Reg::new(2), rs2: css_rs2(raw), imm: css_sdsp_offset(raw) as i64 }
}

/// C.JR, C.MV, C.EBREAK, C.JALR and C.ADD.
pub open spec fn spec_decode_c_jr_mv_add(raw: u16) -> Instruction {
    let rd = cr_rd_rs1(raw);
    let rs2 = cr_rs2(raw);
    let bit12 = ((raw >> 12) & 1) != 0;
    if !bit12 {
        if rs2.is_zero() {
            Instruction::Jalr { rd: Reg::new(0), rs1: rd, imm: 0 }
        } else {
            Instruction::Add { rd, rs1: Reg::new(0), rs2 }
        }
    } else if rd.is_zero() && rs2.is_zero() {
        Instruction::Ebreak
    } else if rs2.is_zero() {
        Instruction::Jalr { rd: Reg::new(1), rs1: rd, imm: 0 }
    } else {
        Instruction::Add { rd, rs1: rd, rs2 }
    }
}

/// C.JR, C.MV, C.EBREAK, C.JALR and C.ADD.
fn decode_c_jr_mv_add(raw: u16) -> (r: Instruction)
    ensures
        r == spec_decode_c_jr_mv_add(raw),
{
    let rd = cr_rd_rs1(raw);
    let rs2 = cr_rs2(raw);
    let bit12 = ((raw >> 12) & 1) != 0;
    if !bit12 {
        if rs2.is_zero() {
            Instruction::Jalr { rd: Reg::new(0), rs1: rd, imm: 0 }
        } else {
            Instruction::Add { rd, rs1: Reg::new(0), rs2 }
        }
    } else if rd.is_zero() && rs2.is_zero() {
        Instruction::Ebreak
    } else if rs2.is_zero() {
        Instruction::Jalr { rd: Reg::new(1), rs1: rd, imm: 0 }
    } else {
        Instruction::Add { rd, rs1: rd, rs2 }
    }
}

/// Quadrant 0 (funct3 100 is reserved).
pub open spec fn spec_decode_q0(raw: u16) -> Instruction {
    let f = funct3c(raw);
    if f == 0 {
        spec_decode_c_addi4spn(raw)
    } else if f == 1 {
        spec_decode_c_fld(raw)
    } else if f == 2 {
        spec_decode_c_lw(raw)
    } else if f == 3 {
        spec_decode_c_ld(raw)
    } else if f == 5 {
        spec_decode_c_fsd(raw)
    } else if f == 6 {
        spec_decode_c_sw(raw)
    } else if f == 7 {
        spec_decode_c_sd(raw)
    } else {
        Instruction::Undefined { raw: raw as u32 }
    }
}

/// Quadrant 0 (funct3 100 is reserved).
fn decode_q0(raw: u16) -> (r: Instruction)
    ensures
        r == spec_decode_q0(raw),
{
    let f = funct3c(raw);
    if f == 0 {
        decode_c_addi4spn(raw)
    } else if f == 1 {
        decode_c_fld(raw)
    } else if f == 2 {
        decode_c_lw(raw)
    } else if f == 3 {
        decode_c_ld(raw)
    } else if f == 5 {
        decode_c_fsd(raw)
    } else if f == 6 {
        decode_c_sw(raw)
    } else if f == 7 {
        decode_c_sd(raw)
    } else {
        Instruction::Undefined { raw: raw as u32 }
    }
}

/// Quadrant 1.
pub open spec fn spec_decode_q1(raw: u16) -> Instruction {
    let f = funct3c(raw);
    if f == 0 {
        spec_decode_c_addi(raw)
    } else if f == 1 {
        spec_decode_c_addiw(raw)
    } else if f == 2 {
        spec_decode_c_li(raw)
    } else if f == 3 {
        spec_decode_c_lui_addi16sp(raw)
    } else if f == 4 {
        spec_decode_c_alu(raw)
    } else if f == 5 {
        spec_decode_c_j(raw)
    } else if f == 6 {
        spec_decode_c_beqz(raw)
    } else {
        spec_decode_c_bnez(raw)
    }
}

/// Quadrant 1.
fn decode_q1(raw: u16) -> (r: Instruction)
    ensures
        r == spec_decode_q1(raw),
{
    let f = funct3c(raw);
    if f == 0 {
        decode_c_addi(raw)
    } else if f == 1 {
        decode_c_addiw(raw)
    } else if f == 2 {
        decode_c_li(raw)
    } else if f == 3 {
        decode_c_lui_addi16sp(raw)
    } else if f == 4 {
        decode_c_alu(raw)
    } else if f == 5 {
        decode_c_j(raw)
    } else if f == 6 {
        decode_c_beqz(raw)
    } else {
        decode_c_bnez(raw)
    }
}

/// Quadrant 2.
pub open spec fn spec_decode_q2(raw: u16) -> Instruction {
    let f = funct3c(raw);
    if f == 0 {
        spec_decode_c_slli(raw)
    } else if f == 1 {
        spec_decode_c_fldsp(raw)
    } else if f == 2 {
        spec_decode_c_lwsp(raw)
    } else if f == 3 {
        spec_decode_c_ldsp(raw)
    } else if f == 4 {
        spec_decode_c_jr_mv_add(raw)
    } else if f == 5 {
        spec_decode_c_fsdsp(raw)
    } else if f == 6 {
        spec_decode_c_swsp(raw)
    } else {
        spec_decode_c_sdsp(raw)
    }
}

/// Quadrant 2.
fn decode_q2(raw: u16) -> (r: Instruction)
    ensures
        r == spec_decode_q2(raw),
{
    let f = funct3c(raw);
    if f == 0 {
        decode_c_slli(raw)
    } else if f == 1 {
        decode_c_fldsp(raw)
    } else if f == 2 {
        decode_c_lwsp(raw)
    } else if f == 3 {
        decode_c_ldsp(raw)
    } else if f == 4 {
        decode_c_jr_mv_add(raw)
    } else if f == 5 {
        decode_c_fsdsp(raw)
    } else if f == 6 {
        decode_c_swsp(raw)
    } else {
        decode_c_sdsp(raw)
    }
}
/// Expands a 16-bit compressed instruction (quadrants 0, 1 and 2).
pub open spec fn spec_decode_compressed(raw: u16) -> Instruction {
    let q = raw & 0b11;
    if q == 0 {
        spec_decode_q0(raw)
    } else if q == 1 {
        spec_decode_q1(raw)
    } else {
        spec_decode_q2(raw)
    }
}

/// Expands a 16-bit compressed instruction (quadrants 0, 1 and 2).
pub fn decode_compressed(raw: u16) -> (r: Instruction)
    requires
        raw & 0b11 != 0b11,
    ensures
        r == spec_decode_compressed(raw),
{
    let q = quadrant(raw);
    if q == 0 {
        decode_q0(raw)
    } else if q == 1 {
        decode_q1(raw)
    } else {
        decode_q2(raw)
    }
}

} // verus!
