use vstd::prelude::*;

use crate::cpu::f_register::FReg;
use crate::cpu::register::Reg;
use crate::decode::formats::{sign_extend, spec_sign_extend};

verus! {

/// Bits 1..0: the compressed quadrant.
pub open spec fn spec_quadrant(raw: u16) -> u16 {
    raw & 0b11
}

/// Bits 1..0: the compressed quadrant.
#[verifier::when_used_as_spec(spec_quadrant)]
pub fn quadrant(raw: u16) -> (r: u16)
    ensures
        r == spec_quadrant(raw),
{
    raw & 0b11
}

/// Bits 15..13: the compressed function field.
pub open spec fn spec_funct3c(raw: u16) -> u16 {
    (raw >> 13) & 0b111
}

/// Bits 15..13: the compressed function field.
#[verifier::when_used_as_spec(spec_funct3c)]
pub fn funct3c(raw: u16) -> (r: u16)
    ensures
        r == spec_funct3c(raw),
{
    (raw >> 13) & 0b111
}

/// A 3-bit compressed register field: `000` is x8, `111` is x15.
pub open spec fn spec_creg(bits: u32) -> Reg {
    Reg::new((bits & 0b111) | 8)
}

/// A 3-bit compressed register field: `000` is x8, `111` is x15.
#[verifier::when_used_as_spec(spec_creg)]
pub fn creg(bits: u32) -> (r: Reg)
    ensures
        r == spec_creg(bits),
{
    Reg::new((bits & 0b111) | 8)
}

/// A 3-bit compressed float register field: `000` is f8, `111` is f15.
pub open spec fn spec_cfreg(bits: u32) -> FReg {
    FReg::new((bits & 0b111) | 8)
}

/// A 3-bit compressed float register field: `000` is f8, `111` is f15.
#[verifier::when_used_as_spec(spec_cfreg)]
pub fn cfreg(bits: u32) -> (r: FReg)
    ensures
        r == spec_cfreg(bits),
{
    FReg::new((bits & 0b111) | 8)
}

/// CL format: float destination, bits 4..2.
pub open spec fn spec_cl_frd(raw: u16) -> FReg {
    cfreg((raw as u32) >> 2)
}

/// CL format: float destination, bits 4..2.
#[verifier::when_used_as_spec(spec_cl_frd)]
pub fn cl_frd(raw: u16) -> (r: FReg)
    ensures
        r == spec_cl_frd(raw),
{
    cfreg((raw as u32) >> 2)
}

/// CS format: float source, bits 4..2.
pub open spec fn spec_cs_frs2(raw: u16) -> FReg {
    cfreg((raw as u32) >> 2)
}

/// CS format: float source, bits 4..2.
#[verifier::when_used_as_spec(spec_cs_frs2)]
pub fn cs_frs2(raw: u16) -> (r: FReg)
    ensures
        r == spec_cs_frs2(raw),
{
    cfreg((raw as u32) >> 2)
}

/// CI format: float destination, bits 11..7.
pub open spec fn spec_ci_frd(raw: u16) -> FReg {
    FReg::new((raw as u32) >> 7)
}

/// CI format: float destination, bits 11..7.
#[verifier::when_used_as_spec(spec_ci_frd)]
pub fn ci_frd(raw: u16) -> (r: FReg)
    ensures
        r == spec_ci_frd(raw),
{
    FReg::new((raw as u32) >> 7)
}

/// CSS format: float source, bits 6..2.
pub open spec fn spec_css_frs2(raw: u16) -> FReg {
    FReg::new((raw as u32) >> 2)
}

/// CSS format: float source, bits 6..2.
#[verifier::when_used_as_spec(spec_css_frs2)]
pub fn css_frs2(raw: u16) -> (r: FReg)
    ensures
        r == spec_css_frs2(raw),
{
    FReg::new((raw as u32) >> 2)
}

/// CIW format (C.ADDI4SPN): destination, bits 4..2.
pub open spec fn spec_ciw_rd(raw: u16) -> Reg {
    creg((raw as u32) >> 2)
}

/// CIW format (C.ADDI4SPN): destination, bits 4..2.
#[verifier::when_used_as_spec(spec_ciw_rd)]
pub fn ciw_rd(raw: u16) -> (r: Reg)
    ensures
        r == spec_ciw_rd(raw),
{
    creg((raw as u32) >> 2)
}

/// C.ADDI4SPN immediate: inst[10:7] to imm[9:6], inst[12:11] to imm[5:4], inst[5] to imm[3], inst[6] to imm[2].
pub open spec fn spec_ciw_nzuimm(raw: u16) -> u32 {
    (((raw as u32 >> 7) & 0b1111) << 6) | (((raw as u32 >> 11) & 0b11) << 4)
        | (((raw as u32 >> 5) & 1) << 3) | (((raw as u32 >> 6) & 1) << 2)
}

/// C.ADDI4SPN immediate: inst[10:7] to imm[9:6], inst[12:11] to imm[5:4], inst[5] to imm[3], inst[6] to imm[2].
#[verifier::when_used_as_spec(spec_ciw_nzuimm)]
pub fn ciw_nzuimm(raw: u16) -> (r: u32)
    ensures
        r == spec_ciw_nzuimm(raw),
{
    (((raw as u32 >> 7) & 0b1111) << 6) | (((raw as u32 >> 11) & 0b11) << 4)
        | (((raw as u32 >> 5) & 1) << 3) | (((raw as u32 >> 6) & 1) << 2)
}

/// CL format: destination, bits 4..2.
pub open spec fn spec_cl_rd(raw: u16) -> Reg {
    creg((raw as u32) >> 2)
}

/// CL format: destination, bits 4..2.
#[verifier::when_used_as_spec(spec_cl_rd)]
pub fn cl_rd(raw: u16) -> (r: Reg)
    ensures
        r == spec_cl_rd(raw),
{
    creg((raw as u32) >> 2)
}

/// CL format: base register, bits 9..7.
pub open spec fn spec_cl_rs1(raw: u16) -> Reg {
    creg((raw as u32) >> 7)
}

/// CL format: base register, bits 9..7.
#[verifier::when_used_as_spec(spec_cl_rs1)]
pub fn cl_rs1(raw: u16) -> (r: Reg)
    ensures
        r == spec_cl_rs1(raw),
{
    creg((raw as u32) >> 7)
}

/// C.LW offset: inst[5] to offset[6], inst[12:10] to offset[5:3], inst[6] to offset[2].
pub open spec fn spec_cl_lw_offset(raw: u16) -> u32 {
    (((raw as u32 >> 5) & 1) << 6) | (((raw as u32 >> 10) & 0b111) << 3)
        | (((raw as u32 >> 6) & 1) << 2)
}

/// C.LW offset: inst[5] to offset[6], inst[12:10] to offset[5:3], inst[6] to offset[2].
#[verifier::when_used_as_spec(spec_cl_lw_offset)]
pub fn cl_lw_offset(raw: u16) -> (r: u32)
    ensures
        r == spec_cl_lw_offset(raw),
{
    (((raw as u32 >> 5) & 1) << 6) | (((raw as u32 >> 10) & 0b111) << 3)
        | (((raw as u32 >> 6) & 1) << 2)
}

/// C.LD offset: inst[6:5] to offset[7:6], inst[12:10] to offset[5:3].
pub open spec fn spec_cl_ld_offset(raw: u16) -> u32 {
    (((raw as u32 >> 5) & 0b11) << 6) | (((raw as u32 >> 10) & 0b111) << 3)
}

/// C.LD offset: inst[6:5] to offset[7:6], inst[12:10] to offset[5:3].
#[verifier::when_used_as_spec(spec_cl_ld_offset)]
pub fn cl_ld_offset(raw: u16) -> (r: u32)
    ensures
        r == spec_cl_ld_offset(raw),
{
    (((raw as u32 >> 5) & 0b11) << 6) | (((raw as u32 >> 10) & 0b111) << 3)
}

/// CS format: source, bits 4..2.
pub open spec fn spec_cs_rs2(raw: u16) -> Reg {
    creg((raw as u32) >> 2)
}

/// CS format: source, bits 4..2.
#[verifier::when_used_as_spec(spec_cs_rs2)]
pub fn cs_rs2(raw: u16) -> (r: Reg)
    ensures
        r == spec_cs_rs2(raw),
{
    creg((raw as u32) >> 2)
}

/// CS format: base register, bits 9..7.
pub open spec fn spec_cs_rs1(raw: u16) -> Reg {
    creg((raw as u32) >> 7)
}

/// CS format: base register, bits 9..7.
#[verifier::when_used_as_spec(spec_cs_rs1)]
pub fn cs_rs1(raw: u16) -> (r: Reg)
    ensures
        r == spec_cs_rs1(raw),
{
    creg((raw as u32) >> 7)
}

/// C.SW offset: inst[5] to offset[6], inst[12:10] to offset[5:3], inst[6] to offset[2].
pub open spec fn spec_cs_sw_offset(raw: u16) -> u32 {
    (((raw as u32 >> 5) & 1) << 6) | (((raw as u32 >> 10) & 0b111) << 3)
        | (((raw as u32 >> 6) & 1) << 2)
}

/// C.SW offset: inst[5] to offset[6], inst[12:10] to offset[5:3], inst[6] to offset[2].
#[verifier::when_used_as_spec(spec_cs_sw_offset)]
pub fn cs_sw_offset(raw: u16) -> (r: u32)
    ensures
        r == spec_cs_sw_offset(raw),
{
    (((raw as u32 >> 5) & 1) << 6) | (((raw as u32 >> 10) & 0b111) << 3)
        | (((raw as u32 >> 6) & 1) << 2)
}

/// C.SD offset: inst[6:5] to offset[7:6], inst[12:10] to offset[5:3].
pub open spec fn spec_cs_sd_offset(raw: u16) -> u32 {
    (((raw as u32 >> 5) & 0b11) << 6) | (((raw as u32 >> 10) & 0b111) << 3)
}

/// C.SD offset: inst[6:5] to offset[7:6], inst[12:10] to offset[5:3].
#[verifier::when_used_as_spec(spec_cs_sd_offset)]
pub fn cs_sd_offset(raw: u16) -> (r: u32)
    ensures
        r == spec_cs_sd_offset(raw),
{
    (((raw as u32 >> 5) & 0b11) << 6) | (((raw as u32 >> 10) & 0b111) << 3)
}

/// CR format: destination and first source, bits 11..7.
pub open spec fn spec_cr_rd_rs1(raw: u16) -> Reg {
    Reg::new((raw as u32) >> 7)
}

/// CR format: destination and first source, bits 11..7.
#[verifier::when_used_as_spec(spec_cr_rd_rs1)]
pub fn cr_rd_rs1(raw: u16) -> (r: Reg)
    ensures
        r == spec_cr_rd_rs1(raw),
{
    Reg::new((raw as u32) >> 7)
}

/// CR format: second source, bits 6..2.
pub open spec fn spec_cr_rs2(raw: u16) -> Reg {
    Reg::new((raw as u32) >> 2)
}

/// CR format: second source, bits 6..2.
#[verifier::when_used_as_spec(spec_cr_rs2)]
pub fn cr_rs2(raw: u16) -> (r: Reg)
    ensures
        r == spec_cr_rs2(raw),
{
    Reg::new((raw as u32) >> 2)
}

/// CR format: bits 15..12.
pub open spec fn spec_cr_funct4(raw: u16) -> u32 {
    ((raw as u32) >> 12) & 0b1111
}

/// CR format: bits 15..12.
#[verifier::when_used_as_spec(spec_cr_funct4)]
pub fn cr_funct4(raw: u16) -> (r: u32)
    ensures
        r == spec_cr_funct4(raw),
{
    ((raw as u32) >> 12) & 0b1111
}

/// CI format: destination, bits 11..7.
pub open spec fn spec_ci_rd(raw: u16) -> Reg {
    Reg::new((raw as u32) >> 7)
}

/// CI format: destination, bits 11..7.
#[verifier::when_used_as_spec(spec_ci_rd)]
pub fn ci_rd(raw: u16) -> (r: Reg)
    ensures
        r == spec_ci_rd(raw),
{
    Reg::new((raw as u32) >> 7)
}

/// CI format: the source is the destination.
pub open spec fn spec_ci_rs1(raw: u16) -> Reg {
    ci_rd(raw)
}

/// CI format: the source is the destination.
#[verifier::when_used_as_spec(spec_ci_rs1)]
pub fn ci_rs1(raw: u16) -> (r: Reg)
    ensures
        r == spec_ci_rs1(raw),
{
    ci_rd(raw)
}

/// C.LWSP offset: inst[3:2] to offset[7:6], inst[12] to offset[5], inst[6:4] to offset[4:2].
pub open spec fn spec_ci_lwsp_offset(raw: u16) -> u32 {
    (((raw as u32 >> 2) & 0b11) << 6) | (((raw as u32 >> 12) & 1) << 5)
        | (((raw as u32 >> 4) & 0b111) << 2)
}

/// C.LWSP offset: inst[3:2] to offset[7:6], inst[12] to offset[5], inst[6:4] to offset[4:2].
#[verifier::when_used_as_spec(spec_ci_lwsp_offset)]
pub fn ci_lwsp_offset(raw: u16) -> (r: u32)
    ensures
        r == spec_ci_lwsp_offset(raw),
{
    (((raw as u32 >> 2) & 0b11) << 6) | (((raw as u32 >> 12) & 1) << 5)
        | (((raw as u32 >> 4) & 0b111) << 2)
}

/// C.LDSP offset: inst[4:2] to offset[8:6], inst[12] to offset[5], inst[6:5] to offset[4:3].
pub open spec fn spec_ci_ldsp_offset(raw: u16) -> u32 {
    (((raw as u32 >> 2) & 0b111) << 6) | (((raw as u32 >> 12) & 1) << 5)
        | (((raw as u32 >> 5) & 0b11) << 3)
}

/// C.LDSP offset: inst[4:2] to offset[8:6], inst[12] to offset[5], inst[6:5] to offset[4:3].
#[verifier::when_used_as_spec(spec_ci_ldsp_offset)]
pub fn ci_ldsp_offset(raw: u16) -> (r: u32)
    ensures
        r == spec_ci_ldsp_offset(raw),
{
    (((raw as u32 >> 2) & 0b111) << 6) | (((raw as u32 >> 12) & 1) << 5)
        | (((raw as u32 >> 5) & 0b11) << 3)
}

/// CI immediate: inst[12] to imm[5], inst[6:2] to imm[4:0], sign-extended.
pub open spec fn spec_ci_imm(raw: u16) -> i64 {
    sign_extend((((raw as u32 >> 12) & 1) << 5) | ((raw as u32 >> 2) & 0b11111), 6)
}

/// CI immediate: inst[12] to imm[5], inst[6:2] to imm[4:0], sign-extended.
#[verifier::when_used_as_spec(spec_ci_imm)]
pub fn ci_imm(raw: u16) -> (r: i64)
    ensures
        r == spec_ci_imm(raw),
{
    sign_extend((((raw as u32 >> 12) & 1) << 5) | ((raw as u32 >> 2) & 0b11111), 6)
}

/// CI shift amount: inst[12] to shamt[5], inst[6:2] to shamt[4:0].
pub open spec fn spec_ci_shamt(raw: u16) -> u32 {
    (((raw as u32 >> 12) & 1) << 5) | ((raw as u32 >> 2) & 0b11111)
}

/// CI shift amount: inst[12] to shamt[5], inst[6:2] to shamt[4:0].
#[verifier::when_used_as_spec(spec_ci_shamt)]
pub fn ci_shamt(raw: u16) -> (r: u32)
    ensures
        r == spec_ci_shamt(raw),
{
    (((raw as u32 >> 12) & 1) << 5) | ((raw as u32 >> 2) & 0b11111)
}

/// C.ADDI16SP immediate: inst[12] to nzimm[9], inst[4:3] to nzimm[8:7], inst[5] to nzimm[6], inst[2] to nzimm[5], inst[6] to nzimm[4], sign-extended.
pub open spec fn spec_ci_addi16sp_imm(raw: u16) -> i64 {
    sign_extend(
        (((raw as u32 >> 12) & 1) << 9) | (((raw as u32 >> 3) & 0b11) << 7) | (((raw as u32 >> 5) & 1) << 6)
            | (((raw as u32 >> 2) & 1) << 5) | (((raw as u32 >> 6) & 1) << 4),
        10,
    )
}

/// C.ADDI16SP immediate: inst[12] to nzimm[9], inst[4:3] to nzimm[8:7], inst[5] to nzimm[6], inst[2] to nzimm[5], inst[6] to nzimm[4], sign-extended.
#[verifier::when_used_as_spec(spec_ci_addi16sp_imm)]
pub fn ci_addi16sp_imm(raw: u16) -> (r: i64)
    ensures
        r == spec_ci_addi16sp_imm(raw),
{
    sign_extend(
        (((raw as u32 >> 12) & 1) << 9) | (((raw as u32 >> 3) & 0b11) << 7) | (((raw as u32 >> 5) & 1) << 6)
            | (((raw as u32 >> 2) & 1) << 5) | (((raw as u32 >> 6) & 1) << 4),
        10,
    )
}

/// C.LUI immediate: inst[12] to imm[17], inst[6:2] to imm[16:12], sign-extended.
pub open spec fn spec_ci_lui_imm(raw: u16) -> i64 {
    sign_extend((((raw as u32 >> 12) & 1) << 17) | (((raw as u32 >> 2) & 0b11111) << 12), 18)
}

/// C.LUI immediate: inst[12] to imm[17], inst[6:2] to imm[16:12], sign-extended.
#[verifier::when_used_as_spec(spec_ci_lui_imm)]
pub fn ci_lui_imm(raw: u16) -> (r: i64)
    ensures
        r == spec_ci_lui_imm(raw),
{
    sign_extend((((raw as u32 >> 12) & 1) << 17) | (((raw as u32 >> 2) & 0b11111) << 12), 18)
}

/// CSS format: source, bits 6..2.
pub open spec fn spec_css_rs2(raw: u16) -> Reg {
    Reg::new((raw as u32) >> 2)
}

/// CSS format: source, bits 6..2.
#[verifier::when_used_as_spec(spec_css_rs2)]
pub fn css_rs2(raw: u16) -> (r: Reg)
    ensures
        r == spec_css_rs2(raw),
{
    Reg::new((raw as u32) >> 2)
}

/// C.SWSP offset: inst[8:7] to offset[7:6], inst[12:9] to offset[5:2].
pub open spec fn spec_css_swsp_offset(raw: u16) -> u32 {
    (((raw as u32 >> 7) & 0b11) << 6) | (((raw as u32 >> 9) & 0b1111) << 2)
}

/// C.SWSP offset: inst[8:7] to offset[7:6], inst[12:9] to offset[5:2].
#[verifier::when_used_as_spec(spec_css_swsp_offset)]
pub fn css_swsp_offset(raw: u16) -> (r: u32)
    ensures
        r == spec_css_swsp_offset(raw),
{
    (((raw as u32 >> 7) & 0b11) << 6) | (((raw as u32 >> 9) & 0b1111) << 2)
}

/// C.SDSP offset: inst[9:7] to offset[8:6], inst[12:10] to offset[5:3].
pub open spec fn spec_css_sdsp_offset(raw: u16) -> u32 {
    (((raw as u32 >> 7) & 0b111) << 6) | (((raw as u32 >> 10) & 0b111) << 3)
}

/// C.SDSP offset: inst[9:7] to offset[8:6], inst[12:10] to offset[5:3].
#[verifier::when_used_as_spec(spec_css_sdsp_offset)]
pub fn css_sdsp_offset(raw: u16) -> (r: u32)
    ensures
        r == spec_css_sdsp_offset(raw),
{
    (((raw as u32 >> 7) & 0b111) << 6) | (((raw as u32 >> 10) & 0b111) << 3)
}

/// CA format: destination and first source, bits 9..7.
pub open spec fn spec_ca_rd_rs1(raw: u16) -> Reg {
    creg((raw as u32) >> 7)
}

/// CA format: destination and first source, bits 9..7.
#[verifier::when_used_as_spec(spec_ca_rd_rs1)]
pub fn ca_rd_rs1(raw: u16) -> (r: Reg)
    ensures
        r == spec_ca_rd_rs1(raw),
{
    creg((raw as u32) >> 7)
}

/// CA format: second source, bits 4..2.
pub open spec fn spec_ca_rs2(raw: u16) -> Reg {
    creg((raw as u32) >> 2)
}

/// CA format: second source, bits 4..2.
#[verifier::when_used_as_spec(spec_ca_rs2)]
pub fn ca_rs2(raw: u16) -> (r: Reg)
    ensures
        r == spec_ca_rs2(raw),
{
    creg((raw as u32) >> 2)
}

/// CA format: funct2, bits 6..5.
pub open spec fn spec_ca_funct2(raw: u16) -> u32 {
    ((raw as u32) >> 5) & 0b11
}

/// CA format: funct2, bits 6..5.
#[verifier::when_used_as_spec(spec_ca_funct2)]
pub fn ca_funct2(raw: u16) -> (r: u32)
    ensures
        r == spec_ca_funct2(raw),
{
    ((raw as u32) >> 5) & 0b11
}

/// CA format: funct6, bits 15..10.
pub open spec fn spec_ca_funct6(raw: u16) -> u32 {
    ((raw as u32) >> 10) & 0b111111
}

/// CA format: funct6, bits 15..10.
#[verifier::when_used_as_spec(spec_ca_funct6)]
pub fn ca_funct6(raw: u16) -> (r: u32)
    ensures
        r == spec_ca_funct6(raw),
{
    ((raw as u32) >> 10) & 0b111111
}

/// CA format: bit 12, which tells SUB/XOR/OR/AND from SUBW/ADDW.
pub open spec fn spec_ca_bit12(raw: u16) -> bool {
    ((raw >> 12) & 1) != 0
}

/// CA format: bit 12, which tells SUB/XOR/OR/AND from SUBW/ADDW.
#[verifier::when_used_as_spec(spec_ca_bit12)]
pub fn ca_bit12(raw: u16) -> (r: bool)
    ensures
        r == spec_ca_bit12(raw),
{
    ((raw >> 12) & 1) != 0
}

/// CB format: funct2, bits 11..10.
pub open spec fn spec_cb_funct2(raw: u16) -> u32 {
    ((raw as u32) >> 10) & 0b11
}

/// CB format: funct2, bits 11..10.
#[verifier::when_used_as_spec(spec_cb_funct2)]
pub fn cb_funct2(raw: u16) -> (r: u32)
    ensures
        r == spec_cb_funct2(raw),
{
    ((raw as u32) >> 10) & 0b11
}

/// CB format: register, bits 9..7.
pub open spec fn spec_cb_rs1(raw: u16) -> Reg {
    creg((raw as u32) >> 7)
}

/// CB format: register, bits 9..7.
#[verifier::when_used_as_spec(spec_cb_rs1)]
pub fn cb_rs1(raw: u16) -> (r: Reg)
    ensures
        r == spec_cb_rs1(raw),
{
    creg((raw as u32) >> 7)
}

/// C.ANDI immediate: inst[12] to imm[5], inst[6:2] to imm[4:0], sign-extended.
pub open spec fn spec_cb_imm(raw: u16) -> i64 {
    sign_extend((((raw as u32 >> 12) & 1) << 5) | ((raw as u32 >> 2) & 0b11111), 6)
}

/// C.ANDI immediate: inst[12] to imm[5], inst[6:2] to imm[4:0], sign-extended.
#[verifier::when_used_as_spec(spec_cb_imm)]
pub fn cb_imm(raw: u16) -> (r: i64)
    ensures
        r == spec_cb_imm(raw),
{
    sign_extend((((raw as u32 >> 12) & 1) << 5) | ((raw as u32 >> 2) & 0b11111), 6)
}

/// C.SRLI/C.SRAI shift amount: inst[12] to shamt[5], inst[6:2] to shamt[4:0].
pub open spec fn spec_cb_shamt(raw: u16) -> u32 {
    (((raw as u32 >> 12) & 1) << 5) | ((raw as u32 >> 2) & 0b11111)
}

/// C.SRLI/C.SRAI shift amount: inst[12] to shamt[5], inst[6:2] to shamt[4:0].
#[verifier::when_used_as_spec(spec_cb_shamt)]
pub fn cb_shamt(raw: u16) -> (r: u32)
    ensures
        r == spec_cb_shamt(raw),
{
    (((raw as u32 >> 12) & 1) << 5) | ((raw as u32 >> 2) & 0b11111)
}

/// C.BEQZ/C.BNEZ offset: inst[12] to offset[8], inst[6:5] to offset[7:6], inst[2] to offset[5], inst[11:10] to offset[4:3], inst[4:3] to offset[2:1], sign-extended.
pub open spec fn spec_cb_offset(raw: u16) -> i64 {
    sign_extend(
        (((raw as u32 >> 12) & 1) << 8) | (((raw as u32 >> 5) & 0b11) << 6) | (((raw as u32 >> 2) & 1) << 5)
            | (((raw as u32 >> 10) & 0b11) << 3) | (((raw as u32 >> 3) & 0b11) << 1),
        9,
    )
}

/// C.BEQZ/C.BNEZ offset: inst[12] to offset[8], inst[6:5] to offset[7:6], inst[2] to offset[5], inst[11:10] to offset[4:3], inst[4:3] to offset[2:1], sign-extended.
#[verifier::when_used_as_spec(spec_cb_offset)]
pub fn cb_offset(raw: u16) -> (r: i64)
    ensures
        r == spec_cb_offset(raw),
{
    sign_extend(
        (((raw as u32 >> 12) & 1) << 8) | (((raw as u32 >> 5) & 0b11) << 6) | (((raw as u32 >> 2) & 1) << 5)
            | (((raw as u32 >> 10) & 0b11) << 3) | (((raw as u32 >> 3) & 0b11) << 1),
        9,
    )
}

/// C.J offset: inst[12] to offset[11], inst[8] to [10], inst[10:9] to [9:8], inst[6] to [7], inst[7] to [6], inst[2] to [5], inst[11] to [4], inst[5:3] to [3:1], sign-extended.
pub open spec fn spec_cj_offset(raw: u16) -> i64 {
    sign_extend(
        (((raw as u32 >> 12) & 1) << 11) | (((raw as u32 >> 8) & 1) << 10) | (((raw as u32 >> 9) & 0b11) << 8)
            | (((raw as u32 >> 6) & 1) << 7) | (((raw as u32 >> 7) & 1) << 6) | (((raw as u32 >> 2) & 1) << 5)
            | (((raw as u32 >> 11) & 1) << 4) | (((raw as u32 >> 3) & 0b111) << 1),
        12,
    )
}

/// C.J offset: inst[12] to offset[11], inst[8] to [10], inst[10:9] to [9:8], inst[6] to [7], inst[7] to [6], inst[2] to [5], inst[11] to [4], inst[5:3] to [3:1], sign-extended.
#[verifier::when_used_as_spec(spec_cj_offset)]
pub fn cj_offset(raw: u16) -> (r: i64)
    ensures
        r == spec_cj_offset(raw),
{
    sign_extend(
        (((raw as u32 >> 12) & 1) << 11) | (((raw as u32 >> 8) & 1) << 10) | (((raw as u32 >> 9) & 0b11) << 8)
            | (((raw as u32 >> 6) & 1) << 7) | (((raw as u32 >> 7) & 1) << 6) | (((raw as u32 >> 2) & 1) << 5)
            | (((raw as u32 >> 11) & 1) << 4) | (((raw as u32 >> 3) & 0b111) << 1),
        12,
    )
}

/// Compressed register fields name only x8..x15.
pub proof fn law_creg_range(bits: u32)
    ensures
        8 <= spec_creg(bits).spec_idx() <= 15,
        8 <= spec_cfreg(bits).spec_idx() <= 15,
{
    assert(8 <= ((bits & 0b111) | 8) <= 15) by (bit_vector);
    assert(((bits & 0b111) | 8) % 32 == ((bits & 0b111) | 8)) by (bit_vector);
    Reg::lemma_new_idx((bits & 0b111) | 8);
    FReg::lemma_new_idx((bits & 0b111) | 8);
}

} // verus!
