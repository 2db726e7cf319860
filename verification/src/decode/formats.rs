use vstd::prelude::*;

use crate::cpu::register::Reg;

verus! {

/// Sign extension of a `bits`-wide field: the low `bits` bits of `value`,
/// with every higher bit a copy of bit `bits - 1` (fields wider than 32
/// bits are taken as they are).
pub open spec fn spec_sign_extend(value: u32, bits: u32) -> i64 {
    if bits > 32 {
        value as i64
    } else {
        let mask: u64 = ((1u64 << (bits as u64)) - 1) as u64;
        let low: u64 = (value as u64) & mask;
        if (value >> ((bits - 1) as u32)) & 1 == 1 {
            (low | !mask) as i64
        } else {
            low as i64
        }
    }
}

#[verifier::when_used_as_spec(spec_sign_extend)]
pub fn sign_extend(value: u32, bits: u32) -> (r: i64)
    requires
        1 <= bits <= 64,
    ensures
        r == spec_sign_extend(value, bits),
{
    let shift: u32 = 64 - bits;
    let r = ((value as i64) << shift) >> shift;
    assert(r == spec_sign_extend(value, bits)) by (bit_vector)
        requires
            1 <= bits <= 64,
            shift == 64 - bits,
            r == ((value as i64) << shift) >> shift;
    r
}



/// Bits 6..0: the major opcode.
pub open spec fn spec_opcode(raw: u32) -> u32 {
    raw & 0b1111111
}

/// Bits 6..0: the major opcode.
#[verifier::when_used_as_spec(spec_opcode)]
pub fn opcode(raw: u32) -> (r: u32)
    ensures
        r == spec_opcode(raw),
{
    raw & 0b1111111
}

/// Bits 11..7: the destination register.
pub open spec fn spec_rd(raw: u32) -> Reg {
    Reg::new(raw >> 7)
}

/// Bits 11..7: the destination register.
#[verifier::when_used_as_spec(spec_rd)]
pub fn rd(raw: u32) -> (r: Reg)
    ensures
        r == spec_rd(raw),
{
    Reg::new(raw >> 7)
}

/// Bits 14..12.
pub open spec fn spec_funct3(raw: u32) -> u32 {
    (raw >> 12) & 0b111
}

/// Bits 14..12.
#[verifier::when_used_as_spec(spec_funct3)]
pub fn funct3(raw: u32) -> (r: u32)
    ensures
        r == spec_funct3(raw),
{
    (raw >> 12) & 0b111
}

/// Bits 31..25.
pub open spec fn spec_funct7(raw: u32) -> u32 {
    (raw >> 25) & 0b1111111
}

/// Bits 31..25.
#[verifier::when_used_as_spec(spec_funct7)]
pub fn funct7(raw: u32) -> (r: u32)
    ensures
        r == spec_funct7(raw),
{
    (raw >> 25) & 0b1111111
}

/// Bits 31..26 (the RV64 shift-immediate function field).
pub open spec fn spec_funct6(raw: u32) -> u32 {
    (raw >> 26) & 0b111111
}

/// Bits 31..26 (the RV64 shift-immediate function field).
#[verifier::when_used_as_spec(spec_funct6)]
pub fn funct6(raw: u32) -> (r: u32)
    ensures
        r == spec_funct6(raw),
{
    (raw >> 26) & 0b111111
}

/// Bits 31..27 (the atomic operation field).
pub open spec fn spec_funct5(raw: u32) -> u32 {
    (raw >> 27) & 0x1f
}

/// Bits 31..27 (the atomic operation field).
#[verifier::when_used_as_spec(spec_funct5)]
pub fn funct5(raw: u32) -> (r: u32)
    ensures
        r == spec_funct5(raw),
{
    (raw >> 27) & 0x1f
}

/// Bits 19..15: the first source register.
pub open spec fn spec_rs1(raw: u32) -> Reg {
    Reg::new(raw >> 15)
}

/// Bits 19..15: the first source register.
#[verifier::when_used_as_spec(spec_rs1)]
pub fn rs1(raw: u32) -> (r: Reg)
    ensures
        r == spec_rs1(raw),
{
    Reg::new(raw >> 15)
}

/// Bits 24..20: the second source register.
pub open spec fn spec_rs2(raw: u32) -> Reg {
    Reg::new(raw >> 20)
}

/// Bits 24..20: the second source register.
#[verifier::when_used_as_spec(spec_rs2)]
pub fn rs2(raw: u32) -> (r: Reg)
    ensures
        r == spec_rs2(raw),
{
    Reg::new(raw >> 20)
}

/// The B-type branch offset: imm[12|10:5] from bits 31..25, imm[4:1|11] from bits 11..7, sign-extended.
pub open spec fn spec_imm_b(raw: u32) -> i64 {
    sign_extend(
        (((raw >> 31) & 0b1) << 12) | (((raw >> 7) & 0b1) << 11) | (((raw >> 25) & 0b111111) << 5)
            | (((raw >> 8) & 0b1111) << 1),
        13,
    )
}

/// The B-type branch offset: imm[12|10:5] from bits 31..25, imm[4:1|11] from bits 11..7, sign-extended.
#[verifier::when_used_as_spec(spec_imm_b)]
pub fn imm_b(raw: u32) -> (r: i64)
    ensures
        r == spec_imm_b(raw),
{
    sign_extend(
        (((raw >> 31) & 0b1) << 12) | (((raw >> 7) & 0b1) << 11) | (((raw >> 25) & 0b111111) << 5)
            | (((raw >> 8) & 0b1111) << 1),
        13,
    )
}

/// The J-type jump offset: imm[20|10:1|11|19:12] from bits 31..12, sign-extended.
pub open spec fn spec_imm_j(raw: u32) -> i64 {
    sign_extend(
        (((raw >> 31) & 0b1) << 20) | (((raw >> 12) & 0b11111111) << 12) | (((raw >> 20) & 0b1) << 11)
            | (((raw >> 21) & 0b1111111111) << 1),
        21,
    )
}

/// The J-type jump offset: imm[20|10:1|11|19:12] from bits 31..12, sign-extended.
#[verifier::when_used_as_spec(spec_imm_j)]
pub fn imm_j(raw: u32) -> (r: i64)
    ensures
        r == spec_imm_j(raw),
{
    sign_extend(
        (((raw >> 31) & 0b1) << 20) | (((raw >> 12) & 0b11111111) << 12) | (((raw >> 20) & 0b1) << 11)
            | (((raw >> 21) & 0b1111111111) << 1),
        21,
    )
}

/// The U-type immediate: bits 31..12 in place, sign-extended from 32 bits.
pub open spec fn spec_imm_u(raw: u32) -> i64 {
    sign_extend(raw & 0xfffff000, 32)
}

/// The U-type immediate: bits 31..12 in place, sign-extended from 32 bits.
#[verifier::when_used_as_spec(spec_imm_u)]
pub fn imm_u(raw: u32) -> (r: i64)
    ensures
        r == spec_imm_u(raw),
{
    sign_extend(raw & 0xfffff000, 32)
}

/// The I-type immediate: bits 31..20, sign-extended.
pub open spec fn spec_imm_i(raw: u32) -> i64 {
    sign_extend((raw >> 20) & 0b111111111111, 12)
}

/// The I-type immediate: bits 31..20, sign-extended.
#[verifier::when_used_as_spec(spec_imm_i)]
pub fn imm_i(raw: u32) -> (r: i64)
    ensures
        r == spec_imm_i(raw),
{
    sign_extend((raw >> 20) & 0b111111111111, 12)
}

/// The S-type store offset: imm[11:5] from bits 31..25, imm[4:0] from bits 11..7, sign-extended.
pub open spec fn spec_imm_s(raw: u32) -> i64 {
    sign_extend((((raw >> 25) & 0b1111111) << 5) | ((raw >> 7) & 0b11111), 12)
}

/// The S-type store offset: imm[11:5] from bits 31..25, imm[4:0] from bits 11..7, sign-extended.
#[verifier::when_used_as_spec(spec_imm_s)]
pub fn imm_s(raw: u32) -> (r: i64)
    ensures
        r == spec_imm_s(raw),
{
    sign_extend((((raw >> 25) & 0b1111111) << 5) | ((raw >> 7) & 0b11111), 12)
}

/// Bits 31..20 unextended (the system function field).
pub open spec fn spec_imm12(raw: u32) -> u32 {
    (raw >> 20) & 0b111111111111
}

/// Bits 31..20 unextended (the system function field).
#[verifier::when_used_as_spec(spec_imm12)]
pub fn imm12(raw: u32) -> (r: u32)
    ensures
        r == spec_imm12(raw),
{
    (raw >> 20) & 0b111111111111
}

/// Bits 31..20 as a CSR number.
pub open spec fn spec_csr_field(raw: u32) -> u16 {
    ((raw >> 20) & 0b111111111111) as u16
}

/// Bits 31..20 as a CSR number.
#[verifier::when_used_as_spec(spec_csr_field)]
pub fn csr_field(raw: u32) -> (r: u16)
    ensures
        r == spec_csr_field(raw),
{
    ((raw >> 20) & 0b111111111111) as u16
}

/// Bits 19..15 as the zero-extended CSR immediate.
pub open spec fn spec_uimm(raw: u32) -> u8 {
    ((raw >> 15) & 0b11111) as u8
}

/// Bits 19..15 as the zero-extended CSR immediate.
#[verifier::when_used_as_spec(spec_uimm)]
pub fn uimm(raw: u32) -> (r: u8)
    ensures
        r == spec_uimm(raw),
{
    ((raw >> 15) & 0b11111) as u8
}

/// Bits 24..20: a 5-bit shift amount.
pub open spec fn spec_shamt5(raw: u32) -> u32 {
    (raw >> 20) & 0b11111
}

/// Bits 24..20: a 5-bit shift amount.
#[verifier::when_used_as_spec(spec_shamt5)]
pub fn shamt5(raw: u32) -> (r: u32)
    ensures
        r == spec_shamt5(raw),
{
    (raw >> 20) & 0b11111
}

/// Bits 25..20: a 6-bit shift amount.
pub open spec fn spec_shamt6(raw: u32) -> u32 {
    (raw >> 20) & 0b111111
}

/// Bits 25..20: a 6-bit shift amount.
#[verifier::when_used_as_spec(spec_shamt6)]
pub fn shamt6(raw: u32) -> (r: u32)
    ensures
        r == spec_shamt6(raw),
{
    (raw >> 20) & 0b111111
}

/// Bits 27..24: the FENCE predecessor set.
pub open spec fn spec_fence_pred(raw: u32) -> u8 {
    ((raw >> 24) & 0xf) as u8
}

/// Bits 27..24: the FENCE predecessor set.
#[verifier::when_used_as_spec(spec_fence_pred)]
pub fn fence_pred(raw: u32) -> (r: u8)
    ensures
        r == spec_fence_pred(raw),
{
    ((raw >> 24) & 0xf) as u8
}

/// Bits 23..20: the FENCE successor set.
pub open spec fn spec_fence_succ(raw: u32) -> u8 {
    ((raw >> 20) & 0xf) as u8
}

/// Bits 23..20: the FENCE successor set.
#[verifier::when_used_as_spec(spec_fence_succ)]
pub fn fence_succ(raw: u32) -> (r: u8)
    ensures
        r == spec_fence_succ(raw),
{
    ((raw >> 20) & 0xf) as u8
}

/// Bits 31..28: the FENCE mode.
pub open spec fn spec_fence_fm(raw: u32) -> u8 {
    ((raw >> 28) & 0xf) as u8
}

/// Bits 31..28: the FENCE mode.
#[verifier::when_used_as_spec(spec_fence_fm)]
pub fn fence_fm(raw: u32) -> (r: u8)
    ensures
        r == spec_fence_fm(raw),
{
    ((raw >> 28) & 0xf) as u8
}


/// Every register field names one of the 32 registers, and the branch and
/// jump offsets are even and within their signed ranges.
pub proof fn law_field_ranges(raw: u32)
    ensures
        spec_funct3(raw) < 8,
        spec_funct7(raw) < 128,
        spec_opcode(raw) < 128,
        spec_shamt6(raw) < 64,
        spec_imm_b(raw) % 2 == 0,
        -4096 <= spec_imm_b(raw) < 4096,
        spec_imm_j(raw) % 2 == 0,
        -1048576 <= spec_imm_j(raw) < 1048576,
        -2048 <= spec_imm_i(raw) < 2048,
        spec_imm_u(raw) % 4096 == 0,
{
    lemma_field_ranges_bv(raw);
}

proof fn lemma_field_ranges_bv(raw: u32)
    by (bit_vector)
    ensures
        (raw >> 12) & 0b111 < 8,
        (raw >> 25) & 0b1111111 < 128,
        raw & 0b1111111 < 128,
        (raw >> 20) & 0b111111 < 64,
        spec_sign_extend(
            (((raw >> 31) & 0b1) << 12) | (((raw >> 7) & 0b1) << 11) | (((raw >> 25) & 0b111111) << 5)
                | (((raw >> 8) & 0b1111) << 1), 13) % 2 == 0,
        -4096 <= spec_sign_extend(
            (((raw >> 31) & 0b1) << 12) | (((raw >> 7) & 0b1) << 11) | (((raw >> 25) & 0b111111) << 5)
                | (((raw >> 8) & 0b1111) << 1), 13) < 4096,
        spec_sign_extend(
            (((raw >> 31) & 0b1) << 20) | (((raw >> 12) & 0b11111111) << 12) | (((raw >> 20) & 0b1) << 11)
                | (((raw >> 21) & 0b1111111111) << 1), 21) % 2 == 0,
        -1048576 <= spec_sign_extend(
            (((raw >> 31) & 0b1) << 20) | (((raw >> 12) & 0b11111111) << 12) | (((raw >> 20) & 0b1) << 11)
                | (((raw >> 21) & 0b1111111111) << 1), 21) < 1048576,
        -2048 <= spec_sign_extend((raw >> 20) & 0b111111111111, 12) < 2048,
        spec_sign_extend(raw & 0xfffff000, 32) % 4096 == 0,
{
}

} // verus!
