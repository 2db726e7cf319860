use vstd::prelude::*;

use crate::decode::f_formats::{spec_frd, spec_frs1, spec_frs2};
use crate::decode::formats::{spec_funct3, spec_rd, spec_rs1, spec_rs2};
use crate::decode::rv32_64::spec_decode_atomic;
use crate::decode::rv64fd::spec_decode_op_fp;
use crate::instruction::Instruction;

verus! {

broadcast use
    crate::cpu::register::Reg::lemma_new_idx,
    crate::cpu::f_register::FReg::lemma_new_idx,
    crate::cpu::register::Reg::lemma_idx_bound,
    crate::cpu::f_register::FReg::lemma_idx_bound,
;

/// An R-type instruction word: `funct7`, `rs2`, `rs1`, `funct3`, `rd`
/// and the opcode, from the top bits down.
pub open spec fn r_type(funct7: u32, rs2: u32, rs1: u32, funct3: u32, rd: u32, opcode: u32) -> u32 {
    (funct7 << 25u32) | (rs2 << 20u32) | (rs1 << 15u32) | (funct3 << 12u32) | (rd << 7u32) | opcode
}

/// The number of a register, as an instruction field.
pub open spec fn reg_field(n: nat) -> u32 {
    n as u32
}

/// The funct7 field of an atomic instruction: `funct5`, then the acquire
/// and release bits.
pub open spec fn amo_funct7(funct5: u32, aq: bool, rl: bool) -> u32 {
    (funct5 << 2u32) | ((if aq { 1u32 } else { 0u32 }) << 1u32) | (if rl { 1u32 } else { 0u32 })
}

/// The OP-FP word (opcode 0x53) that encodes `i`, as the RISC-V F and D
/// extensions lay it out; `None` when `i` is no OP-FP instruction or its
/// rounding-mode field does not fit in three bits.
pub open spec fn encode_op_fp(i: Instruction) -> Option<u32> {
    match i {
        Instruction::FaddS { rd, rs1, rs2, rm } => if rm < 8 { Some(r_type(0u32, reg_field(rs2.spec_idx()), reg_field(rs1.spec_idx()), rm as u32, reg_field(rd.spec_idx()), 0x53)) } else { None },
        Instruction::FaddD { rd, rs1, rs2, rm } => if rm < 8 { Some(r_type(1u32, reg_field(rs2.spec_idx()), reg_field(rs1.spec_idx()), rm as u32, reg_field(rd.spec_idx()), 0x53)) } else { None },
        Instruction::FsubS { rd, rs1, rs2, rm } => if rm < 8 { Some(r_type(4u32, reg_field(rs2.spec_idx()), reg_field(rs1.spec_idx()), rm as u32, reg_field(rd.spec_idx()), 0x53)) } else { None },
        Instruction::FsubD { rd, rs1, rs2, rm } => if rm < 8 { Some(r_type(5u32, reg_field(rs2.spec_idx()), reg_field(rs1.spec_idx()), rm as u32, reg_field(rd.spec_idx()), 0x53)) } else { None },
        Instruction::FmulS { rd, rs1, rs2, rm } => if rm < 8 { Some(r_type(8u32, reg_field(rs2.spec_idx()), reg_field(rs1.spec_idx()), rm as u32, reg_field(rd.spec_idx()), 0x53)) } else { None },
        Instruction::FmulD { rd, rs1, rs2, rm } => if rm < 8 { Some(r_type(9u32, reg_field(rs2.spec_idx()), reg_field(rs1.spec_idx()), rm as u32, reg_field(rd.spec_idx()), 0x53)) } else { None },
        Instruction::FdivS { rd, rs1, rs2, rm } => if rm < 8 { Some(r_type(12u32, reg_field(rs2.spec_idx()), reg_field(rs1.spec_idx()), rm as u32, reg_field(rd.spec_idx()), 0x53)) } else { None },
        Instruction::FdivD { rd, rs1, rs2, rm } => if rm < 8 { Some(r_type(13u32, reg_field(rs2.spec_idx()), reg_field(rs1.spec_idx()), rm as u32, reg_field(rd.spec_idx()), 0x53)) } else { None },
        Instruction::FsqrtS { rd, rs1, rm } => if rm < 8 { Some(r_type(44u32, 0u32, reg_field(rs1.spec_idx()), rm as u32, reg_field(rd.spec_idx()), 0x53)) } else { None },
        Instruction::FsqrtD { rd, rs1, rm } => if rm < 8 { Some(r_type(45u32, 0u32, reg_field(rs1.spec_idx()), rm as u32, reg_field(rd.spec_idx()), 0x53)) } else { None },
        Instruction::FsgnjS { rd, rs1, rs2 } => Some(r_type(16u32, reg_field(rs2.spec_idx()), reg_field(rs1.spec_idx()), 0u32, reg_field(rd.spec_idx()), 0x53)),
        Instruction::FsgnjD { rd, rs1, rs2 } => Some(r_type(17u32, reg_field(rs2.spec_idx()), reg_field(rs1.spec_idx()), 0u32, reg_field(rd.spec_idx()), 0x53)),
        Instruction::FsgnjnS { rd, rs1, rs2 } => Some(r_type(16u32, reg_field(rs2.spec_idx()), reg_field(rs1.spec_idx()), 1u32, reg_field(rd.spec_idx()), 0x53)),
        Instruction::FsgnjnD { rd, rs1, rs2 } => Some(r_type(17u32, reg_field(rs2.spec_idx()), reg_field(rs1.spec_idx()), 1u32, reg_field(rd.spec_idx()), 0x53)),
        Instruction::FsgnjxS { rd, rs1, rs2 } => Some(r_type(16u32, reg_field(rs2.spec_idx()), reg_field(rs1.spec_idx()), 2u32, reg_field(rd.spec_idx()), 0x53)),
        Instruction::FsgnjxD { rd, rs1, rs2 } => Some(r_type(17u32, reg_field(rs2.spec_idx()), reg_field(rs1.spec_idx()), 2u32, reg_field(rd.spec_idx()), 0x53)),
        Instruction::FminS { rd, rs1, rs2 } => Some(r_type(20u32, reg_field(rs2.spec_idx()), reg_field(rs1.spec_idx()), 0u32, reg_field(rd.spec_idx()), 0x53)),
        Instruction::FminD { rd, rs1, rs2 } => Some(r_type(21u32, reg_field(rs2.spec_idx()), reg_field(rs1.spec_idx()), 0u32, reg_field(rd.spec_idx()), 0x53)),
        Instruction::FmaxS { rd, rs1, rs2 } => Some(r_type(20u32, reg_field(rs2.spec_idx()), reg_field(rs1.spec_idx()), 1u32, reg_field(rd.spec_idx()), 0x53)),
        Instruction::FmaxD { rd, rs1, rs2 } => Some(r_type(21u32, reg_field(rs2.spec_idx()), reg_field(rs1.spec_idx()), 1u32, reg_field(rd.spec_idx()), 0x53)),
        Instruction::FeqS { rd, rs1, rs2 } => Some(r_type(80u32, reg_field(rs2.spec_idx()), reg_field(rs1.spec_idx()), 2u32, reg_field(rd.spec_idx()), 0x53)),
        Instruction::FeqD { rd, rs1, rs2 } => Some(r_type(81u32, reg_field(rs2.spec_idx()), reg_field(rs1.spec_idx()), 2u32, reg_field(rd.spec_idx()), 0x53)),
        Instruction::FltS { rd, rs1, rs2 } => Some(r_type(80u32, reg_field(rs2.spec_idx()), reg_field(rs1.spec_idx()), 1u32, reg_field(rd.spec_idx()), 0x53)),
        Instruction::FltD { rd, rs1, rs2 } => Some(r_type(81u32, reg_field(rs2.spec_idx()), reg_field(rs1.spec_idx()), 1u32, reg_field(rd.spec_idx()), 0x53)),
        Instruction::FleS { rd, rs1, rs2 } => Some(r_type(80u32, reg_field(rs2.spec_idx()), reg_field(rs1.spec_idx()), 0u32, reg_field(rd.spec_idx()), 0x53)),
        Instruction::FleD { rd, rs1, rs2 } => Some(r_type(81u32, reg_field(rs2.spec_idx()), reg_field(rs1.spec_idx()), 0u32, reg_field(rd.spec_idx()), 0x53)),
        Instruction::FmvXW { rd, rs1 } => Some(r_type(112u32, 0u32, reg_field(rs1.spec_idx()), 0u32, reg_field(rd.spec_idx()), 0x53)),
        Instruction::FclassS { rd, rs1 } => Some(r_type(112u32, 0u32, reg_field(rs1.spec_idx()), 1u32, reg_field(rd.spec_idx()), 0x53)),
        Instruction::FmvXD { rd, rs1 } => Some(r_type(113u32, 0u32, reg_field(rs1.spec_idx()), 0u32, reg_field(rd.spec_idx()), 0x53)),
        Instruction::FclassD { rd, rs1 } => Some(r_type(113u32, 0u32, reg_field(rs1.spec_idx()), 1u32, reg_field(rd.spec_idx()), 0x53)),
        Instruction::FcvtWS { rd, rs1, rm } => if rm < 8 { Some(r_type(96u32, 0u32, reg_field(rs1.spec_idx()), rm as u32, reg_field(rd.spec_idx()), 0x53)) } else { None },
        Instruction::FcvtWD { rd, rs1, rm } => if rm < 8 { Some(r_type(97u32, 0u32, reg_field(rs1.spec_idx()), rm as u32, reg_field(rd.spec_idx()), 0x53)) } else { None },
        Instruction::FcvtSW { rd, rs1, rm } => if rm < 8 { Some(r_type(104u32, 0u32, reg_field(rs1.spec_idx()), rm as u32, reg_field(rd.spec_idx()), 0x53)) } else { None },
        Instruction::FcvtDW { rd, rs1, rm } => if rm < 8 { Some(r_type(105u32, 0u32, reg_field(rs1.spec_idx()), rm as u32, reg_field(rd.spec_idx()), 0x53)) } else { None },
        Instruction::FcvtWUS { rd, rs1, rm } => if rm < 8 { Some(r_type(96u32, 1u32, reg_field(rs1.spec_idx()), rm as u32, reg_field(rd.spec_idx()), 0x53)) } else { None },
        Instruction::FcvtWUD { rd, rs1, rm } => if rm < 8 { Some(r_type(97u32, 1u32, reg_field(rs1.spec_idx()), rm as u32, reg_field(rd.spec_idx()), 0x53)) } else { None },
        Instruction::FcvtSWU { rd, rs1, rm } => if rm < 8 { Some(r_type(104u32, 1u32, reg_field(rs1.spec_idx()), rm as u32, reg_field(rd.spec_idx()), 0x53)) } else { None },
        Instruction::FcvtDWU { rd, rs1, rm } => if rm < 8 { Some(r_type(105u32, 1u32, reg_field(rs1.spec_idx()), rm as u32, reg_field(rd.spec_idx()), 0x53)) } else { None },
        Instruction::FcvtLS { rd, rs1, rm } => if rm < 8 { Some(r_type(96u32, 2u32, reg_field(rs1.spec_idx()), rm as u32, reg_field(rd.spec_idx()), 0x53)) } else { None },
        Instruction::FcvtLD { rd, rs1, rm } => if rm < 8 { Some(r_type(97u32, 2u32, reg_field(rs1.spec_idx()), rm as u32, reg_field(rd.spec_idx()), 0x53)) } else { None },
        Instruction::FcvtSL { rd, rs1, rm } => if rm < 8 { Some(r_type(104u32, 2u32, reg_field(rs1.spec_idx()), rm as u32, reg_field(rd.spec_idx()), 0x53)) } else { None },
        Instruction::FcvtDL { rd, rs1, rm } => if rm < 8 { Some(r_type(105u32, 2u32, reg_field(rs1.spec_idx()), rm as u32, reg_field(rd.spec_idx()), 0x53)) } else { None },
        Instruction::FcvtLUS { rd, rs1, rm } => if rm < 8 { Some(r_type(96u32, 3u32, reg_field(rs1.spec_idx()), rm as u32, reg_field(rd.spec_idx()), 0x53)) } else { None },
        Instruction::FcvtLUD { rd, rs1, rm } => if rm < 8 { Some(r_type(97u32, 3u32, reg_field(rs1.spec_idx()), rm as u32, reg_field(rd.spec_idx()), 0x53)) } else { None },
        Instruction::FcvtSLU { rd, rs1, rm } => if rm < 8 { Some(r_type(104u32, 3u32, reg_field(rs1.spec_idx()), rm as u32, reg_field(rd.spec_idx()), 0x53)) } else { None },
        Instruction::FcvtDLU { rd, rs1, rm } => if rm < 8 { Some(r_type(105u32, 3u32, reg_field(rs1.spec_idx()), rm as u32, reg_field(rd.spec_idx()), 0x53)) } else { None },
        Instruction::FcvtDS { rd, rs1, rm } => if rm < 8 { Some(r_type(33u32, 0u32, reg_field(rs1.spec_idx()), rm as u32, reg_field(rd.spec_idx()), 0x53)) } else { None },
        Instruction::FcvtSD { rd, rs1, rm } => if rm < 8 { Some(r_type(32u32, 1u32, reg_field(rs1.spec_idx()), rm as u32, reg_field(rd.spec_idx()), 0x53)) } else { None },
        Instruction::FmvDX { rd, rs1 } => Some(r_type(121u32, 0u32, reg_field(rs1.spec_idx()), 0u32, reg_field(rd.spec_idx()), 0x53)),
        Instruction::FmvWX { rd, rs1 } => Some(r_type(120u32, 0u32, reg_field(rs1.spec_idx()), 0u32, reg_field(rd.spec_idx()), 0x53)),
        _ => None,
    }
}

/// The AMO word (opcode 0x2f) that encodes `i`, as the RISC-V A
/// extension lays it out (funct3 2 for words, 3 for doublewords);
/// `None` when `i` is no atomic instruction.
pub open spec fn encode_atomic(i: Instruction) -> Option<u32> {
    match i {
        Instruction::Lrw { rd, rs1, rl, aq } => Some(r_type(amo_funct7(0b00010, aq, rl), 0u32, reg_field(rs1.spec_idx()), 2u32, reg_field(rd.spec_idx()), 0x2f)),
        Instruction::Scw { rd, rs1, rs2, rl, aq } => Some(r_type(amo_funct7(0b00011, aq, rl), reg_field(rs2.spec_idx()), reg_field(rs1.spec_idx()), 2u32, reg_field(rd.spec_idx()), 0x2f)),
        Instruction::Amoswapw { rd, rs1, rs2, rl, aq } => Some(r_type(amo_funct7(1, aq, rl), reg_field(rs2.spec_idx()), reg_field(rs1.spec_idx()), 2u32, reg_field(rd.spec_idx()), 0x2f)),
        Instruction::Amoaddw { rd, rs1, rs2, rl, aq } => Some(r_type(amo_funct7(0, aq, rl), reg_field(rs2.spec_idx()), reg_field(rs1.spec_idx()), 2u32, reg_field(rd.spec_idx()), 0x2f)),
        Instruction::Amoxorw { rd, rs1, rs2, rl, aq } => Some(r_type(amo_funct7(4, aq, rl), reg_field(rs2.spec_idx()), reg_field(rs1.spec_idx()), 2u32, reg_field(rd.spec_idx()), 0x2f)),
        Instruction::Amoandw { rd, rs1, rs2, rl, aq } => Some(r_type(amo_funct7(12, aq, rl), reg_field(rs2.spec_idx()), reg_field(rs1.spec_idx()), 2u32, reg_field(rd.spec_idx()), 0x2f)),
        Instruction::Amoorw { rd, rs1, rs2, rl, aq } => Some(r_type(amo_funct7(8, aq, rl), reg_field(rs2.spec_idx()), reg_field(rs1.spec_idx()), 2u32, reg_field(rd.spec_idx()), 0x2f)),
        Instruction::Amominw { rd, rs1, rs2, rl, aq } => Some(r_type(amo_funct7(16, aq, rl), reg_field(rs2.spec_idx()), reg_field(rs1.spec_idx()), 2u32, reg_field(rd.spec_idx()), 0x2f)),
        Instruction::Amomaxw { rd, rs1, rs2, rl, aq } => Some(r_type(amo_funct7(20, aq, rl), reg_field(rs2.spec_idx()), reg_field(rs1.spec_idx()), 2u32, reg_field(rd.spec_idx()), 0x2f)),
        Instruction::Amominuw { rd, rs1, rs2, rl, aq } => Some(r_type(amo_funct7(24, aq, rl), reg_field(rs2.spec_idx()), reg_field(rs1.spec_idx()), 2u32, reg_field(rd.spec_idx()), 0x2f)),
        Instruction::Amomaxuw { rd, rs1, rs2, rl, aq } => Some(r_type(amo_funct7(28, aq, rl), reg_field(rs2.spec_idx()), reg_field(rs1.spec_idx()), 2u32, reg_field(rd.spec_idx()), 0x2f)),
        Instruction::Lrd { rd, rs1, rl, aq } => Some(r_type(amo_funct7(0b00010, aq, rl), 0u32, reg_field(rs1.spec_idx()), 3u32, reg_field(rd.spec_idx()), 0x2f)),
        Instruction::Scd { rd, rs1, rs2, rl, aq } => Some(r_type(amo_funct7(0b00011, aq, rl), reg_field(rs2.spec_idx()), reg_field(rs1.spec_idx()), 3u32, reg_field(rd.spec_idx()), 0x2f)),
        Instruction::Amoswapd { rd, rs1, rs2, rl, aq } => Some(r_type(amo_funct7(1, aq, rl), reg_field(rs2.spec_idx()), reg_field(rs1.spec_idx()), 3u32, reg_field(rd.spec_idx()), 0x2f)),
        Instruction::Amoaddd { rd, rs1, rs2, rl, aq } => Some(r_type(amo_funct7(0, aq, rl), reg_field(rs2.spec_idx()), reg_field(rs1.spec_idx()), 3u32, reg_field(rd.spec_idx()), 0x2f)),
        Instruction::Amoxord { rd, rs1, rs2, rl, aq } => Some(r_type(amo_funct7(4, aq, rl), reg_field(rs2.spec_idx()), reg_field(rs1.spec_idx()), 3u32, reg_field(rd.spec_idx()), 0x2f)),
        Instruction::Amoandd { rd, rs1, rs2, rl, aq } => Some(r_type(amo_funct7(12, aq, rl), reg_field(rs2.spec_idx()), reg_field(rs1.spec_idx()), 3u32, reg_field(rd.spec_idx()), 0x2f)),
        Instruction::Amoord { rd, rs1, rs2, rl, aq } => Some(r_type(amo_funct7(8, aq, rl), reg_field(rs2.spec_idx()), reg_field(rs1.spec_idx()), 3u32, reg_field(rd.spec_idx()), 0x2f)),
        Instruction::Amomind { rd, rs1, rs2, rl, aq } => Some(r_type(amo_funct7(16, aq, rl), reg_field(rs2.spec_idx()), reg_field(rs1.spec_idx()), 3u32, reg_field(rd.spec_idx()), 0x2f)),
        Instruction::Amomaxd { rd, rs1, rs2, rl, aq } => Some(r_type(amo_funct7(20, aq, rl), reg_field(rs2.spec_idx()), reg_field(rs1.spec_idx()), 3u32, reg_field(rd.spec_idx()), 0x2f)),
        Instruction::Amominud { rd, rs1, rs2, rl, aq } => Some(r_type(amo_funct7(24, aq, rl), reg_field(rs2.spec_idx()), reg_field(rs1.spec_idx()), 3u32, reg_field(rd.spec_idx()), 0x2f)),
        Instruction::Amomaxud { rd, rs1, rs2, rl, aq } => Some(r_type(amo_funct7(28, aq, rl), reg_field(rs2.spec_idx()), reg_field(rs1.spec_idx()), 3u32, reg_field(rd.spec_idx()), 0x2f)),
        _ => None,
    }
}

/// A word is its fields put back together, and each field fits its width.
proof fn lemma_r_fields(raw: u32)
    ensures
        raw == ((raw >> 25u32) << 25u32) | (((raw >> 20u32) & 31) << 20u32) | (((raw >> 15u32) & 31) << 15u32) | (((
            raw >> 12u32) & 7) << 12u32) | (((raw >> 7u32) & 31) << 7u32) | (raw & 0x7f),
        (raw >> 20u32) % 32 == (raw >> 20u32) & 31,
        (raw >> 15u32) % 32 == (raw >> 15u32) & 31,
        (raw >> 7u32) % 32 == (raw >> 7u32) & 31,
        (raw >> 20u32) & 31 < 32 && (raw >> 15u32) & 31 < 32 && (raw >> 7u32) & 31 < 32,
        (raw >> 12u32) & 7 < 8,
        (raw >> 25u32) == (((raw >> 27u32) & 0x1f) << 2u32) | (((raw >> 26u32) & 1) << 1u32) | ((raw >> 25u32) & 1),
        (raw >> 26u32) & 1 <= 1 && (raw >> 25u32) & 1 <= 1,
{
    assert(raw == ((raw >> 25u32) << 25u32) | (((raw >> 20u32) & 31) << 20u32) | (((raw >> 15u32) & 31) << 15u32) | (((
        raw >> 12u32) & 7) << 12u32) | (((raw >> 7u32) & 31) << 7u32) | (raw & 0x7f) && (raw >> 20u32) % 32
        == (raw >> 20u32) & 31 && (raw >> 15u32) % 32 == (raw >> 15u32) & 31 && (raw >> 7u32) % 32 == (raw >> 7u32)
        & 31 && (raw >> 20u32) & 31 < 32 && (raw >> 15u32) & 31 < 32 && (raw >> 7u32) & 31 < 32 && (raw >> 12u32)
        & 7 < 8 && (raw >> 25u32) == (((raw >> 27u32) & 0x1f) << 2u32) | (((raw >> 26u32) & 1) << 1u32) | ((raw
        >> 25u32) & 1) && (raw >> 26u32) & 1 <= 1 && (raw >> 25u32) & 1 <= 1) by (bit_vector);
}

/// The register fields of a word, as the decoder names them, give back
/// the word's bits.
proof fn lemma_fields_named(raw: u32)
    ensures
        reg_field(spec_rd(raw).spec_idx()) == (raw >> 7u32) & 31,
        reg_field(spec_rs1(raw).spec_idx()) == (raw >> 15u32) & 31,
        reg_field(spec_rs2(raw).spec_idx()) == (raw >> 20u32) & 31,
        reg_field(spec_frd(raw).spec_idx()) == (raw >> 7u32) & 31,
        reg_field(spec_frs1(raw).spec_idx()) == (raw >> 15u32) & 31,
        reg_field(spec_frs2(raw).spec_idx()) == (raw >> 20u32) & 31,
        ((spec_funct3(raw) as u8) as u32) == (raw >> 12u32) & 7,
{
    lemma_r_fields(raw);
}

/// Decoding OP-FP loses nothing: a word that decodes to an instruction
/// is the encoding of that instruction.
pub proof fn law_op_fp_decoded_encodes_back(raw: u32)
    requires
        raw & 0x7f == 0x53,
    ensures
        !(spec_decode_op_fp(raw) is Undefined) ==> encode_op_fp(spec_decode_op_fp(raw)) == Some(raw),
{
    lemma_r_fields(raw);
    lemma_fields_named(raw);
    assert(raw == r_type(raw >> 25u32, (raw >> 20u32) & 31, (raw >> 15u32) & 31, (raw >> 12u32) & 7, (raw >> 7u32) & 31, raw & 0x7f));
}

/// Decoding AMO loses nothing: a word that decodes to an instruction is
/// the encoding of that instruction.
pub proof fn law_atomic_decoded_encodes_back(raw: u32)
    requires
        raw & 0x7f == 0x2f,
    ensures
        !(spec_decode_atomic(raw) is Undefined) ==> encode_atomic(spec_decode_atomic(raw)) == Some(raw),
{
    lemma_r_fields(raw);
    lemma_fields_named(raw);
    assert(raw == r_type(raw >> 25u32, (raw >> 20u32) & 31, (raw >> 15u32) & 31, (raw >> 12u32) & 7, (raw >> 7u32) & 31, raw & 0x7f));
    let aq = ((raw >> 26u32) & 1) != 0;
    let rl = ((raw >> 25u32) & 1) != 0;
    assert((if aq { 1u32 } else { 0u32 }) == (raw >> 26u32) & 1);
    assert((if rl { 1u32 } else { 0u32 }) == (raw >> 25u32) & 1);
}

/// The fields of an R-type word come back out of it.
proof fn lemma_r_extract(funct7: u32, rs2: u32, rs1: u32, funct3: u32, rd: u32, opcode: u32)
    requires
        funct7 < 128 && rs2 < 32 && rs1 < 32 && funct3 < 8 && rd < 32 && opcode < 128,
    ensures
        ({
            let w = r_type(funct7, rs2, rs1, funct3, rd, opcode);
            &&& w >> 25u32 == funct7
            &&& (w >> 20u32) & 31 == rs2 && (w >> 15u32) & 31 == rs1 && (w >> 12u32) & 7 == funct3
            &&& (w >> 7u32) & 31 == rd && w & 0x7f == opcode
        }),
{
    let w = r_type(funct7, rs2, rs1, funct3, rd, opcode);
    assert(w == (funct7 << 25u32) | (rs2 << 20u32) | (rs1 << 15u32) | (funct3 << 12u32) | (rd << 7u32) | opcode);
    assert(((funct7 << 25u32) | (rs2 << 20u32) | (rs1 << 15u32) | (funct3 << 12u32) | (rd << 7u32) | opcode) >> 25u32
        == funct7 && (((funct7 << 25u32) | (rs2 << 20u32) | (rs1 << 15u32) | (funct3 << 12u32) | (rd << 7u32)
        | opcode) >> 20u32) & 31 == rs2 && (((funct7 << 25u32) | (rs2 << 20u32) | (rs1 << 15u32) | (funct3 << 12u32)
        | (rd << 7u32) | opcode) >> 15u32) & 31 == rs1 && (((funct7 << 25u32) | (rs2 << 20u32) | (rs1 << 15u32) | (
        funct3 << 12u32) | (rd << 7u32) | opcode) >> 12u32) & 7 == funct3 && (((funct7 << 25u32) | (rs2 << 20u32) | (
        rs1 << 15u32) | (funct3 << 12u32) | (rd << 7u32) | opcode) >> 7u32) & 31 == rd && ((funct7 << 25u32) | (rs2
        << 20u32) | (rs1 << 15u32) | (funct3 << 12u32) | (rd << 7u32) | opcode) & 0x7f == opcode) by (bit_vector)
        requires
            funct7 < 128 && rs2 < 32 && rs1 < 32 && funct3 < 8 && rd < 32 && opcode < 128,
    ;
}

/// Every OP-FP instruction's encoding decodes: the word decodes to an
/// instruction (not `Undefined`) with the same encoding.
pub proof fn law_op_fp_encoding_decodes(i: Instruction)
    ensures
        encode_op_fp(i) matches Some(w) ==> !(spec_decode_op_fp(w) is Undefined) && encode_op_fp(spec_decode_op_fp(w))
            == Some(w),
{
    if let Some(w) = encode_op_fp(i) {
        match i {
            Instruction::FaddS { rd, rs1, rs2, rm } => {
                lemma_r_extract(0u32, reg_field(rs2.spec_idx()), reg_field(rs1.spec_idx()), rm as u32, reg_field(rd.spec_idx()), 0x53);
            },
            Instruction::FaddD { rd, rs1, rs2, rm } => {
                lemma_r_extract(1u32, reg_field(rs2.spec_idx()), reg_field(rs1.spec_idx()), rm as u32, reg_field(rd.spec_idx()), 0x53);
            },
            Instruction::FsubS { rd, rs1, rs2, rm } => {
                lemma_r_extract(4u32, reg_field(rs2.spec_idx()), reg_field(rs1.spec_idx()), rm as u32, reg_field(rd.spec_idx()), 0x53);
            },
            Instruction::FsubD { rd, rs1, rs2, rm } => {
                lemma_r_extract(5u32, reg_field(rs2.spec_idx()), reg_field(rs1.spec_idx()), rm as u32, reg_field(rd.spec_idx()), 0x53);
            },
            Instruction::FmulS { rd, rs1, rs2, rm } => {
                lemma_r_extract(8u32, reg_field(rs2.spec_idx()), reg_field(rs1.spec_idx()), rm as u32, reg_field(rd.spec_idx()), 0x53);
            },
            Instruction::FmulD { rd, rs1, rs2, rm } => {
                lemma_r_extract(9u32, reg_field(rs2.spec_idx()), reg_field(rs1.spec_idx()), rm as u32, reg_field(rd.spec_idx()), 0x53);
            },
            Instruction::FdivS { rd, rs1, rs2, rm } => {
                lemma_r_extract(12u32, reg_field(rs2.spec_idx()), reg_field(rs1.spec_idx()), rm as u32, reg_field(rd.spec_idx()), 0x53);
            },
            Instruction::FdivD { rd, rs1, rs2, rm } => {
                lemma_r_extract(13u32, reg_field(rs2.spec_idx()), reg_field(rs1.spec_idx()), rm as u32, reg_field(rd.spec_idx()), 0x53);
            },
            Instruction::FsqrtS { rd, rs1, rm } => {
                lemma_r_extract(44u32, 0u32, reg_field(rs1.spec_idx()), rm as u32, reg_field(rd.spec_idx()), 0x53);
            },
            Instruction::FsqrtD { rd, rs1, rm } => {
                lemma_r_extract(45u32, 0u32, reg_field(rs1.spec_idx()), rm as u32, reg_field(rd.spec_idx()), 0x53);
            },
            Instruction::FsgnjS { rd, rs1, rs2 } => {
                lemma_r_extract(16u32, reg_field(rs2.spec_idx()), reg_field(rs1.spec_idx()), 0u32, reg_field(rd.spec_idx()), 0x53);
            },
            Instruction::FsgnjD { rd, rs1, rs2 } => {
                lemma_r_extract(17u32, reg_field(rs2.spec_idx()), reg_field(rs1.spec_idx()), 0u32, reg_field(rd.spec_idx()), 0x53);
            },
            Instruction::FsgnjnS { rd, rs1, rs2 } => {
                lemma_r_extract(16u32, reg_field(rs2.spec_idx()), reg_field(rs1.spec_idx()), 1u32, reg_field(rd.spec_idx()), 0x53);
            },
            Instruction::FsgnjnD { rd, rs1, rs2 } => {
                lemma_r_extract(17u32, reg_field(rs2.spec_idx()), reg_field(rs1.spec_idx()), 1u32, reg_field(rd.spec_idx()), 0x53);
            },
            Instruction::FsgnjxS { rd, rs1, rs2 } => {
                lemma_r_extract(16u32, reg_field(rs2.spec_idx()), reg_field(rs1.spec_idx()), 2u32, reg_field(rd.spec_idx()), 0x53);
            },
            Instruction::FsgnjxD { rd, rs1, rs2 } => {
                lemma_r_extract(17u32, reg_field(rs2.spec_idx()), reg_field(rs1.spec_idx()), 2u32, reg_field(rd.spec_idx()), 0x53);
            },
            Instruction::FminS { rd, rs1, rs2 } => {
                lemma_r_extract(20u32, reg_field(rs2.spec_idx()), reg_field(rs1.spec_idx()), 0u32, reg_field(rd.spec_idx()), 0x53);
            },
            Instruction::FminD { rd, rs1, rs2 } => {
                lemma_r_extract(21u32, reg_field(rs2.spec_idx()), reg_field(rs1.spec_idx()), 0u32, reg_field(rd.spec_idx()), 0x53);
            },
            Instruction::FmaxS { rd, rs1, rs2 } => {
                lemma_r_extract(20u32, reg_field(rs2.spec_idx()), reg_field(rs1.spec_idx()), 1u32, reg_field(rd.spec_idx()), 0x53);
            },
            Instruction::FmaxD { rd, rs1, rs2 } => {
                lemma_r_extract(21u32, reg_field(rs2.spec_idx()), reg_field(rs1.spec_idx()), 1u32, reg_field(rd.spec_idx()), 0x53);
            },
            Instruction::FeqS { rd, rs1, rs2 } => {
                lemma_r_extract(80u32, reg_field(rs2.spec_idx()), reg_field(rs1.spec_idx()), 2u32, reg_field(rd.spec_idx()), 0x53);
            },
            Instruction::FeqD { rd, rs1, rs2 } => {
                lemma_r_extract(81u32, reg_field(rs2.spec_idx()), reg_field(rs1.spec_idx()), 2u32, reg_field(rd.spec_idx()), 0x53);
            },
            Instruction::FltS { rd, rs1, rs2 } => {
                lemma_r_extract(80u32, reg_field(rs2.spec_idx()), reg_field(rs1.spec_idx()), 1u32, reg_field(rd.spec_idx()), 0x53);
            },
            Instruction::FltD { rd, rs1, rs2 } => {
                lemma_r_extract(81u32, reg_field(rs2.spec_idx()), reg_field(rs1.spec_idx()), 1u32, reg_field(rd.spec_idx()), 0x53);
            },
            Instruction::FleS { rd, rs1, rs2 } => {
                lemma_r_extract(80u32, reg_field(rs2.spec_idx()), reg_field(rs1.spec_idx()), 0u32, reg_field(rd.spec_idx()), 0x53);
            },
            Instruction::FleD { rd, rs1, rs2 } => {
                lemma_r_extract(81u32, reg_field(rs2.spec_idx()), reg_field(rs1.spec_idx()), 0u32, reg_field(rd.spec_idx()), 0x53);
            },
            Instruction::FmvXW { rd, rs1 } => {
                lemma_r_extract(112u32, 0u32, reg_field(rs1.spec_idx()), 0u32, reg_field(rd.spec_idx()), 0x53);
            },
            Instruction::FclassS { rd, rs1 } => {
                lemma_r_extract(112u32, 0u32, reg_field(rs1.spec_idx()), 1u32, reg_field(rd.spec_idx()), 0x53);
            },
            Instruction::FmvXD { rd, rs1 } => {
                lemma_r_extract(113u32, 0u32, reg_field(rs1.spec_idx()), 0u32, reg_field(rd.spec_idx()), 0x53);
            },
            Instruction::FclassD { rd, rs1 } => {
                lemma_r_extract(113u32, 0u32, reg_field(rs1.spec_idx()), 1u32, reg_field(rd.spec_idx()), 0x53);
            },
            Instruction::FcvtWS { rd, rs1, rm } => {
                lemma_r_extract(96u32, 0u32, reg_field(rs1.spec_idx()), rm as u32, reg_field(rd.spec_idx()), 0x53);
            },
            Instruction::FcvtWD { rd, rs1, rm } => {
                lemma_r_extract(97u32, 0u32, reg_field(rs1.spec_idx()), rm as u32, reg_field(rd.spec_idx()), 0x53);
            },
            Instruction::FcvtSW { rd, rs1, rm } => {
                lemma_r_extract(104u32, 0u32, reg_field(rs1.spec_idx()), rm as u32, reg_field(rd.spec_idx()), 0x53);
            },
            Instruction::FcvtDW { rd, rs1, rm } => {
                lemma_r_extract(105u32, 0u32, reg_field(rs1.spec_idx()), rm as u32, reg_field(rd.spec_idx()), 0x53);
            },
            Instruction::FcvtWUS { rd, rs1, rm } => {
                lemma_r_extract(96u32, 1u32, reg_field(rs1.spec_idx()), rm as u32, reg_field(rd.spec_idx()), 0x53);
            },
            Instruction::FcvtWUD { rd, rs1, rm } => {
                lemma_r_extract(97u32, 1u32, reg_field(rs1.spec_idx()), rm as u32, reg_field(rd.spec_idx()), 0x53);
            },
            Instruction::FcvtSWU { rd, rs1, rm } => {
                lemma_r_extract(104u32, 1u32, reg_field(rs1.spec_idx()), rm as u32, reg_field(rd.spec_idx()), 0x53);
            },
            Instruction::FcvtDWU { rd, rs1, rm } => {
                lemma_r_extract(105u32, 1u32, reg_field(rs1.spec_idx()), rm as u32, reg_field(rd.spec_idx()), 0x53);
            },
            Instruction::FcvtLS { rd, rs1, rm } => {
                lemma_r_extract(96u32, 2u32, reg_field(rs1.spec_idx()), rm as u32, reg_field(rd.spec_idx()), 0x53);
            },
            Instruction::FcvtLD { rd, rs1, rm } => {
                lemma_r_extract(97u32, 2u32, reg_field(rs1.spec_idx()), rm as u32, reg_field(rd.spec_idx()), 0x53);
            },
            Instruction::FcvtSL { rd, rs1, rm } => {
                lemma_r_extract(104u32, 2u32, reg_field(rs1.spec_idx()), rm as u32, reg_field(rd.spec_idx()), 0x53);
            },
            Instruction::FcvtDL { rd, rs1, rm } => {
                lemma_r_extract(105u32, 2u32, reg_field(rs1.spec_idx()), rm as u32, reg_field(rd.spec_idx()), 0x53);
            },
            Instruction::FcvtLUS { rd, rs1, rm } => {
                lemma_r_extract(96u32, 3u32, reg_field(rs1.spec_idx()), rm as u32, reg_field(rd.spec_idx()), 0x53);
            },
            Instruction::FcvtLUD { rd, rs1, rm } => {
                lemma_r_extract(97u32, 3u32, reg_field(rs1.spec_idx()), rm as u32, reg_field(rd.spec_idx()), 0x53);
            },
            Instruction::FcvtSLU { rd, rs1, rm } => {
                lemma_r_extract(104u32, 3u32, reg_field(rs1.spec_idx()), rm as u32, reg_field(rd.spec_idx()), 0x53);
            },
            Instruction::FcvtDLU { rd, rs1, rm } => {
                lemma_r_extract(105u32, 3u32, reg_field(rs1.spec_idx()), rm as u32, reg_field(rd.spec_idx()), 0x53);
            },
            Instruction::FcvtDS { rd, rs1, rm } => {
                lemma_r_extract(33u32, 0u32, reg_field(rs1.spec_idx()), rm as u32, reg_field(rd.spec_idx()), 0x53);
            },
            Instruction::FcvtSD { rd, rs1, rm } => {
                lemma_r_extract(32u32, 1u32, reg_field(rs1.spec_idx()), rm as u32, reg_field(rd.spec_idx()), 0x53);
            },
            Instruction::FmvDX { rd, rs1 } => {
                lemma_r_extract(121u32, 0u32, reg_field(rs1.spec_idx()), 0u32, reg_field(rd.spec_idx()), 0x53);
            },
            Instruction::FmvWX { rd, rs1 } => {
                lemma_r_extract(120u32, 0u32, reg_field(rs1.spec_idx()), 0u32, reg_field(rd.spec_idx()), 0x53);
            },
            _ => {},
        }
        law_op_fp_decoded_encodes_back(w);
    }
}

} // verus!
