use vstd::prelude::*;

use crate::decode::formats::{
    csr_field, fence_fm, fence_pred, fence_succ, funct3, funct5, funct6, funct7, imm12, imm_b, imm_i,
    imm_j, imm_s, imm_u, opcode, rd, rs1, rs2, shamt5, shamt6, spec_csr_field, spec_fence_fm,
    spec_fence_pred, spec_fence_succ, spec_funct3, spec_funct5, spec_funct6, spec_funct7,
    spec_imm12, spec_imm_b, spec_imm_i, spec_imm_j, spec_imm_s, spec_imm_u, spec_opcode, spec_rd,
    spec_rs1, spec_rs2, spec_shamt5, spec_shamt6, spec_uimm, uimm,
};
use crate::decode::opcode::{
    OPCODE_FMADD, OPCODE_FMSUB, OPCODE_FNMADD, OPCODE_FNMSUB, OP, OP_ATOMIC, OP_AUIPC, OP_BRANCH,
    OP_FP, OP_IMM, OP_IMM_W, OP_JAL, OP_JALR, OP_LOAD, OP_LOAD_FP, OP_LUI, OP_MISC_MEM, OP_STORE,
    OP_STORE_FP, OP_SYSTEM, OP_W,
};
use crate::decode::rv64fd::{
    decode_load_fp, decode_madd, decode_msub, decode_nmadd, decode_nmsub, decode_op_fp,
    decode_store_fp, spec_decode_load_fp, spec_decode_madd, spec_decode_msub, spec_decode_nmadd,
    spec_decode_nmsub, spec_decode_op_fp, spec_decode_store_fp,
};
use crate::instruction::Instruction;

verus! {

/// OP-IMM: register-immediate ALU operations.
pub open spec fn spec_decode_op_imm(raw: u32) -> Instruction {
    let rd = rd(raw);
    let rs1 = rs1(raw);
    let imm = imm_i(raw);
    let shamt = shamt6(raw);
    let f3 = funct3(raw);
    if f3 == 0b000 {
        Instruction::Addi { rd, rs1, imm }
    } else if f3 == 0b010 {
        Instruction::Slti { rd, rs1, imm }
    } else if f3 == 0b011 {
        Instruction::Sltiu { rd, rs1, imm }
    } else if f3 == 0b100 {
        Instruction::Xori { rd, rs1, imm }
    } else if f3 == 0b110 {
        Instruction::Ori { rd, rs1, imm }
    } else if f3 == 0b111 {
        Instruction::Andi { rd, rs1, imm }
    } else if f3 == 0b001 {
        if funct6(raw) == 0 { Instruction::Slli { rd, rs1, shamt } } else { Instruction::Undefined { raw } }
    } else {
        let f6 = funct6(raw);
        if f6 == 0 {
            Instruction::Srli { rd, rs1, shamt }
        } else if f6 == 0b010000 {
            Instruction::Srai { rd, rs1, shamt }
        } else {
            Instruction::Undefined { raw }
        }
    }
}

/// OP-IMM: register-immediate ALU operations.
fn decode_op_imm(raw: u32) -> (r: Instruction)
    ensures
        r == spec_decode_op_imm(raw),
{
    let rd = rd(raw);
    let rs1 = rs1(raw);
    let imm = imm_i(raw);
    let shamt = shamt6(raw);
    let f3 = funct3(raw);
    if f3 == 0b000 {
        Instruction::Addi { rd, rs1, imm }
    } else if f3 == 0b010 {
        Instruction::Slti { rd, rs1, imm }
    } else if f3 == 0b011 {
        Instruction::Sltiu { rd, rs1, imm }
    } else if f3 == 0b100 {
        Instruction::Xori { rd, rs1, imm }
    } else if f3 == 0b110 {
        Instruction::Ori { rd, rs1, imm }
    } else if f3 == 0b111 {
        Instruction::Andi { rd, rs1, imm }
    } else if f3 == 0b001 {
        if funct6(raw) == 0 { Instruction::Slli { rd, rs1, shamt } } else { Instruction::Undefined { raw } }
    } else {
        let f6 = funct6(raw);
        if f6 == 0 {
            Instruction::Srli { rd, rs1, shamt }
        } else if f6 == 0b010000 {
            Instruction::Srai { rd, rs1, shamt }
        } else {
            Instruction::Undefined { raw }
        }
    }
}

/// OP-IMM-32: word register-immediate operations.
pub open spec fn spec_decode_op_imm_w(raw: u32) -> Instruction {
    let rs1 = rs1(raw);
    let rd = rd(raw);
    let imm = imm_i(raw);
    let shamt = shamt5(raw);
    let f3 = funct3(raw);
    if f3 == 0b000 {
        Instruction::Addiw { rd, rs1, imm }
    } else if f3 == 0b001 {
        Instruction::Slliw { rd, rs1, shamt }
    } else if f3 == 0b101 {
        let f7 = funct7(raw);
        if f7 == 0 {
            Instruction::Srliw { rd, rs1, shamt }
        } else if f7 == 0b0100000 {
            Instruction::Sraiw { rd, rs1, shamt }
        } else {
            Instruction::Undefined { raw }
        }
    } else {
        Instruction::Undefined { raw }
    }
}

/// OP-IMM-32: word register-immediate operations.
fn decode_op_imm_w(raw: u32) -> (r: Instruction)
    ensures
        r == spec_decode_op_imm_w(raw),
{
    let rs1 = rs1(raw);
    let rd = rd(raw);
    let imm = imm_i(raw);
    let shamt = shamt5(raw);
    let f3 = funct3(raw);
    if f3 == 0b000 {
        Instruction::Addiw { rd, rs1, imm }
    } else if f3 == 0b001 {
        Instruction::Slliw { rd, rs1, shamt }
    } else if f3 == 0b101 {
        let f7 = funct7(raw);
        if f7 == 0 {
            Instruction::Srliw { rd, rs1, shamt }
        } else if f7 == 0b0100000 {
            Instruction::Sraiw { rd, rs1, shamt }
        } else {
            Instruction::Undefined { raw }
        }
    } else {
        Instruction::Undefined { raw }
    }
}

/// OP: register-register ALU and M-extension operations.
pub open spec fn spec_decode_op(raw: u32) -> Instruction {
    let rs1 = rs1(raw);
    let rs2 = rs2(raw);
    let rd = rd(raw);
    let f7 = funct7(raw);
    let f3 = funct3(raw);
    if f7 == 0b0000000 && f3 == 0b000 {
        Instruction::Add { rd, rs1, rs2 }
    } else if f7 == 0b0100000 && f3 == 0b000 {
        Instruction::Sub { rd, rs1, rs2 }
    } else if f7 == 0b0000000 && f3 == 0b001 {
        Instruction::Sll { rd, rs1, rs2 }
    } else if f7 == 0b0000000 && f3 == 0b010 {
        Instruction::Slt { rd, rs1, rs2 }
    } else if f7 == 0b0000000 && f3 == 0b011 {
        Instruction::Sltu { rd, rs1, rs2 }
    } else if f7 == 0b0000000 && f3 == 0b100 {
        Instruction::Xor { rd, rs1, rs2 }
    } else if f7 == 0b0000000 && f3 == 0b101 {
        Instruction::Srl { rd, rs1, rs2 }
    } else if f7 == 0b0100000 && f3 == 0b101 {
        Instruction::Sra { rd, rs1, rs2 }
    } else if f7 == 0b0000000 && f3 == 0b110 {
        Instruction::Or { rd, rs1, rs2 }
    } else if f7 == 0b0000000 && f3 == 0b111 {
        Instruction::And { rd, rs1, rs2 }
    } else if f7 == 0b0000001 && f3 == 0b000 {
        Instruction::Mul { rd, rs1, rs2 }
    } else if f7 == 0b0000001 && f3 == 0b001 {
        Instruction::Mulh { rd, rs1, rs2 }
    } else if f7 == 0b0000001 && f3 == 0b010 {
        Instruction::Mulhsu { rd, rs1, rs2 }
    } else if f7 == 0b0000001 && f3 == 0b011 {
        Instruction::Mulhu { rd, rs1, rs2 }
    } else if f7 == 0b0000001 && f3 == 0b100 {
        Instruction::Div { rd, rs1, rs2 }
    } else if f7 == 0b0000001 && f3 == 0b101 {
        Instruction::Divu { rd, rs1, rs2 }
    } else if f7 == 0b0000001 && f3 == 0b110 {
        Instruction::Rem { rd, rs1, rs2 }
    } else if f7 == 0b0000001 && f3 == 0b111 {
        Instruction::Remu { rd, rs1, rs2 }
    } else {
        Instruction::Undefined { raw }
    }
}

/// OP: register-register ALU and M-extension operations.
fn decode_op(raw: u32) -> (r: Instruction)
    ensures
        r == spec_decode_op(raw),
{
    let rs1 = rs1(raw);
    let rs2 = rs2(raw);
    let rd = rd(raw);
    let f7 = funct7(raw);
    let f3 = funct3(raw);
    if f7 == 0b0000000 && f3 == 0b000 {
        Instruction::Add { rd, rs1, rs2 }
    } else if f7 == 0b0100000 && f3 == 0b000 {
        Instruction::Sub { rd, rs1, rs2 }
    } else if f7 == 0b0000000 && f3 == 0b001 {
        Instruction::Sll { rd, rs1, rs2 }
    } else if f7 == 0b0000000 && f3 == 0b010 {
        Instruction::Slt { rd, rs1, rs2 }
    } else if f7 == 0b0000000 && f3 == 0b011 {
        Instruction::Sltu { rd, rs1, rs2 }
    } else if f7 == 0b0000000 && f3 == 0b100 {
        Instruction::Xor { rd, rs1, rs2 }
    } else if f7 == 0b0000000 && f3 == 0b101 {
        Instruction::Srl { rd, rs1, rs2 }
    } else if f7 == 0b0100000 && f3 == 0b101 {
        Instruction::Sra { rd, rs1, rs2 }
    } else if f7 == 0b0000000 && f3 == 0b110 {
        Instruction::Or { rd, rs1, rs2 }
    } else if f7 == 0b0000000 && f3 == 0b111 {
        Instruction::And { rd, rs1, rs2 }
    } else if f7 == 0b0000001 && f3 == 0b000 {
        Instruction::Mul { rd, rs1, rs2 }
    } else if f7 == 0b0000001 && f3 == 0b001 {
        Instruction::Mulh { rd, rs1, rs2 }
    } else if f7 == 0b0000001 && f3 == 0b010 {
        Instruction::Mulhsu { rd, rs1, rs2 }
    } else if f7 == 0b0000001 && f3 == 0b011 {
        Instruction::Mulhu { rd, rs1, rs2 }
    } else if f7 == 0b0000001 && f3 == 0b100 {
        Instruction::Div { rd, rs1, rs2 }
    } else if f7 == 0b0000001 && f3 == 0b101 {
        Instruction::Divu { rd, rs1, rs2 }
    } else if f7 == 0b0000001 && f3 == 0b110 {
        Instruction::Rem { rd, rs1, rs2 }
    } else if f7 == 0b0000001 && f3 == 0b111 {
        Instruction::Remu { rd, rs1, rs2 }
    } else {
        Instruction::Undefined { raw }
    }
}

/// OP-32: word register-register operations.
pub open spec fn spec_decode_op_w(raw: u32) -> Instruction {
    let rs1 = rs1(raw);
    let rs2 = rs2(raw);
    let rd = rd(raw);
    let f7 = funct7(raw);
    let f3 = funct3(raw);
    if f7 == 0b0000000 && f3 == 0b000 {
        Instruction::Addw { rd, rs1, rs2 }
    } else if f7 == 0b0100000 && f3 == 0b000 {
        Instruction::Subw { rd, rs1, rs2 }
    } else if f7 == 0b0000000 && f3 == 0b001 {
        Instruction::Sllw { rd, rs1, rs2 }
    } else if f7 == 0b0000000 && f3 == 0b101 {
        Instruction::Srlw { rd, rs1, rs2 }
    } else if f7 == 0b0100000 && f3 == 0b101 {
        Instruction::Sraw { rd, rs1, rs2 }
    } else if f7 == 0b0000001 && f3 == 0b000 {
        Instruction::Mulw { rd, rs1, rs2 }
    } else if f7 == 0b0000001 && f3 == 0b100 {
        Instruction::Divw { rd, rs1, rs2 }
    } else if f7 == 0b0000001 && f3 == 0b101 {
        Instruction::Divuw { rd, rs1, rs2 }
    } else if f7 == 0b0000001 && f3 == 0b110 {
        Instruction::Remw { rd, rs1, rs2 }
    } else if f7 == 0b0000001 && f3 == 0b111 {
        Instruction::Remuw { rd, rs1, rs2 }
    } else {
        Instruction::Undefined { raw }
    }
}

/// OP-32: word register-register operations.
fn decode_op_w(raw: u32) -> (r: Instruction)
    ensures
        r == spec_decode_op_w(raw),
{
    let rs1 = rs1(raw);
    let rs2 = rs2(raw);
    let rd = rd(raw);
    let f7 = funct7(raw);
    let f3 = funct3(raw);
    if f7 == 0b0000000 && f3 == 0b000 {
        Instruction::Addw { rd, rs1, rs2 }
    } else if f7 == 0b0100000 && f3 == 0b000 {
        Instruction::Subw { rd, rs1, rs2 }
    } else if f7 == 0b0000000 && f3 == 0b001 {
        Instruction::Sllw { rd, rs1, rs2 }
    } else if f7 == 0b0000000 && f3 == 0b101 {
        Instruction::Srlw { rd, rs1, rs2 }
    } else if f7 == 0b0100000 && f3 == 0b101 {
        Instruction::Sraw { rd, rs1, rs2 }
    } else if f7 == 0b0000001 && f3 == 0b000 {
        Instruction::Mulw { rd, rs1, rs2 }
    } else if f7 == 0b0000001 && f3 == 0b100 {
        Instruction::Divw { rd, rs1, rs2 }
    } else if f7 == 0b0000001 && f3 == 0b101 {
        Instruction::Divuw { rd, rs1, rs2 }
    } else if f7 == 0b0000001 && f3 == 0b110 {
        Instruction::Remw { rd, rs1, rs2 }
    } else if f7 == 0b0000001 && f3 == 0b111 {
        Instruction::Remuw { rd, rs1, rs2 }
    } else {
        Instruction::Undefined { raw }
    }
}

/// AMO: load-reserved, store-conditional and atomic memory operations; LR with a nonzero rs2 field is undefined.
pub open spec fn spec_decode_atomic(raw: u32) -> Instruction {
    let rl = ((raw >> 25) & 1) != 0;
    let aq = ((raw >> 26) & 1) != 0;
    let rs1 = rs1(raw);
    let rs2 = rs2(raw);
    let rd = rd(raw);
    let f5 = funct5(raw);
    let f3 = funct3(raw);
    if f5 == 0b00010 && f3 == 0b010 {
        if !rs2.is_zero() { Instruction::Undefined { raw } } else { Instruction::Lrw { rd, rs1, rl, aq } }
    } else if f5 == 0b00011 && f3 == 0b010 {
        Instruction::Scw { rd, rs1, rs2, rl, aq }
    } else if f5 == 0b00001 && f3 == 0b010 {
        Instruction::Amoswapw { rd, rs1, rs2, rl, aq }
    } else if f5 == 0b00000 && f3 == 0b010 {
        Instruction::Amoaddw { rd, rs1, rs2, rl, aq }
    } else if f5 == 0b00100 && f3 == 0b010 {
        Instruction::Amoxorw { rd, rs1, rs2, rl, aq }
    } else if f5 == 0b01100 && f3 == 0b010 {
        Instruction::Amoandw { rd, rs1, rs2, rl, aq }
    } else if f5 == 0b01000 && f3 == 0b010 {
        Instruction::Amoorw { rd, rs1, rs2, rl, aq }
    } else if f5 == 0b10000 && f3 == 0b010 {
        Instruction::Amominw { rd, rs1, rs2, rl, aq }
    } else if f5 == 0b10100 && f3 == 0b010 {
        Instruction::Amomaxw { rd, rs1, rs2, rl, aq }
    } else if f5 == 0b11000 && f3 == 0b010 {
        Instruction::Amominuw { rd, rs1, rs2, rl, aq }
    } else if f5 == 0b11100 && f3 == 0b010 {
        Instruction::Amomaxuw { rd, rs1, rs2, rl, aq }
    } else if f5 == 0b00010 && f3 == 0b011 {
        if !rs2.is_zero() { Instruction::Undefined { raw } } else { Instruction::Lrd { rd, rs1, rl, aq } }
    } else if f5 == 0b00011 && f3 == 0b011 {
        Instruction::Scd { rd, rs1, rs2, rl, aq }
    } else if f5 == 0b00001 && f3 == 0b011 {
        Instruction::Amoswapd { rd, rs1, rs2, rl, aq }
    } else if f5 == 0b00000 && f3 == 0b011 {
        Instruction::Amoaddd { rd, rs1, rs2, rl, aq }
    } else if f5 == 0b00100 && f3 == 0b011 {
        Instruction::Amoxord { rd, rs1, rs2, rl, aq }
    } else if f5 == 0b01100 && f3 == 0b011 {
        Instruction::Amoandd { rd, rs1, rs2, rl, aq }
    } else if f5 == 0b01000 && f3 == 0b011 {
        Instruction::Amoord { rd, rs1, rs2, rl, aq }
    } else if f5 == 0b10000 && f3 == 0b011 {
        Instruction::Amomind { rd, rs1, rs2, rl, aq }
    } else if f5 == 0b10100 && f3 == 0b011 {
        Instruction::Amomaxd { rd, rs1, rs2, rl, aq }
    } else if f5 == 0b11000 && f3 == 0b011 {
        Instruction::Amominud { rd, rs1, rs2, rl, aq }
    } else if f5 == 0b11100 && f3 == 0b011 {
        Instruction::Amomaxud { rd, rs1, rs2, rl, aq }
    } else {
        Instruction::Undefined { raw }
    }
}

/// AMO: load-reserved, store-conditional and atomic memory operations; LR with a nonzero rs2 field is undefined.
fn decode_atomic(raw: u32) -> (r: Instruction)
    ensures
        r == spec_decode_atomic(raw),
{
    let rl = ((raw >> 25) & 1) != 0;
    let aq = ((raw >> 26) & 1) != 0;
    let rs1 = rs1(raw);
    let rs2 = rs2(raw);
    let rd = rd(raw);
    let f5 = funct5(raw);
    let f3 = funct3(raw);
    if f5 == 0b00010 && f3 == 0b010 {
        if !rs2.is_zero() { Instruction::Undefined { raw } } else { Instruction::Lrw { rd, rs1, rl, aq } }
    } else if f5 == 0b00011 && f3 == 0b010 {
        Instruction::Scw { rd, rs1, rs2, rl, aq }
    } else if f5 == 0b00001 && f3 == 0b010 {
        Instruction::Amoswapw { rd, rs1, rs2, rl, aq }
    } else if f5 == 0b00000 && f3 == 0b010 {
        Instruction::Amoaddw { rd, rs1, rs2, rl, aq }
    } else if f5 == 0b00100 && f3 == 0b010 {
        Instruction::Amoxorw { rd, rs1, rs2, rl, aq }
    } else if f5 == 0b01100 && f3 == 0b010 {
        Instruction::Amoandw { rd, rs1, rs2, rl, aq }
    } else if f5 == 0b01000 && f3 == 0b010 {
        Instruction::Amoorw { rd, rs1, rs2, rl, aq }
    } else if f5 == 0b10000 && f3 == 0b010 {
        Instruction::Amominw { rd, rs1, rs2, rl, aq }
    } else if f5 == 0b10100 && f3 == 0b010 {
        Instruction::Amomaxw { rd, rs1, rs2, rl, aq }
    } else if f5 == 0b11000 && f3 == 0b010 {
        Instruction::Amominuw { rd, rs1, rs2, rl, aq }
    } else if f5 == 0b11100 && f3 == 0b010 {
        Instruction::Amomaxuw { rd, rs1, rs2, rl, aq }
    } else if f5 == 0b00010 && f3 == 0b011 {
        if !rs2.is_zero() { Instruction::Undefined { raw } } else { Instruction::Lrd { rd, rs1, rl, aq } }
    } else if f5 == 0b00011 && f3 == 0b011 {
        Instruction::Scd { rd, rs1, rs2, rl, aq }
    } else if f5 == 0b00001 && f3 == 0b011 {
        Instruction::Amoswapd { rd, rs1, rs2, rl, aq }
    } else if f5 == 0b00000 && f3 == 0b011 {
        Instruction::Amoaddd { rd, rs1, rs2, rl, aq }
    } else if f5 == 0b00100 && f3 == 0b011 {
        Instruction::Amoxord { rd, rs1, rs2, rl, aq }
    } else if f5 == 0b01100 && f3 == 0b011 {
        Instruction::Amoandd { rd, rs1, rs2, rl, aq }
    } else if f5 == 0b01000 && f3 == 0b011 {
        Instruction::Amoord { rd, rs1, rs2, rl, aq }
    } else if f5 == 0b10000 && f3 == 0b011 {
        Instruction::Amomind { rd, rs1, rs2, rl, aq }
    } else if f5 == 0b10100 && f3 == 0b011 {
        Instruction::Amomaxd { rd, rs1, rs2, rl, aq }
    } else if f5 == 0b11000 && f3 == 0b011 {
        Instruction::Amominud { rd, rs1, rs2, rl, aq }
    } else if f5 == 0b11100 && f3 == 0b011 {
        Instruction::Amomaxud { rd, rs1, rs2, rl, aq }
    } else {
        Instruction::Undefined { raw }
    }
}

/// LOAD: integer loads.
pub open spec fn spec_decode_load(raw: u32) -> Instruction {
    let rd = rd(raw);
    let rs1 = rs1(raw);
    let imm = imm_i(raw);
    let f3 = funct3(raw);
    if f3 == 0b000 {
        Instruction::Lb { rd, rs1, imm }
    } else if f3 == 0b001 {
        Instruction::Lh { rd, rs1, imm }
    } else if f3 == 0b010 {
        Instruction::Lw { rd, rs1, imm }
    } else if f3 == 0b100 {
        Instruction::Lbu { rd, rs1, imm }
    } else if f3 == 0b101 {
        Instruction::Lhu { rd, rs1, imm }
    } else if f3 == 0b110 {
        Instruction::Lwu { rd, rs1, imm }
    } else if f3 == 0b011 {
        Instruction::Ld { rd, rs1, imm }
    } else {
        Instruction::Undefined { raw }
    }
}

/// LOAD: integer loads.
fn decode_load(raw: u32) -> (r: Instruction)
    ensures
        r == spec_decode_load(raw),
{
    let rd = rd(raw);
    let rs1 = rs1(raw);
    let imm = imm_i(raw);
    let f3 = funct3(raw);
    if f3 == 0b000 {
        Instruction::Lb { rd, rs1, imm }
    } else if f3 == 0b001 {
        Instruction::Lh { rd, rs1, imm }
    } else if f3 == 0b010 {
        Instruction::Lw { rd, rs1, imm }
    } else if f3 == 0b100 {
        Instruction::Lbu { rd, rs1, imm }
    } else if f3 == 0b101 {
        Instruction::Lhu { rd, rs1, imm }
    } else if f3 == 0b110 {
        Instruction::Lwu { rd, rs1, imm }
    } else if f3 == 0b011 {
        Instruction::Ld { rd, rs1, imm }
    } else {
        Instruction::Undefined { raw }
    }
}

/// STORE: integer stores.
pub open spec fn spec_decode_store(raw: u32) -> Instruction {
    let rs1 = rs1(raw);
    let rs2 = rs2(raw);
    let imm = imm_s(raw);
    let f3 = funct3(raw);
    if f3 == 0b000 {
        Instruction::Sb { rs2, rs1, imm }
    } else if f3 == 0b001 {
        Instruction::Sh { rs2, rs1, imm }
    } else if f3 == 0b010 {
        Instruction::Sw { rs2, rs1, imm }
    } else if f3 == 0b011 {
        Instruction::Sd { rs2, rs1, imm }
    } else {
        Instruction::Undefined { raw }
    }
}

/// STORE: integer stores.
fn decode_store(raw: u32) -> (r: Instruction)
    ensures
        r == spec_decode_store(raw),
{
    let rs1 = rs1(raw);
    let rs2 = rs2(raw);
    let imm = imm_s(raw);
    let f3 = funct3(raw);
    if f3 == 0b000 {
        Instruction::Sb { rs2, rs1, imm }
    } else if f3 == 0b001 {
        Instruction::Sh { rs2, rs1, imm }
    } else if f3 == 0b010 {
        Instruction::Sw { rs2, rs1, imm }
    } else if f3 == 0b011 {
        Instruction::Sd { rs2, rs1, imm }
    } else {
        Instruction::Undefined { raw }
    }
}

/// BRANCH: conditional branches.
pub open spec fn spec_decode_branch(raw: u32) -> Instruction {
    let imm = imm_b(raw);
    let rs1 = rs1(raw);
    let rs2 = rs2(raw);
    let f3 = funct3(raw);
    if f3 == 0b000 {
        Instruction::Beq { rs1, rs2, imm }
    } else if f3 == 0b001 {
        Instruction::Bne { rs1, rs2, imm }
    } else if f3 == 0b100 {
        Instruction::Blt { rs1, rs2, imm }
    } else if f3 == 0b101 {
        Instruction::Bge { rs1, rs2, imm }
    } else if f3 == 0b110 {
        Instruction::Bltu { rs1, rs2, imm }
    } else if f3 == 0b111 {
        Instruction::Bgeu { rs1, rs2, imm }
    } else {
        Instruction::Undefined { raw }
    }
}

/// BRANCH: conditional branches.
fn decode_branch(raw: u32) -> (r: Instruction)
    ensures
        r == spec_decode_branch(raw),
{
    let imm = imm_b(raw);
    let rs1 = rs1(raw);
    let rs2 = rs2(raw);
    let f3 = funct3(raw);
    if f3 == 0b000 {
        Instruction::Beq { rs1, rs2, imm }
    } else if f3 == 0b001 {
        Instruction::Bne { rs1, rs2, imm }
    } else if f3 == 0b100 {
        Instruction::Blt { rs1, rs2, imm }
    } else if f3 == 0b101 {
        Instruction::Bge { rs1, rs2, imm }
    } else if f3 == 0b110 {
        Instruction::Bltu { rs1, rs2, imm }
    } else if f3 == 0b111 {
        Instruction::Bgeu { rs1, rs2, imm }
    } else {
        Instruction::Undefined { raw }
    }
}

/// JAL.
pub open spec fn spec_decode_jal(raw: u32) -> Instruction {
    Instruction::Jal { rd: rd(raw), imm: imm_j(raw) }
}

/// JAL.
fn decode_jal(raw: u32) -> (r: Instruction)
    ensures
        r == spec_decode_jal(raw),
{
    Instruction::Jal { rd: rd(raw), imm: imm_j(raw) }
}

/// JALR (funct3 must be zero).
pub open spec fn spec_decode_jalr(raw: u32) -> Instruction {
    if funct3(raw) == 0 {
        Instruction::Jalr { rd: rd(raw), rs1: rs1(raw), imm: imm_i(raw) }
    } else {
        Instruction::Undefined { raw }
    }
}

/// JALR (funct3 must be zero).
fn decode_jalr(raw: u32) -> (r: Instruction)
    ensures
        r == spec_decode_jalr(raw),
{
    if funct3(raw) == 0 {
        Instruction::Jalr { rd: rd(raw), rs1: rs1(raw), imm: imm_i(raw) }
    } else {
        Instruction::Undefined { raw }
    }
}

/// LUI.
pub open spec fn spec_decode_lui(raw: u32) -> Instruction {
    Instruction::Lui { rd: rd(raw), imm: imm_u(raw) }
}

/// LUI.
fn decode_lui(raw: u32) -> (r: Instruction)
    ensures
        r == spec_decode_lui(raw),
{
    Instruction::Lui { rd: rd(raw), imm: imm_u(raw) }
}

/// AUIPC.
pub open spec fn spec_decode_auipc(raw: u32) -> Instruction {
    Instruction::Auipc { rd: rd(raw), imm: imm_u(raw) }
}

/// AUIPC.
fn decode_auipc(raw: u32) -> (r: Instruction)
    ensures
        r == spec_decode_auipc(raw),
{
    Instruction::Auipc { rd: rd(raw), imm: imm_u(raw) }
}

/// SYSTEM: environment calls, trap returns, WFI, SFENCE.VMA and CSR accesses.
pub open spec fn spec_decode_system(raw: u32) -> Instruction {
    let f3 = funct3(raw);
    let f7 = funct7(raw);
    let csr = csr_field(raw);
    let rd = rd(raw);
    let rs1 = rs1(raw);
    let uimm = uimm(raw);
    let imm12 = imm12(raw);
    let rs2 = rs2(raw);
    if f3 == 0b000 {
        if f7 == 0b0001001 && rd.is_zero() {
            Instruction::SfenceVma { rs1, rs2 }
        } else if imm12 == 0 {
            Instruction::Ecall
        } else if imm12 == 1 {
            Instruction::Ebreak
        } else if imm12 == 0x102 {
            Instruction::Sret
        } else if imm12 == 0x105 {
            Instruction::Wfi
        } else if imm12 == 0x302 {
            Instruction::Mret
        } else {
            Instruction::Undefined { raw }
        }
    } else if f3 == 0b001 {
        Instruction::Csrrw { rd, rs1, csr }
    } else if f3 == 0b010 {
        Instruction::Csrrs { rd, rs1, csr }
    } else if f3 == 0b011 {
        Instruction::Csrrc { rd, rs1, csr }
    } else if f3 == 0b101 {
        Instruction::Csrrwi { rd, uimm, csr }
    } else if f3 == 0b110 {
        Instruction::Csrrsi { rd, uimm, csr }
    } else if f3 == 0b111 {
        Instruction::Csrrci { rd, uimm, csr }
    } else {
        Instruction::Undefined { raw }
    }
}

/// SYSTEM: environment calls, trap returns, WFI, SFENCE.VMA and CSR accesses.
fn decode_system(raw: u32) -> (r: Instruction)
    ensures
        r == spec_decode_system(raw),
{
    let f3 = funct3(raw);
    let f7 = funct7(raw);
    let csr = csr_field(raw);
    let rd = rd(raw);
    let rs1 = rs1(raw);
    let uimm = uimm(raw);
    let imm12 = imm12(raw);
    let rs2 = rs2(raw);
    if f3 == 0b000 {
        if f7 == 0b0001001 && rd.is_zero() {
            Instruction::SfenceVma { rs1, rs2 }
        } else if imm12 == 0 {
            Instruction::Ecall
        } else if imm12 == 1 {
            Instruction::Ebreak
        } else if imm12 == 0x102 {
            Instruction::Sret
        } else if imm12 == 0x105 {
            Instruction::Wfi
        } else if imm12 == 0x302 {
            Instruction::Mret
        } else {
            Instruction::Undefined { raw }
        }
    } else if f3 == 0b001 {
        Instruction::Csrrw { rd, rs1, csr }
    } else if f3 == 0b010 {
        Instruction::Csrrs { rd, rs1, csr }
    } else if f3 == 0b011 {
        Instruction::Csrrc { rd, rs1, csr }
    } else if f3 == 0b101 {
        Instruction::Csrrwi { rd, uimm, csr }
    } else if f3 == 0b110 {
        Instruction::Csrrsi { rd, uimm, csr }
    } else if f3 == 0b111 {
        Instruction::Csrrci { rd, uimm, csr }
    } else {
        Instruction::Undefined { raw }
    }
}

/// MISC-MEM: FENCE and FENCE.I.
pub open spec fn spec_decode_misc_mem(raw: u32) -> Instruction {
    let pred = fence_pred(raw);
    let succ = fence_succ(raw);
    let fm = fence_fm(raw);
    let imm12 = imm12(raw);
    let f3 = funct3(raw);
    if f3 == 0b000 {
        Instruction::Fence { pred, succ, fm }
    } else if f3 == 0b001 {
        if rd(raw).is_zero() && rs1(raw).is_zero() && imm12 == 0 {
            Instruction::FenceI
        } else {
            Instruction::Undefined { raw }
        }
    } else {
        Instruction::Undefined { raw }
    }
}

/// MISC-MEM: FENCE and FENCE.I.
fn decode_misc_mem(raw: u32) -> (r: Instruction)
    ensures
        r == spec_decode_misc_mem(raw),
{
    let pred = fence_pred(raw);
    let succ = fence_succ(raw);
    let fm = fence_fm(raw);
    let imm12 = imm12(raw);
    let f3 = funct3(raw);
    if f3 == 0b000 {
        Instruction::Fence { pred, succ, fm }
    } else if f3 == 0b001 {
        if rd(raw).is_zero() && rs1(raw).is_zero() && imm12 == 0 {
            Instruction::FenceI
        } else {
            Instruction::Undefined { raw }
        }
    } else {
        Instruction::Undefined { raw }
    }
}

/// Decodes a 32-bit (uncompressed) instruction word.
pub open spec fn spec_decode_normal(raw: u32) -> Instruction {
    let op = opcode(raw);
    if op == OP_IMM {
        spec_decode_op_imm(raw)
    } else if op == OP_IMM_W {
        spec_decode_op_imm_w(raw)
    } else if op == OP {
        spec_decode_op(raw)
    } else if op == OP_W {
        spec_decode_op_w(raw)
    } else if op == OP_ATOMIC {
        spec_decode_atomic(raw)
    } else if op == OP_LOAD {
        spec_decode_load(raw)
    } else if op == OP_STORE {
        spec_decode_store(raw)
    } else if op == OP_BRANCH {
        spec_decode_branch(raw)
    } else if op == OP_JAL {
        spec_decode_jal(raw)
    } else if op == OP_JALR {
        spec_decode_jalr(raw)
    } else if op == OP_LUI {
        spec_decode_lui(raw)
    } else if op == OP_AUIPC {
        spec_decode_auipc(raw)
    } else if op == OP_SYSTEM {
        spec_decode_system(raw)
    } else if op == OP_MISC_MEM {
        spec_decode_misc_mem(raw)
    } else if op == OP_LOAD_FP {
        spec_decode_load_fp(raw)
    } else if op == OP_STORE_FP {
        spec_decode_store_fp(raw)
    } else if op == OP_FP {
        spec_decode_op_fp(raw)
    } else if op == OPCODE_FMADD {
        spec_decode_madd(raw)
    } else if op == OPCODE_FMSUB {
        spec_decode_msub(raw)
    } else if op == OPCODE_FNMSUB {
        spec_decode_nmsub(raw)
    } else if op == OPCODE_FNMADD {
        spec_decode_nmadd(raw)
    } else {
        Instruction::Undefined { raw }
    }
}

/// Decodes a 32-bit (uncompressed) instruction word.
pub fn decode_normal(raw: u32) -> (r: Instruction)
    ensures
        r == spec_decode_normal(raw),
{
    let op = opcode(raw);
    if op == OP_IMM {
        decode_op_imm(raw)
    } else if op == OP_IMM_W {
        decode_op_imm_w(raw)
    } else if op == OP {
        decode_op(raw)
    } else if op == OP_W {
        decode_op_w(raw)
    } else if op == OP_ATOMIC {
        decode_atomic(raw)
    } else if op == OP_LOAD {
        decode_load(raw)
    } else if op == OP_STORE {
        decode_store(raw)
    } else if op == OP_BRANCH {
        decode_branch(raw)
    } else if op == OP_JAL {
        decode_jal(raw)
    } else if op == OP_JALR {
        decode_jalr(raw)
    } else if op == OP_LUI {
        decode_lui(raw)
    } else if op == OP_AUIPC {
        decode_auipc(raw)
    } else if op == OP_SYSTEM {
        decode_system(raw)
    } else if op == OP_MISC_MEM {
        decode_misc_mem(raw)
    } else if op == OP_LOAD_FP {
        decode_load_fp(raw)
    } else if op == OP_STORE_FP {
        decode_store_fp(raw)
    } else if op == OP_FP {
        decode_op_fp(raw)
    } else if op == OPCODE_FMADD {
        decode_madd(raw)
    } else if op == OPCODE_FMSUB {
        decode_msub(raw)
    } else if op == OPCODE_FNMSUB {
        decode_nmsub(raw)
    } else if op == OPCODE_FNMADD {
        decode_nmadd(raw)
    } else {
        Instruction::Undefined { raw }
    }
}

} // verus!
