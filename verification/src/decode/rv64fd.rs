use vstd::prelude::*;

use crate::decode::f_formats::{frd, frs1, frs2, frs3, spec_frd, spec_frs1, spec_frs2, spec_frs3};
use crate::decode::formats::{
    funct3, imm_i, imm_s, rd, rs1, spec_funct3, spec_imm_i, spec_imm_s, spec_rd, spec_rs1,
};
use crate::instruction::Instruction;

verus! {

/// LOAD-FP: FLW and FLD.
pub open spec fn spec_decode_load_fp(raw: u32) -> Instruction {
    let rd = frd(raw);
    let rs1 = rs1(raw);
    let imm = imm_i(raw);
    let f3 = funct3(raw);
    if f3 == 0b010 {
        Instruction::Flw { rd, rs1, imm }
    } else if f3 == 0b011 {
        Instruction::Fld { rd, rs1, imm }
    } else {
        Instruction::Undefined { raw }
    }
}

/// LOAD-FP: FLW and FLD.
pub fn decode_load_fp(raw: u32) -> (r: Instruction)
    ensures
        r == spec_decode_load_fp(raw),
{
    let rd = frd(raw);
    let rs1 = rs1(raw);
    let imm = imm_i(raw);
    let f3 = funct3(raw);
    if f3 == 0b010 {
        Instruction::Flw { rd, rs1, imm }
    } else if f3 == 0b011 {
        Instruction::Fld { rd, rs1, imm }
    } else {
        Instruction::Undefined { raw }
    }
}

/// STORE-FP: FSW and FSD.
pub open spec fn spec_decode_store_fp(raw: u32) -> Instruction {
    let rs1 = rs1(raw);
    let rs2 = frs2(raw);
    let imm = imm_s(raw);
    let f3 = funct3(raw);
    if f3 == 0b010 {
        Instruction::Fsw { rs1, rs2, imm }
    } else if f3 == 0b011 {
        Instruction::Fsd { rs1, rs2, imm }
    } else {
        Instruction::Undefined { raw }
    }
}

/// STORE-FP: FSW and FSD.
pub fn decode_store_fp(raw: u32) -> (r: Instruction)
    ensures
        r == spec_decode_store_fp(raw),
{
    let rs1 = rs1(raw);
    let rs2 = frs2(raw);
    let imm = imm_s(raw);
    let f3 = funct3(raw);
    if f3 == 0b010 {
        Instruction::Fsw { rs1, rs2, imm }
    } else if f3 == 0b011 {
        Instruction::Fsd { rs1, rs2, imm }
    } else {
        Instruction::Undefined { raw }
    }
}

/// OP-FP: single- and double-precision arithmetic, comparisons, conversions, sign injection, classification and moves. The rounding-mode field is passed on as it stands.
pub open spec fn spec_decode_op_fp(raw: u32) -> Instruction {
    let f7 = raw >> 25;
    let f3 = funct3(raw);
    let rm = f3 as u8;
    let r2 = (raw >> 20) & 0x1f;
    let frd = frd(raw);
    let frs1 = frs1(raw);
    let frs2 = frs2(raw);
    let xrd = rd(raw);
    let xrs1 = rs1(raw);
    if f7 == 0b0000000 {
        Instruction::FaddS { rd: frd, rs1: frs1, rs2: frs2, rm }
    } else if f7 == 0b0000001 {
        Instruction::FaddD { rd: frd, rs1: frs1, rs2: frs2, rm }
    } else if f7 == 0b0000100 {
        Instruction::FsubS { rd: frd, rs1: frs1, rs2: frs2, rm }
    } else if f7 == 0b0000101 {
        Instruction::FsubD { rd: frd, rs1: frs1, rs2: frs2, rm }
    } else if f7 == 0b0001000 {
        Instruction::FmulS { rd: frd, rs1: frs1, rs2: frs2, rm }
    } else if f7 == 0b0001001 {
        Instruction::FmulD { rd: frd, rs1: frs1, rs2: frs2, rm }
    } else if f7 == 0b0001100 {
        Instruction::FdivS { rd: frd, rs1: frs1, rs2: frs2, rm }
    } else if f7 == 0b0001101 {
        Instruction::FdivD { rd: frd, rs1: frs1, rs2: frs2, rm }
    } else if f7 == 0b0101100 {
        if r2 == 0 {
            Instruction::FsqrtS { rd: frd, rs1: frs1, rm }
        } else {
            Instruction::Undefined { raw }
        }
    } else if f7 == 0b0101101 {
        if r2 == 0 {
            Instruction::FsqrtD { rd: frd, rs1: frs1, rm }
        } else {
            Instruction::Undefined { raw }
        }
    } else if f7 == 0b0010000 {
        if f3 == 0b000 {
            Instruction::FsgnjS { rd: frd, rs1: frs1, rs2: frs2 }
        } else if f3 == 0b001 {
            Instruction::FsgnjnS { rd: frd, rs1: frs1, rs2: frs2 }
        } else if f3 == 0b010 {
            Instruction::FsgnjxS { rd: frd, rs1: frs1, rs2: frs2 }
        } else {
            Instruction::Undefined { raw }
        }
    } else if f7 == 0b0010001 {
        if f3 == 0b000 {
            Instruction::FsgnjD { rd: frd, rs1: frs1, rs2: frs2 }
        } else if f3 == 0b001 {
            Instruction::FsgnjnD { rd: frd, rs1: frs1, rs2: frs2 }
        } else if f3 == 0b010 {
            Instruction::FsgnjxD { rd: frd, rs1: frs1, rs2: frs2 }
        } else {
            Instruction::Undefined { raw }
        }
    } else if f7 == 0b0010100 {
        if f3 == 0b000 {
            Instruction::FminS { rd: frd, rs1: frs1, rs2: frs2 }
        } else if f3 == 0b001 {
            Instruction::FmaxS { rd: frd, rs1: frs1, rs2: frs2 }
        } else {
            Instruction::Undefined { raw }
        }
    } else if f7 == 0b0010101 {
        if f3 == 0b000 {
            Instruction::FminD { rd: frd, rs1: frs1, rs2: frs2 }
        } else if f3 == 0b001 {
            Instruction::FmaxD { rd: frd, rs1: frs1, rs2: frs2 }
        } else {
            Instruction::Undefined { raw }
        }
    } else if f7 == 0b1010000 {
        if f3 == 0b010 {
            Instruction::FeqS { rd: xrd, rs1: frs1, rs2: frs2 }
        } else if f3 == 0b001 {
            Instruction::FltS { rd: xrd, rs1: frs1, rs2: frs2 }
        } else if f3 == 0b000 {
            Instruction::FleS { rd: xrd, rs1: frs1, rs2: frs2 }
        } else {
            Instruction::Undefined { raw }
        }
    } else if f7 == 0b1010001 {
        if f3 == 0b010 {
            Instruction::FeqD { rd: xrd, rs1: frs1, rs2: frs2 }
        } else if f3 == 0b001 {
            Instruction::FltD { rd: xrd, rs1: frs1, rs2: frs2 }
        } else if f3 == 0b000 {
            Instruction::FleD { rd: xrd, rs1: frs1, rs2: frs2 }
        } else {
            Instruction::Undefined { raw }
        }
    } else if f7 == 0b1110000 {
        if f3 == 0b000 && r2 == 0 {
            Instruction::FmvXW { rd: xrd, rs1: frs1 }
        } else if f3 == 0b001 && r2 == 0 {
            Instruction::FclassS { rd: xrd, rs1: frs1 }
        } else {
            Instruction::Undefined { raw }
        }
    } else if f7 == 0b1100000 {
        if r2 == 0 {
            Instruction::FcvtWS { rd: xrd, rs1: frs1, rm }
        } else if r2 == 1 {
            Instruction::FcvtWUS { rd: xrd, rs1: frs1, rm }
        } else if r2 == 2 {
            Instruction::FcvtLS { rd: xrd, rs1: frs1, rm }
        } else if r2 == 3 {
            Instruction::FcvtLUS { rd: xrd, rs1: frs1, rm }
        } else {
            Instruction::Undefined { raw }
        }
    } else if f7 == 0b1100001 {
        if r2 == 0 {
            Instruction::FcvtWD { rd: xrd, rs1: frs1, rm }
        } else if r2 == 1 {
            Instruction::FcvtWUD { rd: xrd, rs1: frs1, rm }
        } else if r2 == 2 {
            Instruction::FcvtLD { rd: xrd, rs1: frs1, rm }
        } else if r2 == 3 {
            Instruction::FcvtLUD { rd: xrd, rs1: frs1, rm }
        } else {
            Instruction::Undefined { raw }
        }
    } else if f7 == 0b1101000 {
        if r2 == 0 {
            Instruction::FcvtSW { rd: frd, rs1: xrs1, rm }
        } else if r2 == 1 {
            Instruction::FcvtSWU { rd: frd, rs1: xrs1, rm }
        } else if r2 == 2 {
            Instruction::FcvtSL { rd: frd, rs1: xrs1, rm }
        } else if r2 == 3 {
            Instruction::FcvtSLU { rd: frd, rs1: xrs1, rm }
        } else {
            Instruction::Undefined { raw }
        }
    } else if f7 == 0b1101001 {
        if r2 == 0 {
            Instruction::FcvtDW { rd: frd, rs1: xrs1, rm }
        } else if r2 == 1 {
            Instruction::FcvtDWU { rd: frd, rs1: xrs1, rm }
        } else if r2 == 2 {
            Instruction::FcvtDL { rd: frd, rs1: xrs1, rm }
        } else if r2 == 3 {
            Instruction::FcvtDLU { rd: frd, rs1: xrs1, rm }
        } else {
            Instruction::Undefined { raw }
        }
    } else if f7 == 0b0100001 {
        if r2 == 0 {
            Instruction::FcvtDS { rd: frd, rs1: frs1, rm }
        } else {
            Instruction::Undefined { raw }
        }
    } else if f7 == 0b0100000 {
        if r2 == 1 {
            Instruction::FcvtSD { rd: frd, rs1: frs1, rm }
        } else {
            Instruction::Undefined { raw }
        }
    } else if f7 == 0b1110001 {
        if f3 == 0b000 && r2 == 0 {
            Instruction::FmvXD { rd: xrd, rs1: frs1 }
        } else if f3 == 0b001 && r2 == 0 {
            Instruction::FclassD { rd: xrd, rs1: frs1 }
        } else {
            Instruction::Undefined { raw }
        }
    } else if f7 == 0b1111001 {
        if f3 == 0b000 && r2 == 0 {
            Instruction::FmvDX { rd: frd, rs1: xrs1 }
        } else {
            Instruction::Undefined { raw }
        }
    } else if f7 == 0b1111000 {
        if f3 == 0b000 && r2 == 0 {
            Instruction::FmvWX { rd: frd, rs1: xrs1 }
        } else {
            Instruction::Undefined { raw }
        }
    } else {
        Instruction::Undefined { raw }
    }
}

/// OP-FP: single- and double-precision arithmetic, comparisons, conversions, sign injection, classification and moves. The rounding-mode field is passed on as it stands.
pub fn decode_op_fp(raw: u32) -> (r: Instruction)
    ensures
        r == spec_decode_op_fp(raw),
{
    let f7 = raw >> 25;
    let f3 = funct3(raw);
    let rm = f3 as u8;
    let r2 = (raw >> 20) & 0x1f;
    let frd = frd(raw);
    let frs1 = frs1(raw);
    let frs2 = frs2(raw);
    let xrd = rd(raw);
    let xrs1 = rs1(raw);
    if f7 == 0b0000000 {
        Instruction::FaddS { rd: frd, rs1: frs1, rs2: frs2, rm }
    } else if f7 == 0b0000001 {
        Instruction::FaddD { rd: frd, rs1: frs1, rs2: frs2, rm }
    } else if f7 == 0b0000100 {
        Instruction::FsubS { rd: frd, rs1: frs1, rs2: frs2, rm }
    } else if f7 == 0b0000101 {
        Instruction::FsubD { rd: frd, rs1: frs1, rs2: frs2, rm }
    } else if f7 == 0b0001000 {
        Instruction::FmulS { rd: frd, rs1: frs1, rs2: frs2, rm }
    } else if f7 == 0b0001001 {
        Instruction::FmulD { rd: frd, rs1: frs1, rs2: frs2, rm }
    } else if f7 == 0b0001100 {
        Instruction::FdivS { rd: frd, rs1: frs1, rs2: frs2, rm }
    } else if f7 == 0b0001101 {
        Instruction::FdivD { rd: frd, rs1: frs1, rs2: frs2, rm }
    } else if f7 == 0b0101100 {
        if r2 == 0 {
            Instruction::FsqrtS { rd: frd, rs1: frs1, rm }
        } else {
            Instruction::Undefined { raw }
        }
    } else if f7 == 0b0101101 {
        if r2 == 0 {
            Instruction::FsqrtD { rd: frd, rs1: frs1, rm }
        } else {
            Instruction::Undefined { raw }
        }
    } else if f7 == 0b0010000 {
        if f3 == 0b000 {
            Instruction::FsgnjS { rd: frd, rs1: frs1, rs2: frs2 }
        } else if f3 == 0b001 {
            Instruction::FsgnjnS { rd: frd, rs1: frs1, rs2: frs2 }
        } else if f3 == 0b010 {
            Instruction::FsgnjxS { rd: frd, rs1: frs1, rs2: frs2 }
        } else {
            Instruction::Undefined { raw }
        }
    } else if f7 == 0b0010001 {
        if f3 == 0b000 {
            Instruction::FsgnjD { rd: frd, rs1: frs1, rs2: frs2 }
        } else if f3 == 0b001 {
            Instruction::FsgnjnD { rd: frd, rs1: frs1, rs2: frs2 }
        } else if f3 == 0b010 {
            Instruction::FsgnjxD { rd: frd, rs1: frs1, rs2: frs2 }
        } else {
            Instruction::Undefined { raw }
        }
    } else if f7 == 0b0010100 {
        if f3 == 0b000 {
            Instruction::FminS { rd: frd, rs1: frs1, rs2: frs2 }
        } else if f3 == 0b001 {
            Instruction::FmaxS { rd: frd, rs1: frs1, rs2: frs2 }
        } else {
            Instruction::Undefined { raw }
        }
    } else if f7 == 0b0010101 {
        if f3 == 0b000 {
            Instruction::FminD { rd: frd, rs1: frs1, rs2: frs2 }
        } else if f3 == 0b001 {
            Instruction::FmaxD { rd: frd, rs1: frs1, rs2: frs2 }
        } else {
            Instruction::Undefined { raw }
        }
    } else if f7 == 0b1010000 {
        if f3 == 0b010 {
            Instruction::FeqS { rd: xrd, rs1: frs1, rs2: frs2 }
        } else if f3 == 0b001 {
            Instruction::FltS { rd: xrd, rs1: frs1, rs2: frs2 }
        } else if f3 == 0b000 {
            Instruction::FleS { rd: xrd, rs1: frs1, rs2: frs2 }
        } else {
            Instruction::Undefined { raw }
        }
    } else if f7 == 0b1010001 {
        if f3 == 0b010 {
            Instruction::FeqD { rd: xrd, rs1: frs1, rs2: frs2 }
        } else if f3 == 0b001 {
            Instruction::FltD { rd: xrd, rs1: frs1, rs2: frs2 }
        } else if f3 == 0b000 {
            Instruction::FleD { rd: xrd, rs1: frs1, rs2: frs2 }
        } else {
            Instruction::Undefined { raw }
        }
    } else if f7 == 0b1110000 {
        if f3 == 0b000 && r2 == 0 {
            Instruction::FmvXW { rd: xrd, rs1: frs1 }
        } else if f3 == 0b001 && r2 == 0 {
            Instruction::FclassS { rd: xrd, rs1: frs1 }
        } else {
            Instruction::Undefined { raw }
        }
    } else if f7 == 0b1100000 {
        if r2 == 0 {
            Instruction::FcvtWS { rd: xrd, rs1: frs1, rm }
        } else if r2 == 1 {
            Instruction::FcvtWUS { rd: xrd, rs1: frs1, rm }
        } else if r2 == 2 {
            Instruction::FcvtLS { rd: xrd, rs1: frs1, rm }
        } else if r2 == 3 {
            Instruction::FcvtLUS { rd: xrd, rs1: frs1, rm }
        } else {
            Instruction::Undefined { raw }
        }
    } else if f7 == 0b1100001 {
        if r2 == 0 {
            Instruction::FcvtWD { rd: xrd, rs1: frs1, rm }
        } else if r2 == 1 {
            Instruction::FcvtWUD { rd: xrd, rs1: frs1, rm }
        } else if r2 == 2 {
            Instruction::FcvtLD { rd: xrd, rs1: frs1, rm }
        } else if r2 == 3 {
            Instruction::FcvtLUD { rd: xrd, rs1: frs1, rm }
        } else {
            Instruction::Undefined { raw }
        }
    } else if f7 == 0b1101000 {
        if r2 == 0 {
            Instruction::FcvtSW { rd: frd, rs1: xrs1, rm }
        } else if r2 == 1 {
            Instruction::FcvtSWU { rd: frd, rs1: xrs1, rm }
        } else if r2 == 2 {
            Instruction::FcvtSL { rd: frd, rs1: xrs1, rm }
        } else if r2 == 3 {
            Instruction::FcvtSLU { rd: frd, rs1: xrs1, rm }
        } else {
            Instruction::Undefined { raw }
        }
    } else if f7 == 0b1101001 {
        if r2 == 0 {
            Instruction::FcvtDW { rd: frd, rs1: xrs1, rm }
        } else if r2 == 1 {
            Instruction::FcvtDWU { rd: frd, rs1: xrs1, rm }
        } else if r2 == 2 {
            Instruction::FcvtDL { rd: frd, rs1: xrs1, rm }
        } else if r2 == 3 {
            Instruction::FcvtDLU { rd: frd, rs1: xrs1, rm }
        } else {
            Instruction::Undefined { raw }
        }
    } else if f7 == 0b0100001 {
        if r2 == 0 {
            Instruction::FcvtDS { rd: frd, rs1: frs1, rm }
        } else {
            Instruction::Undefined { raw }
        }
    } else if f7 == 0b0100000 {
        if r2 == 1 {
            Instruction::FcvtSD { rd: frd, rs1: frs1, rm }
        } else {
            Instruction::Undefined { raw }
        }
    } else if f7 == 0b1110001 {
        if f3 == 0b000 && r2 == 0 {
            Instruction::FmvXD { rd: xrd, rs1: frs1 }
        } else if f3 == 0b001 && r2 == 0 {
            Instruction::FclassD { rd: xrd, rs1: frs1 }
        } else {
            Instruction::Undefined { raw }
        }
    } else if f7 == 0b1111001 {
        if f3 == 0b000 && r2 == 0 {
            Instruction::FmvDX { rd: frd, rs1: xrs1 }
        } else {
            Instruction::Undefined { raw }
        }
    } else if f7 == 0b1111000 {
        if f3 == 0b000 && r2 == 0 {
            Instruction::FmvWX { rd: frd, rs1: xrs1 }
        } else {
            Instruction::Undefined { raw }
        }
    } else {
        Instruction::Undefined { raw }
    }
}

/// MADD: fused multiply-add. Format 00 is single precision, 01 double.
pub open spec fn spec_decode_madd(raw: u32) -> Instruction {
    let fmt = (raw >> 25) & 0b11;
    let rm = funct3(raw) as u8;
    if fmt == 0b00 {
        Instruction::FmaddS { rd: frd(raw), rs1: frs1(raw), rs2: frs2(raw), rs3: frs3(raw), rm }
    } else if fmt == 0b01 {
        Instruction::FmaddD { rd: frd(raw), rs1: frs1(raw), rs2: frs2(raw), rs3: frs3(raw), rm }
    } else {
        Instruction::Undefined { raw }
    }
}

/// MADD: fused multiply-add. Format 00 is single precision, 01 double.
pub fn decode_madd(raw: u32) -> (r: Instruction)
    ensures
        r == spec_decode_madd(raw),
{
    let fmt = (raw >> 25) & 0b11;
    let rm = funct3(raw) as u8;
    if fmt == 0b00 {
        Instruction::FmaddS { rd: frd(raw), rs1: frs1(raw), rs2: frs2(raw), rs3: frs3(raw), rm }
    } else if fmt == 0b01 {
        Instruction::FmaddD { rd: frd(raw), rs1: frs1(raw), rs2: frs2(raw), rs3: frs3(raw), rm }
    } else {
        Instruction::Undefined { raw }
    }
}

/// MSUB: fused multiply-subtract. Format 00 is single precision, 01 double.
pub open spec fn spec_decode_msub(raw: u32) -> Instruction {
    let fmt = (raw >> 25) & 0b11;
    let rm = funct3(raw) as u8;
    if fmt == 0b00 {
        Instruction::FmsubS { rd: frd(raw), rs1: frs1(raw), rs2: frs2(raw), rs3: frs3(raw), rm }
    } else if fmt == 0b01 {
        Instruction::FmsubD { rd: frd(raw), rs1: frs1(raw), rs2: frs2(raw), rs3: frs3(raw), rm }
    } else {
        Instruction::Undefined { raw }
    }
}

/// MSUB: fused multiply-subtract. Format 00 is single precision, 01 double.
pub fn decode_msub(raw: u32) -> (r: Instruction)
    ensures
        r == spec_decode_msub(raw),
{
    let fmt = (raw >> 25) & 0b11;
    let rm = funct3(raw) as u8;
    if fmt == 0b00 {
        Instruction::FmsubS { rd: frd(raw), rs1: frs1(raw), rs2: frs2(raw), rs3: frs3(raw), rm }
    } else if fmt == 0b01 {
        Instruction::FmsubD { rd: frd(raw), rs1: frs1(raw), rs2: frs2(raw), rs3: frs3(raw), rm }
    } else {
        Instruction::Undefined { raw }
    }
}

/// NMSUB: negated fused multiply-subtract. Format 00 is single precision, 01 double.
pub open spec fn spec_decode_nmsub(raw: u32) -> Instruction {
    let fmt = (raw >> 25) & 0b11;
    let rm = funct3(raw) as u8;
    if fmt == 0b00 {
        Instruction::FnmsubS { rd: frd(raw), rs1: frs1(raw), rs2: frs2(raw), rs3: frs3(raw), rm }
    } else if fmt == 0b01 {
        Instruction::FnmsubD { rd: frd(raw), rs1: frs1(raw), rs2: frs2(raw), rs3: frs3(raw), rm }
    } else {
        Instruction::Undefined { raw }
    }
}

/// NMSUB: negated fused multiply-subtract. Format 00 is single precision, 01 double.
pub fn decode_nmsub(raw: u32) -> (r: Instruction)
    ensures
        r == spec_decode_nmsub(raw),
{
    let fmt = (raw >> 25) & 0b11;
    let rm = funct3(raw) as u8;
    if fmt == 0b00 {
        Instruction::FnmsubS { rd: frd(raw), rs1: frs1(raw), rs2: frs2(raw), rs3: frs3(raw), rm }
    } else if fmt == 0b01 {
        Instruction::FnmsubD { rd: frd(raw), rs1: frs1(raw), rs2: frs2(raw), rs3: frs3(raw), rm }
    } else {
        Instruction::Undefined { raw }
    }
}

/// NMADD: negated fused multiply-add. Format 00 is single precision, 01 double.
pub open spec fn spec_decode_nmadd(raw: u32) -> Instruction {
    let fmt = (raw >> 25) & 0b11;
    let rm = funct3(raw) as u8;
    if fmt == 0b00 {
        Instruction::FnmaddS { rd: frd(raw), rs1: frs1(raw), rs2: frs2(raw), rs3: frs3(raw), rm }
    } else if fmt == 0b01 {
        Instruction::FnmaddD { rd: frd(raw), rs1: frs1(raw), rs2: frs2(raw), rs3: frs3(raw), rm }
    } else {
        Instruction::Undefined { raw }
    }
}

/// NMADD: negated fused multiply-add. Format 00 is single precision, 01 double.
pub fn decode_nmadd(raw: u32) -> (r: Instruction)
    ensures
        r == spec_decode_nmadd(raw),
{
    let fmt = (raw >> 25) & 0b11;
    let rm = funct3(raw) as u8;
    if fmt == 0b00 {
        Instruction::FnmaddS { rd: frd(raw), rs1: frs1(raw), rs2: frs2(raw), rs3: frs3(raw), rm }
    } else if fmt == 0b01 {
        Instruction::FnmaddD { rd: frd(raw), rs1: frs1(raw), rs2: frs2(raw), rs3: frs3(raw), rm }
    } else {
        Instruction::Undefined { raw }
    }
}

} // verus!
