use vstd::prelude::*;

use crate::cpu::execute::fp::{
    canonicalize_f32_nan, f32_is_nan, get_rounding_mode, is_nan_f32, rv_fcvt_i32, rv_fcvt_i64, rv_fcvt_u32,
    rv_fcvt_u64, spec_rounding_mode, update_fflags, RoundingMode, FLAG_INVALID,
};
use crate::cpu::execute::rv64f::single;
use crate::cpu::f_register::{box_f32, FReg, CANONICAL_NAN_F32};
use crate::cpu::register::Reg;
use crate::cpu::csr::Csr;
use crate::cpu::Cpu;
use crate::instruction::Instruction;

verus! {

/// A floating-point operation for the host to compute: the instruction,
/// its operands as bit patterns (singles unboxed, negations of the fused
/// forms applied) and its rounding mode.
#[derive(Clone, Copy, Debug, PartialEq, Eq, Structural)]
pub struct HostOperation {
    pub instruction: Instruction,
    pub a: u64,
    pub b: u64,
    pub c: u64,
    pub rounding: Option<RoundingMode>,
}

/// Where the result of a host operation goes.
#[derive(Clone, Copy, Debug, PartialEq, Eq, Structural)]
pub enum HostWrite {
    Int(Reg, u64),
    Float(FReg, u64),
    Nothing,
}

/// Whether a double is a NaN.
pub open spec fn is_nan_f64(bits: u64) -> bool {
    bits & 0x7ff0_0000_0000_0000 == 0x7ff0_0000_0000_0000 && bits & 0x000f_ffff_ffff_ffff != 0
}

fn f64_is_nan(bits: u64) -> (b: bool)
    ensures
        b == is_nan_f64(bits),
{
    (bits & 0x7ff0_0000_0000_0000) == 0x7ff0_0000_0000_0000 && (bits & 0x000f_ffff_ffff_ffff) != 0
}

/// Whether a conversion source counts as negative: its sign is set and it
/// is not a NaN.
pub open spec fn source_negative_f32(s: u32) -> bool {
    !is_nan_f32(s) && s & 0x8000_0000 != 0
}

/// As `source_negative_f32`, for a double.
pub open spec fn source_negative_f64(s: u64) -> bool {
    !is_nan_f64(s) && s & 0x8000_0000_0000_0000 != 0
}

pub open spec fn clamp_i32(v: i32, negative: bool, invalid: bool) -> i32 {
    if !invalid { v } else if negative { i32::MIN } else { i32::MAX }
}

pub open spec fn clamp_u32(v: u32, negative: bool, invalid: bool) -> u32 {
    if !invalid { v } else if negative { 0 } else { u32::MAX }
}

pub open spec fn clamp_i64(v: i64, negative: bool, invalid: bool) -> i64 {
    if !invalid { v } else if negative { i64::MIN } else { i64::MAX }
}

pub open spec fn clamp_u64(v: u64, negative: bool, invalid: bool) -> u64 {
    if !invalid { v } else if negative { 0 } else { u64::MAX }
}

fn rounding_mode_of(cpu: &Cpu, rm: u8) -> (r: Option<RoundingMode>)
    ensures
        r == spec_rounding_mode(cpu.csr.frm, rm),
{
    match get_rounding_mode(cpu, rm) {
        Ok(m) => Some(m),
        Err(_) => None,
    }
}

/// How the host's result `value` (with exception flags `flags`) is
/// written back for instruction `i`: singles are NaN-boxed (canonicalised
/// for the operations that canonicalise NaNs), conversions to integers
/// saturate when the conversion was invalid.
pub open spec fn host_writeback(old: &Cpu, i: Instruction, value: u64, flags: u8) -> HostWrite {
    let invalid = flags & FLAG_INVALID != 0;
    match i {
        Instruction::FaddS { rd, rs1: _, rs2: _, rm: _ } => HostWrite::Float(rd, box_f32(value as u32)),
        Instruction::FcvtSW { rd, rs1: _, rm: _ } => HostWrite::Float(rd, box_f32(value as u32)),
        Instruction::FcvtSWU { rd, rs1: _, rm: _ } => HostWrite::Float(rd, box_f32(value as u32)),
        Instruction::FcvtSL { rd, rs1: _, rm: _ } => HostWrite::Float(rd, box_f32(value as u32)),
        Instruction::FcvtSLU { rd, rs1: _, rm: _ } => HostWrite::Float(rd, box_f32(value as u32)),
        Instruction::FcvtSD { rd, rs1: _, rm: _ } => HostWrite::Float(rd, box_f32(value as u32)),
        Instruction::FsubS { rd, rs1: _, rs2: _, rm: _ } => HostWrite::Float(rd, box_f32(if is_nan_f32(value as u32) { CANONICAL_NAN_F32 } else { value as u32 })),
        Instruction::FmulS { rd, rs1: _, rs2: _, rm: _ } => HostWrite::Float(rd, box_f32(if is_nan_f32(value as u32) { CANONICAL_NAN_F32 } else { value as u32 })),
        Instruction::FdivS { rd, rs1: _, rs2: _, rm: _ } => HostWrite::Float(rd, box_f32(if is_nan_f32(value as u32) { CANONICAL_NAN_F32 } else { value as u32 })),
        Instruction::FsqrtS { rd, rs1: _, rm: _ } => HostWrite::Float(rd, box_f32(if is_nan_f32(value as u32) { CANONICAL_NAN_F32 } else { value as u32 })),
        Instruction::FmaddS { rd, rs1: _, rs2: _, rs3: _, rm: _ } => HostWrite::Float(rd, box_f32(if is_nan_f32(value as u32) { CANONICAL_NAN_F32 } else { value as u32 })),
        Instruction::FmsubS { rd, rs1: _, rs2: _, rs3: _, rm: _ } => HostWrite::Float(rd, box_f32(if is_nan_f32(value as u32) { CANONICAL_NAN_F32 } else { value as u32 })),
        Instruction::FnmsubS { rd, rs1: _, rs2: _, rs3: _, rm: _ } => HostWrite::Float(rd, box_f32(if is_nan_f32(value as u32) { CANONICAL_NAN_F32 } else { value as u32 })),
        Instruction::FnmaddS { rd, rs1: _, rs2: _, rs3: _, rm: _ } => HostWrite::Float(rd, box_f32(if is_nan_f32(value as u32) { CANONICAL_NAN_F32 } else { value as u32 })),
        Instruction::FaddD { rd, rs1: _, rs2: _, rm: _ } => HostWrite::Float(rd, value),
        Instruction::FsubD { rd, rs1: _, rs2: _, rm: _ } => HostWrite::Float(rd, value),
        Instruction::FmulD { rd, rs1: _, rs2: _, rm: _ } => HostWrite::Float(rd, value),
        Instruction::FdivD { rd, rs1: _, rs2: _, rm: _ } => HostWrite::Float(rd, value),
        Instruction::FsqrtD { rd, rs1: _, rm: _ } => HostWrite::Float(rd, value),
        Instruction::FcvtDW { rd, rs1: _, rm: _ } => HostWrite::Float(rd, value),
        Instruction::FcvtDWU { rd, rs1: _, rm: _ } => HostWrite::Float(rd, value),
        Instruction::FcvtDL { rd, rs1: _, rm: _ } => HostWrite::Float(rd, value),
        Instruction::FcvtDLU { rd, rs1: _, rm: _ } => HostWrite::Float(rd, value),
        Instruction::FcvtDS { rd, rs1: _, rm: _ } => HostWrite::Float(rd, value),
        Instruction::FmaddD { rd, rs1: _, rs2: _, rs3: _, rm: _ } => HostWrite::Float(rd, value),
        Instruction::FmsubD { rd, rs1: _, rs2: _, rs3: _, rm: _ } => HostWrite::Float(rd, value),
        Instruction::FnmsubD { rd, rs1: _, rs2: _, rs3: _, rm: _ } => HostWrite::Float(rd, value),
        Instruction::FnmaddD { rd, rs1: _, rs2: _, rs3: _, rm: _ } => HostWrite::Float(rd, value),
        Instruction::FcvtWS { rd, rs1, rm: _ } => HostWrite::Int(rd, clamp_i32(value as i32, source_negative_f32(single(old, rs1)), invalid) as i64 as u64),
        Instruction::FcvtWUS { rd, rs1, rm: _ } => HostWrite::Int(rd, clamp_u32(value as u32, source_negative_f32(single(old, rs1)), invalid) as i32 as i64 as u64),
        Instruction::FcvtLS { rd, rs1, rm: _ } => HostWrite::Int(rd, clamp_i64(value as i64, source_negative_f32(single(old, rs1)), invalid) as u64),
        Instruction::FcvtLUS { rd, rs1, rm: _ } => HostWrite::Int(rd, clamp_u64(value, source_negative_f32(single(old, rs1)), invalid)),
        Instruction::FcvtWD { rd, rs1, rm: _ } => HostWrite::Int(rd, clamp_i32(value as i32, source_negative_f64(old.f_regs.spec_bits(rs1)), invalid) as i64 as u64),
        Instruction::FcvtWUD { rd, rs1, rm: _ } => HostWrite::Int(rd, clamp_u32(value as u32, source_negative_f64(old.f_regs.spec_bits(rs1)), invalid) as i32 as i64 as u64),
        Instruction::FcvtLD { rd, rs1, rm: _ } => HostWrite::Int(rd, clamp_i64(value as i64, source_negative_f64(old.f_regs.spec_bits(rs1)), invalid) as u64),
        Instruction::FcvtLUD { rd, rs1, rm: _ } => HostWrite::Int(rd, clamp_u64(value, source_negative_f64(old.f_regs.spec_bits(rs1)), invalid)),
        _ => HostWrite::Nothing,
    }
}

impl Cpu {
    /// The operation the pending host request asks for.
    pub open spec fn spec_host_operation(&self) -> Option<HostOperation> {
        match self.host_request {
            None => None,
            Some(d) => {
                let i = d.instruction;
                match i {
            Instruction::FaddS { rd: _, rs1, rs2, rm } => Some(HostOperation { instruction: i, a: single(self, rs1) as u64, b: single(self, rs2) as u64, c: 0u64, rounding: spec_rounding_mode(self.csr.frm, rm) }),
            Instruction::FcvtSW { rd: _, rs1, rm } => Some(HostOperation { instruction: i, a: self.regs.spec_read(rs1), b: 0u64, c: 0u64, rounding: spec_rounding_mode(self.csr.frm, rm) }),
            Instruction::FcvtSWU { rd: _, rs1, rm } => Some(HostOperation { instruction: i, a: self.regs.spec_read(rs1), b: 0u64, c: 0u64, rounding: spec_rounding_mode(self.csr.frm, rm) }),
            Instruction::FcvtSL { rd: _, rs1, rm } => Some(HostOperation { instruction: i, a: self.regs.spec_read(rs1), b: 0u64, c: 0u64, rounding: spec_rounding_mode(self.csr.frm, rm) }),
            Instruction::FcvtSLU { rd: _, rs1, rm } => Some(HostOperation { instruction: i, a: self.regs.spec_read(rs1), b: 0u64, c: 0u64, rounding: spec_rounding_mode(self.csr.frm, rm) }),
            Instruction::FcvtSD { rd: _, rs1, rm } => Some(HostOperation { instruction: i, a: self.f_regs.spec_bits(rs1), b: 0u64, c: 0u64, rounding: spec_rounding_mode(self.csr.frm, rm) }),
            Instruction::FsubS { rd: _, rs1, rs2, rm } => Some(HostOperation { instruction: i, a: single(self, rs1) as u64, b: single(self, rs2) as u64, c: 0u64, rounding: spec_rounding_mode(self.csr.frm, rm) }),
            Instruction::FmulS { rd: _, rs1, rs2, rm } => Some(HostOperation { instruction: i, a: single(self, rs1) as u64, b: single(self, rs2) as u64, c: 0u64, rounding: spec_rounding_mode(self.csr.frm, rm) }),
            Instruction::FdivS { rd: _, rs1, rs2, rm } => Some(HostOperation { instruction: i, a: single(self, rs1) as u64, b: single(self, rs2) as u64, c: 0u64, rounding: spec_rounding_mode(self.csr.frm, rm) }),
            Instruction::FsqrtS { rd: _, rs1, rm } => Some(HostOperation { instruction: i, a: single(self, rs1) as u64, b: 0u64, c: 0u64, rounding: spec_rounding_mode(self.csr.frm, rm) }),
            Instruction::FmaddS { rd: _, rs1, rs2, rs3, rm } => Some(HostOperation { instruction: i, a: single(self, rs1) as u64, b: single(self, rs2) as u64, c: single(self, rs3) as u64, rounding: spec_rounding_mode(self.csr.frm, rm) }),
            Instruction::FmsubS { rd: _, rs1, rs2, rs3, rm } => Some(HostOperation { instruction: i, a: single(self, rs1) as u64, b: single(self, rs2) as u64, c: (single(self, rs3) as u64) ^ 0x8000_0000u64, rounding: spec_rounding_mode(self.csr.frm, rm) }),
            Instruction::FnmsubS { rd: _, rs1, rs2, rs3, rm } => Some(HostOperation { instruction: i, a: (single(self, rs1) as u64) ^ 0x8000_0000u64, b: single(self, rs2) as u64, c: single(self, rs3) as u64, rounding: spec_rounding_mode(self.csr.frm, rm) }),
            Instruction::FnmaddS { rd: _, rs1, rs2, rs3, rm } => Some(HostOperation { instruction: i, a: (single(self, rs1) as u64) ^ 0x8000_0000u64, b: single(self, rs2) as u64, c: (single(self, rs3) as u64) ^ 0x8000_0000u64, rounding: spec_rounding_mode(self.csr.frm, rm) }),
            Instruction::FaddD { rd: _, rs1, rs2, rm } => Some(HostOperation { instruction: i, a: self.f_regs.spec_bits(rs1), b: self.f_regs.spec_bits(rs2), c: 0u64, rounding: spec_rounding_mode(self.csr.frm, rm) }),
            Instruction::FsubD { rd: _, rs1, rs2, rm } => Some(HostOperation { instruction: i, a: self.f_regs.spec_bits(rs1), b: self.f_regs.spec_bits(rs2), c: 0u64, rounding: spec_rounding_mode(self.csr.frm, rm) }),
            Instruction::FmulD { rd: _, rs1, rs2, rm } => Some(HostOperation { instruction: i, a: self.f_regs.spec_bits(rs1), b: self.f_regs.spec_bits(rs2), c: 0u64, rounding: spec_rounding_mode(self.csr.frm, rm) }),
            Instruction::FdivD { rd: _, rs1, rs2, rm } => Some(HostOperation { instruction: i, a: self.f_regs.spec_bits(rs1), b: self.f_regs.spec_bits(rs2), c: 0u64, rounding: spec_rounding_mode(self.csr.frm, rm) }),
            Instruction::FsqrtD { rd: _, rs1, rm } => Some(HostOperation { instruction: i, a: self.f_regs.spec_bits(rs1), b: 0u64, c: 0u64, rounding: spec_rounding_mode(self.csr.frm, rm) }),
            Instruction::FcvtDW { rd: _, rs1, rm } => Some(HostOperation { instruction: i, a: self.regs.spec_read(rs1), b: 0u64, c: 0u64, rounding: spec_rounding_mode(self.csr.frm, rm) }),
            Instruction::FcvtDWU { rd: _, rs1, rm } => Some(HostOperation { instruction: i, a: self.regs.spec_read(rs1), b: 0u64, c: 0u64, rounding: spec_rounding_mode(self.csr.frm, rm) }),
            Instruction::FcvtDL { rd: _, rs1, rm } => Some(HostOperation { instruction: i, a: self.regs.spec_read(rs1), b: 0u64, c: 0u64, rounding: spec_rounding_mode(self.csr.frm, rm) }),
            Instruction::FcvtDLU { rd: _, rs1, rm } => Some(HostOperation { instruction: i, a: self.regs.spec_read(rs1), b: 0u64, c: 0u64, rounding: spec_rounding_mode(self.csr.frm, rm) }),
            Instruction::FcvtDS { rd: _, rs1, rm } => Some(HostOperation { instruction: i, a: single(self, rs1) as u64, b: 0u64, c: 0u64, rounding: spec_rounding_mode(self.csr.frm, rm) }),
            Instruction::FmaddD { rd: _, rs1, rs2, rs3, rm } => Some(HostOperation { instruction: i, a: self.f_regs.spec_bits(rs1), b: self.f_regs.spec_bits(rs2), c: self.f_regs.spec_bits(rs3), rounding: spec_rounding_mode(self.csr.frm, rm) }),
            Instruction::FmsubD { rd: _, rs1, rs2, rs3, rm } => Some(HostOperation { instruction: i, a: self.f_regs.spec_bits(rs1), b: self.f_regs.spec_bits(rs2), c: (self.f_regs.spec_bits(rs3)) ^ 0x8000_0000_0000_0000u64, rounding: spec_rounding_mode(self.csr.frm, rm) }),
            Instruction::FnmsubD { rd: _, rs1, rs2, rs3, rm } => Some(HostOperation { instruction: i, a: (self.f_regs.spec_bits(rs1)) ^ 0x8000_0000_0000_0000u64, b: self.f_regs.spec_bits(rs2), c: self.f_regs.spec_bits(rs3), rounding: spec_rounding_mode(self.csr.frm, rm) }),
            Instruction::FnmaddD { rd: _, rs1, rs2, rs3, rm } => Some(HostOperation { instruction: i, a: (self.f_regs.spec_bits(rs1)) ^ 0x8000_0000_0000_0000u64, b: self.f_regs.spec_bits(rs2), c: (self.f_regs.spec_bits(rs3)) ^ 0x8000_0000_0000_0000u64, rounding: spec_rounding_mode(self.csr.frm, rm) }),
            Instruction::FcvtWS { rd: _, rs1, rm } => Some(HostOperation { instruction: i, a: single(self, rs1) as u64, b: 0u64, c: 0u64, rounding: spec_rounding_mode(self.csr.frm, rm) }),
            Instruction::FcvtWUS { rd: _, rs1, rm } => Some(HostOperation { instruction: i, a: single(self, rs1) as u64, b: 0u64, c: 0u64, rounding: spec_rounding_mode(self.csr.frm, rm) }),
            Instruction::FcvtLS { rd: _, rs1, rm } => Some(HostOperation { instruction: i, a: single(self, rs1) as u64, b: 0u64, c: 0u64, rounding: spec_rounding_mode(self.csr.frm, rm) }),
            Instruction::FcvtLUS { rd: _, rs1, rm } => Some(HostOperation { instruction: i, a: single(self, rs1) as u64, b: 0u64, c: 0u64, rounding: spec_rounding_mode(self.csr.frm, rm) }),
            Instruction::FcvtWD { rd: _, rs1, rm } => Some(HostOperation { instruction: i, a: self.f_regs.spec_bits(rs1), b: 0u64, c: 0u64, rounding: spec_rounding_mode(self.csr.frm, rm) }),
            Instruction::FcvtWUD { rd: _, rs1, rm } => Some(HostOperation { instruction: i, a: self.f_regs.spec_bits(rs1), b: 0u64, c: 0u64, rounding: spec_rounding_mode(self.csr.frm, rm) }),
            Instruction::FcvtLD { rd: _, rs1, rm } => Some(HostOperation { instruction: i, a: self.f_regs.spec_bits(rs1), b: 0u64, c: 0u64, rounding: spec_rounding_mode(self.csr.frm, rm) }),
            Instruction::FcvtLUD { rd: _, rs1, rm } => Some(HostOperation { instruction: i, a: self.f_regs.spec_bits(rs1), b: 0u64, c: 0u64, rounding: spec_rounding_mode(self.csr.frm, rm) }),
                    _ => None,
                }
            },
        }
    }

    pub fn host_operation(&self) -> (r: Option<HostOperation>)
        ensures
            r == self.spec_host_operation(),
    {
        match self.host_request {
            None => None,
            Some(d) => {
                let i = d.instruction;
                match i {
            Instruction::FaddS { rd: _, rs1, rs2, rm } => Some(HostOperation { instruction: i, a: self.f_regs.read_f32_bits(rs1) as u64, b: self.f_regs.read_f32_bits(rs2) as u64, c: 0u64, rounding: rounding_mode_of(self, rm) }),
            Instruction::FcvtSW { rd: _, rs1, rm } => Some(HostOperation { instruction: i, a: self.regs.read(rs1), b: 0u64, c: 0u64, rounding: rounding_mode_of(self, rm) }),
            Instruction::FcvtSWU { rd: _, rs1, rm } => Some(HostOperation { instruction: i, a: self.regs.read(rs1), b: 0u64, c: 0u64, rounding: rounding_mode_of(self, rm) }),
            Instruction::FcvtSL { rd: _, rs1, rm } => Some(HostOperation { instruction: i, a: self.regs.read(rs1), b: 0u64, c: 0u64, rounding: rounding_mode_of(self, rm) }),
            Instruction::FcvtSLU { rd: _, rs1, rm } => Some(HostOperation { instruction: i, a: self.regs.read(rs1), b: 0u64, c: 0u64, rounding: rounding_mode_of(self, rm) }),
            Instruction::FcvtSD { rd: _, rs1, rm } => Some(HostOperation { instruction: i, a: self.f_regs.read_f64_bits(rs1), b: 0u64, c: 0u64, rounding: rounding_mode_of(self, rm) }),
            Instruction::FsubS { rd: _, rs1, rs2, rm } => Some(HostOperation { instruction: i, a: self.f_regs.read_f32_bits(rs1) as u64, b: self.f_regs.read_f32_bits(rs2) as u64, c: 0u64, rounding: rounding_mode_of(self, rm) }),
            Instruction::FmulS { rd: _, rs1, rs2, rm } => Some(HostOperation { instruction: i, a: self.f_regs.read_f32_bits(rs1) as u64, b: self.f_regs.read_f32_bits(rs2) as u64, c: 0u64, rounding: rounding_mode_of(self, rm) }),
            Instruction::FdivS { rd: _, rs1, rs2, rm } => Some(HostOperation { instruction: i, a: self.f_regs.read_f32_bits(rs1) as u64, b: self.f_regs.read_f32_bits(rs2) as u64, c: 0u64, rounding: rounding_mode_of(self, rm) }),
            Instruction::FsqrtS { rd: _, rs1, rm } => Some(HostOperation { instruction: i, a: self.f_regs.read_f32_bits(rs1) as u64, b: 0u64, c: 0u64, rounding: rounding_mode_of(self, rm) }),
            Instruction::FmaddS { rd: _, rs1, rs2, rs3, rm } => Some(HostOperation { instruction: i, a: self.f_regs.read_f32_bits(rs1) as u64, b: self.f_regs.read_f32_bits(rs2) as u64, c: self.f_regs.read_f32_bits(rs3) as u64, rounding: rounding_mode_of(self, rm) }),
            Instruction::FmsubS { rd: _, rs1, rs2, rs3, rm } => Some(HostOperation { instruction: i, a: self.f_regs.read_f32_bits(rs1) as u64, b: self.f_regs.read_f32_bits(rs2) as u64, c: (self.f_regs.read_f32_bits(rs3) as u64) ^ 0x8000_0000u64, rounding: rounding_mode_of(self, rm) }),
            Instruction::FnmsubS { rd: _, rs1, rs2, rs3, rm } => Some(HostOperation { instruction: i, a: (self.f_regs.read_f32_bits(rs1) as u64) ^ 0x8000_0000u64, b: self.f_regs.read_f32_bits(rs2) as u64, c: self.f_regs.read_f32_bits(rs3) as u64, rounding: rounding_mode_of(self, rm) }),
            Instruction::FnmaddS { rd: _, rs1, rs2, rs3, rm } => Some(HostOperation { instruction: i, a: (self.f_regs.read_f32_bits(rs1) as u64) ^ 0x8000_0000u64, b: self.f_regs.read_f32_bits(rs2) as u64, c: (self.f_regs.read_f32_bits(rs3) as u64) ^ 0x8000_0000u64, rounding: rounding_mode_of(self, rm) }),
            Instruction::FaddD { rd: _, rs1, rs2, rm } => Some(HostOperation { instruction: i, a: self.f_regs.read_f64_bits(rs1), b: self.f_regs.read_f64_bits(rs2), c: 0u64, rounding: rounding_mode_of(self, rm) }),
            Instruction::FsubD { rd: _, rs1, rs2, rm } => Some(HostOperation { instruction: i, a: self.f_regs.read_f64_bits(rs1), b: self.f_regs.read_f64_bits(rs2), c: 0u64, rounding: rounding_mode_of(self, rm) }),
            Instruction::FmulD { rd: _, rs1, rs2, rm } => Some(HostOperation { instruction: i, a: self.f_regs.read_f64_bits(rs1), b: self.f_regs.read_f64_bits(rs2), c: 0u64, rounding: rounding_mode_of(self, rm) }),
            Instruction::FdivD { rd: _, rs1, rs2, rm } => Some(HostOperation { instruction: i, a: self.f_regs.read_f64_bits(rs1), b: self.f_regs.read_f64_bits(rs2), c: 0u64, rounding: rounding_mode_of(self, rm) }),
            Instruction::FsqrtD { rd: _, rs1, rm } => Some(HostOperation { instruction: i, a: self.f_regs.read_f64_bits(rs1), b: 0u64, c: 0u64, rounding: rounding_mode_of(self, rm) }),
            Instruction::FcvtDW { rd: _, rs1, rm } => Some(HostOperation { instruction: i, a: self.regs.read(rs1), b: 0u64, c: 0u64, rounding: rounding_mode_of(self, rm) }),
            Instruction::FcvtDWU { rd: _, rs1, rm } => Some(HostOperation { instruction: i, a: self.regs.read(rs1), b: 0u64, c: 0u64, rounding: rounding_mode_of(self, rm) }),
            Instruction::FcvtDL { rd: _, rs1, rm } => Some(HostOperation { instruction: i, a: self.regs.read(rs1), b: 0u64, c: 0u64, rounding: rounding_mode_of(self, rm) }),
            Instruction::FcvtDLU { rd: _, rs1, rm } => Some(HostOperation { instruction: i, a: self.regs.read(rs1), b: 0u64, c: 0u64, rounding: rounding_mode_of(self, rm) }),
            Instruction::FcvtDS { rd: _, rs1, rm } => Some(HostOperation { instruction: i, a: self.f_regs.read_f32_bits(rs1) as u64, b: 0u64, c: 0u64, rounding: rounding_mode_of(self, rm) }),
            Instruction::FmaddD { rd: _, rs1, rs2, rs3, rm } => Some(HostOperation { instruction: i, a: self.f_regs.read_f64_bits(rs1), b: self.f_regs.read_f64_bits(rs2), c: self.f_regs.read_f64_bits(rs3), rounding: rounding_mode_of(self, rm) }),
            Instruction::FmsubD { rd: _, rs1, rs2, rs3, rm } => Some(HostOperation { instruction: i, a: self.f_regs.read_f64_bits(rs1), b: self.f_regs.read_f64_bits(rs2), c: (self.f_regs.read_f64_bits(rs3)) ^ 0x8000_0000_0000_0000u64, rounding: rounding_mode_of(self, rm) }),
            Instruction::FnmsubD { rd: _, rs1, rs2, rs3, rm } => Some(HostOperation { instruction: i, a: (self.f_regs.read_f64_bits(rs1)) ^ 0x8000_0000_0000_0000u64, b: self.f_regs.read_f64_bits(rs2), c: self.f_regs.read_f64_bits(rs3), rounding: rounding_mode_of(self, rm) }),
            Instruction::FnmaddD { rd: _, rs1, rs2, rs3, rm } => Some(HostOperation { instruction: i, a: (self.f_regs.read_f64_bits(rs1)) ^ 0x8000_0000_0000_0000u64, b: self.f_regs.read_f64_bits(rs2), c: (self.f_regs.read_f64_bits(rs3)) ^ 0x8000_0000_0000_0000u64, rounding: rounding_mode_of(self, rm) }),
            Instruction::FcvtWS { rd: _, rs1, rm } => Some(HostOperation { instruction: i, a: self.f_regs.read_f32_bits(rs1) as u64, b: 0u64, c: 0u64, rounding: rounding_mode_of(self, rm) }),
            Instruction::FcvtWUS { rd: _, rs1, rm } => Some(HostOperation { instruction: i, a: self.f_regs.read_f32_bits(rs1) as u64, b: 0u64, c: 0u64, rounding: rounding_mode_of(self, rm) }),
            Instruction::FcvtLS { rd: _, rs1, rm } => Some(HostOperation { instruction: i, a: self.f_regs.read_f32_bits(rs1) as u64, b: 0u64, c: 0u64, rounding: rounding_mode_of(self, rm) }),
            Instruction::FcvtLUS { rd: _, rs1, rm } => Some(HostOperation { instruction: i, a: self.f_regs.read_f32_bits(rs1) as u64, b: 0u64, c: 0u64, rounding: rounding_mode_of(self, rm) }),
            Instruction::FcvtWD { rd: _, rs1, rm } => Some(HostOperation { instruction: i, a: self.f_regs.read_f64_bits(rs1), b: 0u64, c: 0u64, rounding: rounding_mode_of(self, rm) }),
            Instruction::FcvtWUD { rd: _, rs1, rm } => Some(HostOperation { instruction: i, a: self.f_regs.read_f64_bits(rs1), b: 0u64, c: 0u64, rounding: rounding_mode_of(self, rm) }),
            Instruction::FcvtLD { rd: _, rs1, rm } => Some(HostOperation { instruction: i, a: self.f_regs.read_f64_bits(rs1), b: 0u64, c: 0u64, rounding: rounding_mode_of(self, rm) }),
            Instruction::FcvtLUD { rd: _, rs1, rm } => Some(HostOperation { instruction: i, a: self.f_regs.read_f64_bits(rs1), b: 0u64, c: 0u64, rounding: rounding_mode_of(self, rm) }),
                    _ => None,
                }
            },
        }
    }

    /// Completes the pending host operation with its result `value` and
    /// exception flags `flags`: writes the destination (see
    /// `host_writeback`), accrues the flags, and moves past the
    /// instruction. Without a pending request nothing happens.
    pub fn complete_host_request(&mut self, value: u64, flags: u8)
        ensures
            old(self).wf() ==> final(self).wf(),
            old(self).host_request is None ==> *final(self) == *old(self),
            old(self).host_request matches Some(d) ==> {
                &&& final(self).host_request is None
                &&& final(self).pc == old(self).pc.wrapping_add(d.length as u64)
                &&& *final(self) == (Cpu {
                    csr: final(self).csr,
                    regs: final(self).regs,
                    f_regs: final(self).f_regs,
                    pc: final(self).pc,
                    host_request: None,
                    ..*old(self)
                })
                &&& final(self).csr == (Csr { fflags: final(self).csr.fflags, fcsr: final(self).csr.fcsr, ..old(self).csr })
                &&& final(self).csr.fflags == old(self).csr.fflags | (flags as u64)
                &&& final(self).csr.fcsr == (old(self).csr.frm << 5u64) | (old(self).csr.fflags | (flags as u64))
                &&& match host_writeback(old(self), d.instruction, value, flags) {
                    HostWrite::Int(rd, v) => final(self).regs@ == old(self).regs.spec_written(rd, v)
                        && final(self).f_regs == old(self).f_regs,
                    HostWrite::Float(rd, v) => final(self).f_regs@ == old(self).f_regs@.update(
                        rd.spec_idx() as int,
                        v,
                    ) && final(self).regs == old(self).regs,
                    HostWrite::Nothing => final(self).regs == old(self).regs && final(self).f_regs == old(
                        self,
                    ).f_regs,
                }
            },
    {
        let d = match self.host_request {
            None => {
                return;
            },
            Some(d) => d,
        };
        let invalid = (flags & FLAG_INVALID) != 0;
        match d.instruction {
            Instruction::FaddS { rd, rs1: _, rs2: _, rm: _ } => {
                self.f_regs.write_f32_bits(rd, value as u32);
            },
            Instruction::FcvtSW { rd, rs1: _, rm: _ } => {
                self.f_regs.write_f32_bits(rd, value as u32);
            },
            Instruction::FcvtSWU { rd, rs1: _, rm: _ } => {
                self.f_regs.write_f32_bits(rd, value as u32);
            },
            Instruction::FcvtSL { rd, rs1: _, rm: _ } => {
                self.f_regs.write_f32_bits(rd, value as u32);
            },
            Instruction::FcvtSLU { rd, rs1: _, rm: _ } => {
                self.f_regs.write_f32_bits(rd, value as u32);
            },
            Instruction::FcvtSD { rd, rs1: _, rm: _ } => {
                self.f_regs.write_f32_bits(rd, value as u32);
            },
            Instruction::FsubS { rd, rs1: _, rs2: _, rm: _ } => {
                self.f_regs.write_f32_bits(rd, canonicalize_f32_nan(value as u32));
            },
            Instruction::FmulS { rd, rs1: _, rs2: _, rm: _ } => {
                self.f_regs.write_f32_bits(rd, canonicalize_f32_nan(value as u32));
            },
            Instruction::FdivS { rd, rs1: _, rs2: _, rm: _ } => {
                self.f_regs.write_f32_bits(rd, canonicalize_f32_nan(value as u32));
            },
            Instruction::FsqrtS { rd, rs1: _, rm: _ } => {
                self.f_regs.write_f32_bits(rd, canonicalize_f32_nan(value as u32));
            },
            Instruction::FmaddS { rd, rs1: _, rs2: _, rs3: _, rm: _ } => {
                self.f_regs.write_f32_bits(rd, canonicalize_f32_nan(value as u32));
            },
            Instruction::FmsubS { rd, rs1: _, rs2: _, rs3: _, rm: _ } => {
                self.f_regs.write_f32_bits(rd, canonicalize_f32_nan(value as u32));
            },
            Instruction::FnmsubS { rd, rs1: _, rs2: _, rs3: _, rm: _ } => {
                self.f_regs.write_f32_bits(rd, canonicalize_f32_nan(value as u32));
            },
            Instruction::FnmaddS { rd, rs1: _, rs2: _, rs3: _, rm: _ } => {
                self.f_regs.write_f32_bits(rd, canonicalize_f32_nan(value as u32));
            },
            Instruction::FaddD { rd, rs1: _, rs2: _, rm: _ } => {
                self.f_regs.write_f64_bits(rd, value);
            },
            Instruction::FsubD { rd, rs1: _, rs2: _, rm: _ } => {
                self.f_regs.write_f64_bits(rd, value);
            },
            Instruction::FmulD { rd, rs1: _, rs2: _, rm: _ } => {
                self.f_regs.write_f64_bits(rd, value);
            },
            Instruction::FdivD { rd, rs1: _, rs2: _, rm: _ } => {
                self.f_regs.write_f64_bits(rd, value);
            },
            Instruction::FsqrtD { rd, rs1: _, rm: _ } => {
                self.f_regs.write_f64_bits(rd, value);
            },
            Instruction::FcvtDW { rd, rs1: _, rm: _ } => {
                self.f_regs.write_f64_bits(rd, value);
            },
            Instruction::FcvtDWU { rd, rs1: _, rm: _ } => {
                self.f_regs.write_f64_bits(rd, value);
            },
            Instruction::FcvtDL { rd, rs1: _, rm: _ } => {
                self.f_regs.write_f64_bits(rd, value);
            },
            Instruction::FcvtDLU { rd, rs1: _, rm: _ } => {
                self.f_regs.write_f64_bits(rd, value);
            },
            Instruction::FcvtDS { rd, rs1: _, rm: _ } => {
                self.f_regs.write_f64_bits(rd, value);
            },
            Instruction::FmaddD { rd, rs1: _, rs2: _, rs3: _, rm: _ } => {
                self.f_regs.write_f64_bits(rd, value);
            },
            Instruction::FmsubD { rd, rs1: _, rs2: _, rs3: _, rm: _ } => {
                self.f_regs.write_f64_bits(rd, value);
            },
            Instruction::FnmsubD { rd, rs1: _, rs2: _, rs3: _, rm: _ } => {
                self.f_regs.write_f64_bits(rd, value);
            },
            Instruction::FnmaddD { rd, rs1: _, rs2: _, rs3: _, rm: _ } => {
                self.f_regs.write_f64_bits(rd, value);
            },
            Instruction::FcvtWS { rd, rs1, rm: _ } => {
                let negative = {
                    let s = self.f_regs.read_f32_bits(rs1);
                    !f32_is_nan(s) && (s & 0x8000_0000) != 0
                };
                self.regs.write(rd, rv_fcvt_i32(value as i32, negative, invalid) as i64 as u64);
            },
            Instruction::FcvtWUS { rd, rs1, rm: _ } => {
                let negative = {
                    let s = self.f_regs.read_f32_bits(rs1);
                    !f32_is_nan(s) && (s & 0x8000_0000) != 0
                };
                self.regs.write(rd, rv_fcvt_u32(value as u32, negative, invalid) as i32 as i64 as u64);
            },
            Instruction::FcvtLS { rd, rs1, rm: _ } => {
                let negative = {
                    let s = self.f_regs.read_f32_bits(rs1);
                    !f32_is_nan(s) && (s & 0x8000_0000) != 0
                };
                self.regs.write(rd, rv_fcvt_i64(value as i64, negative, invalid) as u64);
            },
            Instruction::FcvtLUS { rd, rs1, rm: _ } => {
                let negative = {
                    let s = self.f_regs.read_f32_bits(rs1);
                    !f32_is_nan(s) && (s & 0x8000_0000) != 0
                };
                self.regs.write(rd, rv_fcvt_u64(value, negative, invalid));
            },
            Instruction::FcvtWD { rd, rs1, rm: _ } => {
                let negative = {
                    let s = self.f_regs.read_f64_bits(rs1);
                    !f64_is_nan(s) && (s & 0x8000_0000_0000_0000) != 0
                };
                self.regs.write(rd, rv_fcvt_i32(value as i32, negative, invalid) as i64 as u64);
            },
            Instruction::FcvtWUD { rd, rs1, rm: _ } => {
                let negative = {
                    let s = self.f_regs.read_f64_bits(rs1);
                    !f64_is_nan(s) && (s & 0x8000_0000_0000_0000) != 0
                };
                self.regs.write(rd, rv_fcvt_u32(value as u32, negative, invalid) as i32 as i64 as u64);
            },
            Instruction::FcvtLD { rd, rs1, rm: _ } => {
                let negative = {
                    let s = self.f_regs.read_f64_bits(rs1);
                    !f64_is_nan(s) && (s & 0x8000_0000_0000_0000) != 0
                };
                self.regs.write(rd, rv_fcvt_i64(value as i64, negative, invalid) as u64);
            },
            Instruction::FcvtLUD { rd, rs1, rm: _ } => {
                let negative = {
                    let s = self.f_regs.read_f64_bits(rs1);
                    !f64_is_nan(s) && (s & 0x8000_0000_0000_0000) != 0
                };
                self.regs.write(rd, rv_fcvt_u64(value, negative, invalid));
            },
            _ => {},
        }
        update_fflags(self, flags);
        self.pc = self.pc.wrapping_add(d.length as u64);
        self.host_request = None;
    }
}

} // verus!
