use vstd::prelude::*;

use crate::cpu::f_register::CANONICAL_NAN_F32;
use crate::cpu::Cpu;
use crate::trap::Trap;

verus! {

/// IEEE 754 rounding modes, as encoded in the `rm` field and in `frm`.
#[derive(Clone, Copy, Debug, PartialEq, Eq, Structural)]
pub enum RoundingMode {
    TiesToEven,
    TowardZero,
    TowardNegative,
    TowardPositive,
    TiesToAway,
}

/// The rounding mode an instruction's `rm` field selects: 0 to 4 name one,
/// 7 defers to `frm`; any other value (in either place) is illegal.
pub open spec fn spec_rounding_mode(frm: u64, rm: u8) -> Option<RoundingMode> {
    let m = if rm == 7 { frm as u8 } else { rm };
    if m == 0 {
        Some(RoundingMode::TiesToEven)
    } else if m == 1 {
        Some(RoundingMode::TowardZero)
    } else if m == 2 {
        Some(RoundingMode::TowardNegative)
    } else if m == 3 {
        Some(RoundingMode::TowardPositive)
    } else if m == 4 {
        Some(RoundingMode::TiesToAway)
    } else {
        None
    }
}

/// The rounding mode for `rm` (see `spec_rounding_mode`); an illegal one
/// is an illegal-instruction trap.
pub fn get_rounding_mode(cpu: &Cpu, rm: u8) -> (r: Result<RoundingMode, Trap>)
    ensures
        r == match spec_rounding_mode(cpu.csr.frm, rm) {
            Some(m) => Ok::<RoundingMode, Trap>(m),
            None => Err(Trap::IllegalInstruction(0)),
        },
{
    let m = if rm == 0b111 { cpu.csr.frm as u8 } else { rm };
    if m == 0 {
        Ok(RoundingMode::TiesToEven)
    } else if m == 1 {
        Ok(RoundingMode::TowardZero)
    } else if m == 2 {
        Ok(RoundingMode::TowardNegative)
    } else if m == 3 {
        Ok(RoundingMode::TowardPositive)
    } else if m == 4 {
        Ok(RoundingMode::TiesToAway)
    } else {
        Err(Trap::IllegalInstruction(0))
    }
}

/// Accrues the exception flags `flags` (NV DZ OF UF NX in bits 4..0) into
/// fflags and refreshes fcsr from frm and fflags.
pub fn update_fflags(cpu: &mut Cpu, flags: u8)
    ensures
        final(cpu).csr.fflags == old(cpu).csr.fflags | (flags as u64),
        final(cpu).csr.fcsr == (old(cpu).csr.frm << 5u64) | (old(cpu).csr.fflags | (flags as u64)),
        *final(cpu) == (Cpu { csr: final(cpu).csr, ..*old(cpu) }),
        final(cpu).csr == (crate::cpu::csr::Csr {
            fflags: final(cpu).csr.fflags,
            fcsr: final(cpu).csr.fcsr,
            ..old(cpu).csr
        }),
{
    cpu.csr.fflags = cpu.csr.fflags | (flags as u64);
    cpu.csr.fcsr = (cpu.csr.frm << 5) | cpu.csr.fflags;
}

/// The invalid-operation flag (NV).
pub const FLAG_INVALID: u8 = 0x10;

/// Whether the single `bits` is a NaN: exponent all ones, fraction not zero.
pub open spec fn is_nan_f32(bits: u32) -> bool {
    bits & 0x7f80_0000 == 0x7f80_0000 && bits & 0x007f_ffff != 0
}

/// Whether the single `bits` is a signaling NaN (a NaN with the top
/// fraction bit clear).
pub open spec fn is_snan_f32(bits: u32) -> bool {
    is_nan_f32(bits) && bits & 0x0040_0000 == 0
}

pub fn f32_is_nan(bits: u32) -> (b: bool)
    ensures
        b == is_nan_f32(bits),
{
    (bits & 0x7f80_0000) == 0x7f80_0000 && (bits & 0x007f_ffff) != 0
}

/// Any NaN becomes the canonical NaN; other values stay.
pub fn canonicalize_f32_nan(bits: u32) -> (r: u32)
    ensures
        r == if is_nan_f32(bits) { CANONICAL_NAN_F32 } else { bits },
{
    if f32_is_nan(bits) { CANONICAL_NAN_F32 } else { bits }
}

/// The RISC-V result of a conversion to a signed word: the converted
/// value, or, when the conversion was invalid, the most negative value
/// for negative inputs and the most positive one otherwise (NaN included).
pub fn rv_fcvt_i32(value: i32, negative: bool, invalid: bool) -> (r: i32)
    ensures
        r == if !invalid { value } else if negative { i32::MIN } else { i32::MAX },
{
    if !invalid {
        return value;
    }
    if negative { i32::MIN } else { i32::MAX }
}

/// As `rv_fcvt_i32`, for an unsigned word (0 for negative inputs).
pub fn rv_fcvt_u32(value: u32, negative: bool, invalid: bool) -> (r: u32)
    ensures
        r == if !invalid { value } else if negative { 0 } else { u32::MAX },
{
    if !invalid {
        return value;
    }
    if negative { 0 } else { u32::MAX }
}

/// As `rv_fcvt_i32`, for a signed doubleword.
pub fn rv_fcvt_i64(value: i64, negative: bool, invalid: bool) -> (r: i64)
    ensures
        r == if !invalid { value } else if negative { i64::MIN } else { i64::MAX },
{
    if !invalid {
        return value;
    }
    if negative { i64::MIN } else { i64::MAX }
}

/// As `rv_fcvt_i32`, for an unsigned doubleword.
pub fn rv_fcvt_u64(value: u64, negative: bool, invalid: bool) -> (r: u64)
    ensures
        r == if !invalid { value } else if negative { 0 } else { u64::MAX },
{
    if !invalid {
        return value;
    }
    if negative { 0 } else { u64::MAX }
}

} // verus!
