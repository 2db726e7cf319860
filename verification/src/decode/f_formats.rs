use vstd::prelude::*;

use crate::cpu::f_register::FReg;

verus! {

/// Bits 11..7: the float destination.
pub open spec fn spec_frd(raw: u32) -> FReg {
    FReg::new((raw >> 7) & 0x1f)
}

/// Bits 11..7: the float destination.
#[verifier::when_used_as_spec(spec_frd)]
pub fn frd(raw: u32) -> (r: FReg)
    ensures
        r == spec_frd(raw),
{
    FReg::new((raw >> 7) & 0x1f)
}

/// Bits 24..20: the second float source.
pub open spec fn spec_frs2(raw: u32) -> FReg {
    FReg::new((raw >> 20) & 0x1f)
}

/// Bits 24..20: the second float source.
#[verifier::when_used_as_spec(spec_frs2)]
pub fn frs2(raw: u32) -> (r: FReg)
    ensures
        r == spec_frs2(raw),
{
    FReg::new((raw >> 20) & 0x1f)
}

/// Bits 19..15: the first float source.
pub open spec fn spec_frs1(raw: u32) -> FReg {
    FReg::new((raw >> 15) & 0x1f)
}

/// Bits 19..15: the first float source.
#[verifier::when_used_as_spec(spec_frs1)]
pub fn frs1(raw: u32) -> (r: FReg)
    ensures
        r == spec_frs1(raw),
{
    FReg::new((raw >> 15) & 0x1f)
}

/// Bits 31..27: the third float source (fused multiply-add).
pub open spec fn spec_frs3(raw: u32) -> FReg {
    FReg::new((raw >> 27) & 0x1f)
}

/// Bits 31..27: the third float source (fused multiply-add).
#[verifier::when_used_as_spec(spec_frs3)]
pub fn frs3(raw: u32) -> (r: FReg)
    ensures
        r == spec_frs3(raw),
{
    FReg::new((raw >> 27) & 0x1f)
}

} // verus!
