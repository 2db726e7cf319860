use vstd::prelude::*;

verus! {

/// A floating-point register name `f0`..`f31`.
#[derive(Clone, Copy, PartialEq, Eq, Structural, Debug)]
pub struct FReg(u8);

/// The ABI name of floating-point register `i`.
pub open spec fn spec_fabi_name(i: nat) -> Seq<char> {
    if i == 0 { "ft0"@ } else if i == 1 { "ft1"@ } else if i == 2 { "ft2"@ } else if i == 3 { "ft3"@ }
    else if i == 4 { "ft4"@ } else if i == 5 { "ft5"@ } else if i == 6 { "ft6"@ } else if i == 7 { "ft7"@ }
    else if i == 8 { "fs0"@ } else if i == 9 { "fs1"@ } else if i == 10 { "fa0"@ } else if i == 11 { "fa1"@ }
    else if i == 12 { "fa2"@ } else if i == 13 { "fa3"@ } else if i == 14 { "fa4"@ } else if i == 15 { "fa5"@ }
    else if i == 16 { "fa6"@ } else if i == 17 { "fa7"@ } else if i == 18 { "fs2"@ } else if i == 19 { "fs3"@ }
    else if i == 20 { "fs4"@ } else if i == 21 { "fs5"@ } else if i == 22 { "fs6"@ } else if i == 23 { "fs7"@ }
    else if i == 24 { "fs8"@ } else if i == 25 { "fs9"@ } else if i == 26 { "fs10"@ } else if i == 27 { "fs11"@ }
    else if i == 28 { "ft8"@ } else if i == 29 { "ft9"@ } else if i == 30 { "ft10"@ } else { "ft11"@ }
}

impl FReg {
    /// The register number, always below 32.
    pub closed spec fn spec_idx(self) -> nat {
        (self.0 % 32) as nat
    }

    /// The register a 5-bit field names: the low five bits of `bits`.
    pub closed spec fn spec_new(bits: u32) -> FReg {
        FReg((bits & 0b11111) as u8)
    }

    pub broadcast proof fn lemma_idx_bound(r: FReg)
        ensures
            #[trigger] r.spec_idx() < 32,
    {
    }

    pub broadcast proof fn lemma_new_idx(bits: u32)
        ensures
            #[trigger] FReg::spec_new(bits).spec_idx() == bits % 32,
    {
        assert((bits & 0b11111) == bits % 32) by (bit_vector);
        assert(((bits & 0b11111) as u8) % 32 == bits % 32) by (bit_vector);
    }

    #[verifier::when_used_as_spec(spec_new)]
    pub fn new(bits: u32) -> (r: FReg)
        ensures
            r == FReg::spec_new(bits),
            r.spec_idx() == bits % 32,
    {
        proof { FReg::lemma_new_idx(bits); }
        FReg((bits & 0b11111) as u8)
    }

    pub fn idx(self) -> (i: usize)
        ensures
            i == self.spec_idx(),
            i < 32,
    {
        (self.0 % 32) as usize
    }

    /// The RISC-V ABI name (`ft0`, `fs0`, `fa0`, ...).
    pub fn abi_name(self) -> (name: &'static str)
        ensures
            name@ == spec_fabi_name(self.spec_idx()),
    {
        let i = self.0 % 32;
        if i == 0 { "ft0" } else if i == 1 { "ft1" } else if i == 2 { "ft2" } else if i == 3 { "ft3" }
        else if i == 4 { "ft4" } else if i == 5 { "ft5" } else if i == 6 { "ft6" } else if i == 7 { "ft7" }
        else if i == 8 { "fs0" } else if i == 9 { "fs1" } else if i == 10 { "fa0" } else if i == 11 { "fa1" }
        else if i == 12 { "fa2" } else if i == 13 { "fa3" } else if i == 14 { "fa4" } else if i == 15 { "fa5" }
        else if i == 16 { "fa6" } else if i == 17 { "fa7" } else if i == 18 { "fs2" } else if i == 19 { "fs3" }
        else if i == 20 { "fs4" } else if i == 21 { "fs5" } else if i == 22 { "fs6" } else if i == 23 { "fs7" }
        else if i == 24 { "fs8" } else if i == 25 { "fs9" } else if i == 26 { "fs10" } else if i == 27 { "fs11" }
        else if i == 28 { "ft8" } else if i == 29 { "ft9" } else if i == 30 { "ft10" } else { "ft11" }
    }
}

/// Upper 32 bits of a NaN-boxed single-precision value on RV64.
pub const NAN_BOX_UPPER: u64 = 0xffff_ffff_0000_0000;

/// The canonical quiet NaN of single precision.
pub const CANONICAL_NAN_F32: u32 = 0x7fc0_0000;

/// Whether a 64-bit register word holds a NaN-boxed single: upper half all ones.
pub open spec fn is_boxed(bits: u64) -> bool {
    bits >> 32 == 0xffff_ffff
}

/// The single that a register word stands for: its low half when boxed,
/// the canonical NaN otherwise.
pub open spec fn unbox_f32(bits: u64) -> u32 {
    if is_boxed(bits) { bits as u32 } else { CANONICAL_NAN_F32 }
}

/// A single NaN-boxed into a register word.
pub open spec fn box_f32(bits: u32) -> u64 {
    NAN_BOX_UPPER | (bits as u64)
}

/// The floating-point register file `f0`..`f31`, 64 bits each.
pub struct FRegister {
    regs: [u64; 32],
}

impl FRegister {
    /// The 32 stored words.
    pub closed spec fn view(&self) -> Seq<u64> {
        self.regs@
    }

    pub broadcast proof fn lemma_view_len(r: &FRegister)
        ensures
            #[trigger] r.view().len() == 32,
    {
    }

    /// The raw word in register `r`.
    pub open spec fn spec_bits(&self, r: FReg) -> u64 {
        self.view()[r.spec_idx() as int]
    }

    pub fn new() -> (r: FRegister)
        ensures
            r.view() == Seq::new(32, |i: int| 0u64),
    {
        let r = FRegister { regs: [0u64; 32] };
        assert(r.view() =~= Seq::new(32, |i: int| 0u64));
        r
    }

    pub fn read_bits(&self, reg: FReg) -> (v: u64)
        ensures
            v == self.spec_bits(reg),
    {
        self.regs[reg.idx()]
    }

    pub fn write_bits(&mut self, reg: FReg, bits: u64)
        ensures
            final(self).view() == old(self).view().update(reg.spec_idx() as int, bits),
    {
        self.regs[reg.idx()] = bits;
    }

    /// The single held in `reg`; a value that is not NaN-boxed reads as the
    /// canonical NaN.
    pub fn read_f32_bits(&self, reg: FReg) -> (v: u32)
        ensures
            v == unbox_f32(self.spec_bits(reg)),
    {
        let value = self.regs[reg.idx()];
        if (value >> 32) == 0xffff_ffff {
            value as u32
        } else {
            CANONICAL_NAN_F32
        }
    }

    /// Writes a single, NaN-boxed.
    pub fn write_f32_bits(&mut self, reg: FReg, bits: u32)
        ensures
            final(self).view() == old(self).view().update(reg.spec_idx() as int, box_f32(bits)),
    {
        self.regs[reg.idx()] = NAN_BOX_UPPER | (bits as u64);
    }

    pub fn is_nan_boxed(&self, reg: FReg) -> (b: bool)
        ensures
            b == is_boxed(self.spec_bits(reg)),
    {
        (self.regs[reg.idx()] >> 32) == 0xffff_ffff
    }

    /// The low half of `reg`, whether boxed or not.
    pub fn read_f32_raw_bits(&self, reg: FReg) -> (v: u32)
        ensures
            v == self.spec_bits(reg) as u32,
    {
        self.read_bits(reg) as u32
    }

    pub fn read_f64_bits(&self, reg: FReg) -> (v: u64)
        ensures
            v == self.spec_bits(reg),
    {
        self.regs[reg.idx()]
    }

    pub fn write_f64_bits(&mut self, reg: FReg, bits: u64)
        ensures
            final(self).view() == old(self).view().update(reg.spec_idx() as int, bits),
    {
        self.regs[reg.idx()] = bits;
    }
}

/// A boxed single reads back unchanged, and is recognised as boxed.
pub proof fn law_box_roundtrip(bits: u32)
    ensures
        is_boxed(box_f32(bits)),
        unbox_f32(box_f32(bits)) == bits,
        box_f32(bits) as u32 == bits,
{
    assert((0xffff_ffff_0000_0000u64 | (bits as u64)) >> 32 == 0xffff_ffff) by (bit_vector);
    assert((0xffff_ffff_0000_0000u64 | (bits as u64)) as u32 == bits) by (bit_vector);
}

/// A word written as a double reads back unchanged, and any other register
/// keeps its word.
pub proof fn law_f64_read_after_write(regs: FRegister, after: FRegister, r: FReg, bits: u64, q: FReg)
    requires
        after.view() == regs.view().update(r.spec_idx() as int, bits),
    ensures
        after.spec_bits(q) == if q.spec_idx() == r.spec_idx() { bits } else { regs.spec_bits(q) },
{
    FRegister::lemma_view_len(&regs);
}

} // verus!
