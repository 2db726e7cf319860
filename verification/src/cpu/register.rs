use vstd::prelude::*;

verus! {

/// An integer register name `x0`..`x31`.
#[derive(Clone, Copy, PartialEq, Eq, Structural, Debug)]
pub struct Reg(u8);

/// The ABI name of integer register `i`.
pub open spec fn spec_abi_name(i: nat) -> Seq<char> {
    if i == 0 { "zero"@ } else if i == 1 { "ra"@ } else if i == 2 { "sp"@ } else if i == 3 { "gp"@ }
    else if i == 4 { "tp"@ } else if i == 5 { "t0"@ } else if i == 6 { "t1"@ } else if i == 7 { "t2"@ }
    else if i == 8 { "s0"@ } else if i == 9 { "s1"@ } else if i == 10 { "a0"@ } else if i == 11 { "a1"@ }
    else if i == 12 { "a2"@ } else if i == 13 { "a3"@ } else if i == 14 { "a4"@ } else if i == 15 { "a5"@ }
    else if i == 16 { "a6"@ } else if i == 17 { "a7"@ } else if i == 18 { "s2"@ } else if i == 19 { "s3"@ }
    else if i == 20 { "s4"@ } else if i == 21 { "s5"@ } else if i == 22 { "s6"@ } else if i == 23 { "s7"@ }
    else if i == 24 { "s8"@ } else if i == 25 { "s9"@ } else if i == 26 { "s10"@ } else if i == 27 { "s11"@ }
    else if i == 28 { "t3"@ } else if i == 29 { "t4"@ } else if i == 30 { "t5"@ } else { "t6"@ }
}

impl Reg {
    /// The register number, always below 32.
    pub closed spec fn spec_idx(self) -> nat {
        (self.0 % 32) as nat
    }

    /// The register a 5-bit field names: the low five bits of `bits`.
    pub closed spec fn spec_new(bits: u32) -> Reg {
        Reg((bits & 0b11111) as u8)
    }

    pub broadcast proof fn lemma_idx_bound(r: Reg)
        ensures
            #[trigger] r.spec_idx() < 32,
    {
    }

    pub broadcast proof fn lemma_new_idx(bits: u32)
        ensures
            #[trigger] Reg::spec_new(bits).spec_idx() == bits % 32,
    {
        assert((bits & 0b11111) == bits % 32) by (bit_vector);
        assert(((bits & 0b11111) as u8) % 32 == bits % 32) by (bit_vector);
    }

    #[verifier::when_used_as_spec(spec_new)]
    pub fn new(bits: u32) -> (r: Reg)
        ensures
            r == Reg::spec_new(bits),
            r.spec_idx() == bits % 32,
    {
        proof { Reg::lemma_new_idx(bits); }
        Reg((bits & 0b11111) as u8)
    }

    pub fn idx(self) -> (i: usize)
        ensures
            i == self.spec_idx(),
            i < 32,
    {
        (self.0 % 32) as usize
    }

    /// Whether this is `x2`, the stack pointer.
    pub open spec fn spec_is_sp(self) -> bool {
        self.spec_idx() == 2
    }

    /// Whether this is `x2`, the stack pointer.
    #[verifier::when_used_as_spec(spec_is_sp)]
    pub fn is_sp(self) -> (b: bool)
        ensures
            b == (self.spec_idx() == 2),
    {
        self.0 % 32 == 2
    }

    /// Whether this is `x0`, the hard-wired zero register.
    pub open spec fn spec_is_zero(self) -> bool {
        self.spec_idx() == 0
    }

    /// Whether this is `x0`, the hard-wired zero register.
    #[verifier::when_used_as_spec(spec_is_zero)]
    pub fn is_zero(self) -> (b: bool)
        ensures
            b == (self.spec_idx() == 0),
    {
        self.0 % 32 == 0
    }

    /// The RISC-V ABI name (`zero`, `ra`, `sp`, ...).
    pub fn abi_name(self) -> (name: &'static str)
        ensures
            name@ == spec_abi_name(self.spec_idx()),
    {
        let i = self.0 % 32;
        if i == 0 { "zero" } else if i == 1 { "ra" } else if i == 2 { "sp" } else if i == 3 { "gp" }
        else if i == 4 { "tp" } else if i == 5 { "t0" } else if i == 6 { "t1" } else if i == 7 { "t2" }
        else if i == 8 { "s0" } else if i == 9 { "s1" } else if i == 10 { "a0" } else if i == 11 { "a1" }
        else if i == 12 { "a2" } else if i == 13 { "a3" } else if i == 14 { "a4" } else if i == 15 { "a5" }
        else if i == 16 { "a6" } else if i == 17 { "a7" } else if i == 18 { "s2" } else if i == 19 { "s3" }
        else if i == 20 { "s4" } else if i == 21 { "s5" } else if i == 22 { "s6" } else if i == 23 { "s7" }
        else if i == 24 { "s8" } else if i == 25 { "s9" } else if i == 26 { "s10" } else if i == 27 { "s11" }
        else if i == 28 { "t3" } else if i == 29 { "t4" } else if i == 30 { "t5" } else { "t6" }
    }
}

/// The integer register file `x0`..`x31`; `x0` always reads as zero.
pub struct Register {
    x: [u64; 32],
}

impl Register {
    /// The 32 stored words (the slot of `x0` is never written).
    pub closed spec fn view(&self) -> Seq<u64> {
        self.x@
    }

    pub broadcast proof fn lemma_view_len(r: &Register)
        ensures
            #[trigger] r.view().len() == 32,
    {
    }

    /// The value a read of `r` gives.
    pub open spec fn spec_read(&self, r: Reg) -> u64 {
        if r.spec_idx() == 0 {
            0
        } else {
            self.view()[r.spec_idx() as int]
        }
    }

    /// The stored words after a write of `val` to `r`.
    pub open spec fn spec_written(&self, r: Reg, val: u64) -> Seq<u64> {
        if r.spec_idx() == 0 {
            self.view()
        } else {
            self.view().update(r.spec_idx() as int, val)
        }
    }

    pub fn new() -> (r: Register)
        ensures
            r.view() == Seq::new(32, |i: int| 0u64),
    {
        let r = Register { x: [0u64; 32] };
        assert(r.view() =~= Seq::new(32, |i: int| 0u64));
        r
    }

    pub fn read(&self, r: Reg) -> (v: u64)
        ensures
            v == self.spec_read(r),
    {
        let i = r.idx();
        if i == 0 { 0 } else { self.x[i] }
    }

    pub fn write(&mut self, r: Reg, val: u64)
        ensures
            final(self).view() == old(self).spec_written(r, val),
    {
        let i = r.idx();
        if i != 0 {
            self.x[i] = val;
        }
    }
}

/// Reading a register after a write gives the written value, unless the
/// register is `x0`; every other register keeps its value.
pub proof fn law_read_after_write(regs: Register, after: Register, r: Reg, val: u64, q: Reg)
    requires
        after.view() == regs.spec_written(r, val),
    ensures
        after.spec_read(q) == if q.spec_idx() == r.spec_idx() && r.spec_idx() != 0 {
            val
        } else {
            regs.spec_read(q)
        },
{
    Register::lemma_view_len(&regs);
}

/// Whatever was written, `x0` reads as zero.
pub proof fn law_x0_reads_zero(regs: Register)
    ensures
        regs.spec_read(Reg::spec_new(0)) == 0,
{
    Reg::lemma_new_idx(0);
}

} // verus!
