use vstd::prelude::*;

verus! {

/// An Sv39 page-table entry.
#[derive(Debug, Clone, Copy, PartialEq, Eq, Structural)]
pub struct Pte(pub u64);

impl Pte {
    pub fn new(bits: u64) -> (p: Pte)
        ensures
            p.0 == bits,
    {
        Pte(bits)
    }

    pub fn bits(self) -> (b: u64)
        ensures
            b == self.0,
    {
        self.0
    }

    /// Bit `i` of the entry.
    pub open spec fn flag(self, i: u64) -> bool {
        (self.0 >> i) & 1 == 1
    }

    /// V: the entry is valid.
    pub fn valid(self) -> (b: bool)
        ensures
            b == self.flag(0),
    {
        proof { lemma_pte_flags(self.0); }
        self.0 & 1 != 0
    }

    /// R: readable.
    pub fn read(self) -> (b: bool)
        ensures
            b == self.flag(1),
    {
        proof { lemma_pte_flags(self.0); }
        self.0 & 2 != 0
    }

    /// W: writable.
    pub fn write(self) -> (b: bool)
        ensures
            b == self.flag(2),
    {
        proof { lemma_pte_flags(self.0); }
        self.0 & 4 != 0
    }

    /// X: executable.
    pub fn execute(self) -> (b: bool)
        ensures
            b == self.flag(3),
    {
        proof { lemma_pte_flags(self.0); }
        self.0 & 8 != 0
    }

    /// U: accessible to user mode.
    pub fn user(self) -> (b: bool)
        ensures
            b == self.flag(4),
    {
        proof { lemma_pte_flags(self.0); }
        self.0 & 0x10 != 0
    }

    /// G: global mapping.
    pub fn global(self) -> (b: bool)
        ensures
            b == self.flag(5),
    {
        proof { lemma_pte_flags(self.0); }
        self.0 & 0x20 != 0
    }

    /// A: accessed.
    pub fn accessed(self) -> (b: bool)
        ensures
            b == self.flag(6),
    {
        proof { lemma_pte_flags(self.0); }
        self.0 & 0x40 != 0
    }

    /// D: dirty.
    pub fn dirty(self) -> (b: bool)
        ensures
            b == self.flag(7),
    {
        proof { lemma_pte_flags(self.0); }
        self.0 & 0x80 != 0
    }

    /// PPN[0]: bits 18..10.
    pub fn ppn0(self) -> (p: u16)
        ensures
            p == (self.0 >> 10) % 512,
    {
        proof { lemma_pte_fields(self.0); }
        ((self.0 >> 10) & 0x1ff) as u16
    }

    /// PPN[1]: bits 27..19.
    pub fn ppn1(self) -> (p: u16)
        ensures
            p == (self.0 >> 19) % 512,
    {
        proof { lemma_pte_fields(self.0); }
        ((self.0 >> 19) & 0x1ff) as u16
    }

    /// PPN[2]: bits 53..28.
    pub fn ppn2(self) -> (p: u32)
        ensures
            p == (self.0 >> 28) % 0x400_0000,
    {
        proof { lemma_pte_fields(self.0); }
        ((self.0 >> 28) & 0x03ff_ffff) as u32
    }

    /// The physical page number: bits 53..10.
    pub open spec fn spec_ppn(self) -> u64 {
        (self.0 >> 10) % 0x1000_0000_0000
    }

    pub fn ppn(self) -> (p: u64)
        ensures
            p == self.spec_ppn(),
    {
        proof { lemma_pte_fields(self.0); }
        (self.0 >> 10) & 0xfff_ffff_ffff
    }

    /// An entry is unusable when V is clear, or when it is writable without
    /// being readable (a reserved combination).
    pub open spec fn spec_is_invalid(self) -> bool {
        !self.flag(0) || (!self.flag(1) && self.flag(2))
    }

    pub fn is_invalid(self) -> (b: bool)
        ensures
            b == self.spec_is_invalid(),
    {
        !self.valid() || (!self.read() && self.write())
    }

    /// A leaf maps a page: R or X is set; otherwise it points to a table.
    pub open spec fn spec_is_leaf(self) -> bool {
        self.flag(1) || self.flag(3)
    }

    pub fn is_leaf(self) -> (b: bool)
        ensures
            b == self.spec_is_leaf(),
    {
        self.read() || self.execute()
    }
}

proof fn lemma_pte_flags(b: u64)
    by (bit_vector)
    ensures
        (b & 1 != 0) == ((b >> 0u64) & 1 == 1),
        (b & 2 != 0) == ((b >> 1u64) & 1 == 1),
        (b & 4 != 0) == ((b >> 2u64) & 1 == 1),
        (b & 8 != 0) == ((b >> 3u64) & 1 == 1),
        (b & 0x10 != 0) == ((b >> 4u64) & 1 == 1),
        (b & 0x20 != 0) == ((b >> 5u64) & 1 == 1),
        (b & 0x40 != 0) == ((b >> 6u64) & 1 == 1),
        (b & 0x80 != 0) == ((b >> 7u64) & 1 == 1),
{
}

proof fn lemma_pte_fields(b: u64)
    by (bit_vector)
    ensures
        ((b >> 10) & 0x1ff) == (b >> 10) % 512,
        ((b >> 19) & 0x1ff) == (b >> 19) % 512,
        ((b >> 28) & 0x03ff_ffff) == (b >> 28) % 0x400_0000,
        ((b >> 10) & 0xfff_ffff_ffff) == (b >> 10) % 0x1000_0000_0000,
        ((b >> 10) & 0x1ff) < 512,
        ((b >> 19) & 0x1ff) < 512,
        ((b >> 28) & 0x03ff_ffff) < 0x400_0000,
{
}

} // verus!
