use vstd::prelude::*;

verus! {

/// An Sv39 virtual address.
#[derive(Debug, Clone, Copy, PartialEq, Eq, Structural)]
pub struct VirtualAddress(pub u64);

impl VirtualAddress {
    pub fn new(addr: u64) -> (v: VirtualAddress)
        ensures
            v.0 == addr,
    {
        VirtualAddress(addr)
    }

    pub fn bits(self) -> (b: u64)
        ensures
            b == self.0,
    {
        self.0
    }

    /// Bits 11..0: the offset within the page.
    pub fn offset(self) -> (o: u16)
        ensures
            o == self.0 % 4096,
    {
        proof { lemma_address_fields(self.0); }
        (self.0 & 0xfff) as u16
    }

    /// Bits 20..12: the index into the level-0 table.
    pub fn vpn0(self) -> (v: u16)
        ensures
            v == (self.0 >> 12) % 512,
    {
        proof { lemma_address_fields(self.0); }
        ((self.0 >> 12) & 0x1ff) as u16
    }

    /// Bits 29..21: the index into the level-1 table.
    pub fn vpn1(self) -> (v: u16)
        ensures
            v == (self.0 >> 21) % 512,
    {
        proof { lemma_address_fields(self.0); }
        ((self.0 >> 21) & 0x1ff) as u16
    }

    /// Bits 38..30: the index into the root table.
    pub fn vpn2(self) -> (v: u16)
        ensures
            v == (self.0 >> 30) % 512,
    {
        proof { lemma_address_fields(self.0); }
        ((self.0 >> 30) & 0x1ff) as u16
    }

    /// The offset within the page (same as `offset`).
    pub fn page_offset(self) -> (o: u16)
        ensures
            o == self.0 % 4096,
    {
        self.offset()
    }

    /// Sv39 addresses are canonical when bits 63..39 all equal bit 38.
    pub open spec fn spec_is_canonical(self) -> bool {
        self.0 >> 38 == 0 || self.0 >> 38 == 0x3ff_ffff
    }

    pub fn is_canonical(self) -> (b: bool)
        ensures
            b == self.spec_is_canonical(),
    {
        let sign = (self.0 >> 38) & 1;
        let upper = self.0 >> 39;
        proof { lemma_canonical(self.0); }
        if sign == 0 {
            upper == 0
        } else {
            upper == 0x1ffffff
        }
    }
}

proof fn lemma_address_fields(a: u64)
    by (bit_vector)
    ensures
        (a & 0xfff) == a % 4096,
        ((a >> 12) & 0x1ff) == (a >> 12) % 512,
        ((a >> 21) & 0x1ff) == (a >> 21) % 512,
        ((a >> 30) & 0x1ff) == (a >> 30) % 512,
        (a & 0xfff) < 4096,
        ((a >> 12) & 0x1ff) < 512,
        ((a >> 21) & 0x1ff) < 512,
        ((a >> 30) & 0x1ff) < 512,
{
}

proof fn lemma_canonical(a: u64)
    by (bit_vector)
    ensures
        ((a >> 38) & 1 == 0 ==> ((a >> 39 == 0) == (a >> 38 == 0 || a >> 38 == 0x3ff_ffff))),
        ((a >> 38) & 1 != 0 ==> ((a >> 39 == 0x1ffffff) == (a >> 38 == 0 || a >> 38 == 0x3ff_ffff))),
{
}

} // verus!
