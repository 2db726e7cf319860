use vstd::prelude::*;

verus! {

/// The translation scheme selected by satp.MODE.
#[derive(Debug, Clone, Copy, PartialEq, Eq, Structural)]
pub enum SatpMode {
    Bare,
    Sv39,
    Reserved(u8),
}

/// The supervisor address translation and protection register.
#[derive(Debug, Clone, Copy, PartialEq, Eq, Structural)]
pub struct Satp {
    pub bits: u64,
}

impl Satp {
    pub fn new(bits: u64) -> (s: Satp)
        ensures
            s.bits == bits,
    {
        Satp { bits }
    }

    pub fn bits(self) -> (b: u64)
        ensures
            b == self.bits,
    {
        self.bits
    }

    /// MODE, bits 63..60: 0 is Bare, 8 is Sv39, anything else is reserved.
    pub open spec fn spec_mode(self) -> SatpMode {
        let m = self.bits >> 60;
        if m == 0 {
            SatpMode::Bare
        } else if m == 8 {
            SatpMode::Sv39
        } else {
            SatpMode::Reserved(m as u8)
        }
    }

    pub fn mode(self) -> (m: SatpMode)
        ensures
            m == self.spec_mode(),
    {
        let x = (self.bits >> 60) as u8;
        proof { lemma_satp_fields(self.bits); }
        if x == 0 {
            SatpMode::Bare
        } else if x == 8 {
            SatpMode::Sv39
        } else {
            SatpMode::Reserved(x)
        }
    }

    /// ASID, bits 59..44.
    pub fn asid(self) -> (a: u16)
        ensures
            a == (self.bits >> 44) % 0x10000,
    {
        proof { lemma_satp_fields(self.bits); }
        ((self.bits >> 44) & 0xffff) as u16
    }

    /// PPN of the root page table, bits 43..0.
    pub fn ppn(self) -> (p: u64)
        ensures
            p == self.bits % 0x1000_0000_0000,
    {
        proof { lemma_satp_fields(self.bits); }
        self.bits & 0xfff_ffff_ffff
    }
}

proof fn lemma_satp_fields(b: u64)
    by (bit_vector)
    ensures
        (b >> 60) < 16,
        ((b >> 60) as u8) as u64 == b >> 60,
        ((b >> 44) & 0xffff) == (b >> 44) % 0x10000,
        (b & 0xfff_ffff_ffff) == b % 0x1000_0000_0000,
{
}

} // verus!
