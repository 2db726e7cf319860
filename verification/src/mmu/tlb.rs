use vstd::prelude::*;

verus! {

/// A cached translation.
#[derive(Clone, Copy, Debug, PartialEq, Eq, Structural)]
pub struct TlbEntry {
    pub vpn: u64,
    pub asid: u16,
    pub is_global: bool,
    pub valid: bool,
    pub pte_bits: u64,
    pub page_mask: u64,
    pub ppn: u64,
}

/// An invalid entry with every field zero.
pub open spec fn empty_entry() -> TlbEntry {
    TlbEntry { vpn: 0, asid: 0, is_global: false, valid: false, pte_bits: 0, page_mask: 0, ppn: 0 }
}

/// `e` with its valid bit cleared.
pub open spec fn invalidated(e: TlbEntry) -> TlbEntry {
    TlbEntry { valid: false, ..e }
}

/// Whether a flush of the page holding `vaddr` in address space `asid`
/// removes entry `e`.
pub open spec fn page_flush_hits(e: TlbEntry, vaddr: u64, asid: u16, ignore_asid: bool) -> bool {
    let vpn = vaddr >> 12;
    &&& e.valid
    &&& vpn & !(e.page_mask >> 12) == e.vpn & !(e.page_mask >> 12)
    &&& (ignore_asid || e.is_global || e.asid == asid)
}

/// A direct-mapped translation cache of 4096 entries, indexed by the low
/// bits of the virtual page number.
pub struct Tlb {
    pub entries: [TlbEntry; 4096],
}

impl Tlb {
    pub fn new() -> (t: Tlb)
        ensures
            forall|i: int| 0 <= i < 4096 ==> #[trigger] t.entries@[i] == empty_entry(),
    {
        let e = TlbEntry {
            vpn: 0,
            asid: 0,
            is_global: false,
            valid: false,
            pte_bits: 0,
            page_mask: 0,
            ppn: 0,
        };
        Tlb { entries: [e; 4096] }
    }

    /// The slot for a virtual page number: its low 12 bits.
    pub open spec fn spec_hash(vpn: u64) -> usize {
        (vpn % 4096) as usize
    }

    pub fn hash(vpn: u64) -> (i: usize)
        ensures
            i == Tlb::spec_hash(vpn),
            i < 4096,
    {
        (vpn % 4096) as usize
    }

    /// Invalidates every entry (SFENCE.VMA x0, x0).
    pub fn flush_all(&mut self)
        ensures
            forall|i: int|
                0 <= i < 4096 ==> #[trigger] final(self).entries@[i] == invalidated(
                    old(self).entries@[i],
                ),
    {
        let mut i: usize = 0;
        while i < 4096
            invariant
                0 <= i <= 4096,
                forall|j: int| 0 <= j < i ==> #[trigger] self.entries@[j] == invalidated(old(self).entries@[j]),
                forall|j: int| i <= j < 4096 ==> #[trigger] self.entries@[j] == old(self).entries@[j],
            decreases 4096 - i,
        {
            let mut e = self.entries[i];
            e.valid = false;
            self.entries[i] = e;
            i += 1;
        }
    }

    /// Invalidates the non-global entries of address space `asid`.
    pub fn flush_asid(&mut self, asid: u16)
        ensures
            forall|i: int|
                0 <= i < 4096 ==> #[trigger] final(self).entries@[i] == if !old(self).entries@[i].is_global
                    && old(self).entries@[i].asid == asid {
                    invalidated(old(self).entries@[i])
                } else {
                    old(self).entries@[i]
                },
    {
        let mut i: usize = 0;
        while i < 4096
            invariant
                0 <= i <= 4096,
                forall|j: int|
                    0 <= j < i ==> #[trigger] self.entries@[j] == if !old(self).entries@[j].is_global
                        && old(self).entries@[j].asid == asid {
                        invalidated(old(self).entries@[j])
                    } else {
                        old(self).entries@[j]
                    },
                forall|j: int| i <= j < 4096 ==> #[trigger] self.entries@[j] == old(self).entries@[j],
            decreases 4096 - i,
        {
            let mut e = self.entries[i];
            if !e.is_global && e.asid == asid {
                e.valid = false;
                self.entries[i] = e;
            }
            i += 1;
        }
    }

    /// Invalidates the entries that map the page of `vaddr` (in `asid`,
    /// global entries, or any address space when `ignore_asid`).
    pub fn flush_page(&mut self, vaddr: u64, asid: u16, ignore_asid: bool)
        ensures
            forall|i: int|
                0 <= i < 4096 ==> #[trigger] final(self).entries@[i] == if page_flush_hits(
                    old(self).entries@[i],
                    vaddr,
                    asid,
                    ignore_asid,
                ) {
                    invalidated(old(self).entries@[i])
                } else {
                    old(self).entries@[i]
                },
    {
        let vpn = vaddr >> 12;
        let mut i: usize = 0;
        while i < 4096
            invariant
                0 <= i <= 4096,
                vpn == vaddr >> 12,
                forall|j: int|
                    0 <= j < i ==> #[trigger] self.entries@[j] == if page_flush_hits(
                        old(self).entries@[j],
                        vaddr,
                        asid,
                        ignore_asid,
                    ) {
                        invalidated(old(self).entries@[j])
                    } else {
                        old(self).entries@[j]
                    },
                forall|j: int| i <= j < 4096 ==> #[trigger] self.entries@[j] == old(self).entries@[j],
            decreases 4096 - i,
        {
            let mut e = self.entries[i];
            if e.valid {
                let mask_vpn = vpn & !(e.page_mask >> 12);
                let entry_vpn = e.vpn & !(e.page_mask >> 12);
                if mask_vpn == entry_vpn {
                    if ignore_asid || e.is_global || e.asid == asid {
                        e.valid = false;
                        self.entries[i] = e;
                    }
                }
            }
            i += 1;
        }
    }
}

} // verus!
