use vstd::prelude::*;

use crate::trap::Trap;

verus! {

pub const PLIC_BASE: u64 = 0x0C00_0000;
pub const PLIC_SIZE: u64 = 0x0400_0000;

/// The platform-level interrupt controller with two contexts: 0 for
/// M-mode and 1 for S-mode. IRQ 0 is reserved; IRQs 1..255 are usable.
#[derive(Debug)]
pub struct Plic {
    pub priority: [u32; 256],
    pub pending: [u32; 8],
    pub enable_m: [u32; 8],
    pub enable_s: [u32; 8],
    pub threshold_m: u32,
    pub threshold_s: u32,
}

/// Bit `i` of a 256-bit set held as eight words.
pub open spec fn bit_set(words: Seq<u32>, i: int) -> bool {
    words[i / 32] & (1u32 << ((i % 32) as u32)) != 0
}

impl Plic {
    /// Whether `irq` is pending and enabled in `context` with a priority
    /// above that context's threshold.
    pub open spec fn candidate(&self, context: u32, irq: int) -> bool {
        let enable = if context == 0 { self.enable_m@ } else { self.enable_s@ };
        let threshold = if context == 0 { self.threshold_m } else { self.threshold_s };
        &&& 1 <= irq < 256
        &&& bit_set(self.pending@, irq)
        &&& bit_set(enable, irq)
        &&& self.priority@[irq] > threshold
    }

    /// Whether some IRQ would interrupt `context`.
    pub open spec fn spec_asserted(&self, context: u32) -> bool {
        exists|i: int| 1 <= i < 256 && #[trigger] self.candidate(context, i)
    }

    /// How a claim in `context` that answered `v` turned `old` into `new`:
    /// `v` is the highest-priority candidate (the lowest number among equal
    /// priorities) and its pending bit is cleared, or 0 when there is none.
    pub open spec fn claimed(old: &Plic, new: &Plic, context: u32, v: u32) -> bool {
        &&& new.priority == old.priority
        &&& new.enable_m == old.enable_m
        &&& new.enable_s == old.enable_s
        &&& new.threshold_m == old.threshold_m
        &&& new.threshold_s == old.threshold_s
        &&& if v == 0 {
            &&& !old.spec_asserted(context)
            &&& new.pending == old.pending
        } else {
            &&& old.candidate(context, v as int)
            &&& forall|j: int|
                1 <= j < 256 && #[trigger] old.candidate(context, j) ==> old.priority@[j]
                    < old.priority@[v as int] || (old.priority@[j] == old.priority@[v as int] && v <= j)
            &&& new.pending@ == old.pending@.update(
                (v / 32) as int,
                old.pending@[(v / 32) as int] & !(1u32 << ((v % 32) as u32)),
            )
        }
    }

    /// The value of a register read that has no side effect.
    pub open spec fn spec_plain_read(&self, off: u64) -> u32 {
        if off <= 0xFFF {
            if off / 4 < 256 { self.priority@[(off / 4) as int] } else { 0 }
        } else if 0x1000 <= off <= 0x107F {
            if (off - 0x1000) / 4 < 8 { self.pending@[((off - 0x1000) / 4) as int] } else { 0 }
        } else if 0x2000 <= off <= 0x207F {
            if (off - 0x2000) / 4 < 8 { self.enable_m@[((off - 0x2000) / 4) as int] } else { 0 }
        } else if 0x2080 <= off <= 0x20FF {
            if (off - 0x2080) / 4 < 8 { self.enable_s@[((off - 0x2080) / 4) as int] } else { 0 }
        } else if off == 0x200000 {
            self.threshold_m
        } else if off == 0x201000 {
            self.threshold_s
        } else {
            0
        }
    }

    /// The effect of a 32-bit register write at window offset `off`.
    pub open spec fn spec_written32(old: &Plic, new: &Plic, off: u64, value: u32) -> bool {
        &&& new.priority@ == if off <= 0xFFF && off / 4 < 256 {
            old.priority@.update((off / 4) as int, value)
        } else {
            old.priority@
        }
        &&& new.pending@ == if 0x1000 <= off <= 0x107F && (off - 0x1000) / 4 < 8 {
            old.pending@.update(((off - 0x1000) / 4) as int, value)
        } else {
            old.pending@
        }
        &&& new.enable_m@ == if 0x2000 <= off <= 0x207F && (off - 0x2000) / 4 < 8 {
            old.enable_m@.update(((off - 0x2000) / 4) as int, value)
        } else {
            old.enable_m@
        }
        &&& new.enable_s@ == if 0x2080 <= off <= 0x20FF && (off - 0x2080) / 4 < 8 {
            old.enable_s@.update(((off - 0x2080) / 4) as int, value)
        } else {
            old.enable_s@
        }
        &&& new.threshold_m == if off == 0x200000 { value } else { old.threshold_m }
        &&& new.threshold_s == if off == 0x201000 { value } else { old.threshold_s }
    }

    /// A PLIC at reset: no priorities, nothing pending or enabled,
    /// thresholds 0.
    pub open spec fn is_reset(&self) -> bool {
        &&& self.priority@ == Seq::new(256, |i: int| 0u32)
        &&& self.pending@ == Seq::new(8, |i: int| 0u32)
        &&& self.enable_m@ == Seq::new(8, |i: int| 0u32)
        &&& self.enable_s@ == Seq::new(8, |i: int| 0u32)
        &&& self.threshold_m == 0
        &&& self.threshold_s == 0
    }

    /// A fresh PLIC (see `is_reset`).
    pub fn new() -> (p: Plic)
        ensures
            p.is_reset(),
    {
        let p = Plic {
            priority: [0u32; 256],
            pending: [0u32; 8],
            enable_m: [0u32; 8],
            enable_s: [0u32; 8],
            threshold_m: 0,
            threshold_s: 0,
        };
        assert(p.priority@ =~= Seq::new(256, |i: int| 0u32));
        assert(p.pending@ =~= Seq::new(8, |i: int| 0u32));
        assert(p.enable_m@ =~= Seq::new(8, |i: int| 0u32));
        assert(p.enable_s@ =~= Seq::new(8, |i: int| 0u32));
        p
    }

    /// `new` is `old` with `irq` raised: its pending bit set when it is
    /// one of 1..255, nothing changed otherwise.
    pub open spec fn triggered(old: &Plic, new: &Plic, irq: u32) -> bool {
        &&& new.priority == old.priority
        &&& new.enable_m == old.enable_m
        &&& new.enable_s == old.enable_s
        &&& new.threshold_m == old.threshold_m
        &&& new.threshold_s == old.threshold_s
        &&& new.pending@ == if 0 < irq < 256 {
            old.pending@.update(
                (irq / 32) as int,
                old.pending@[(irq / 32) as int] | (1u32 << ((irq % 32) as u32)),
            )
        } else {
            old.pending@
        }
    }

    /// Raises `irq` (ignored unless 1..255): sets its pending bit.
    pub fn trigger_interrupt(&mut self, irq: u32)
        ensures
            Plic::triggered(old(self), final(self), irq),
    {
        if irq > 0 && irq < 256 {
            let index = (irq / 32) as usize;
            let bit = irq % 32;
            self.pending[index] = self.pending[index] | (1u32 << bit);
        }
    }

    /// Whether MEIP and SEIP should be asserted: some IRQ is pending,
    /// enabled and above the threshold of context 0, respectively 1.
    pub fn evaluate_interrupt(&self) -> (r: (bool, bool))
        ensures
            r.0 == self.spec_asserted(0),
            r.1 == self.spec_asserted(1),
    {
        let mut meip = false;
        let mut seip = false;
        let mut i: u32 = 1;
        while i < 256
            invariant
                1 <= i <= 256,
                meip == exists|j: int| 1 <= j < i && #[trigger] self.candidate(0, j),
                seip == exists|j: int| 1 <= j < i && #[trigger] self.candidate(1, j),
            decreases 256 - i,
        {
            let index = (i / 32) as usize;
            let bit = i % 32;
            if (self.pending[index] & (1u32 << bit)) != 0 {
                let prio = self.priority[i as usize];
                if (self.enable_m[index] & (1u32 << bit)) != 0 && prio > self.threshold_m {
                    meip = true;
                }
                if (self.enable_s[index] & (1u32 << bit)) != 0 && prio > self.threshold_s {
                    seip = true;
                }
            }
            assert(self.candidate(0, i as int) == ((self.pending@[index as int] & (1u32 << bit)) != 0
                && (self.enable_m@[index as int] & (1u32 << bit)) != 0 && self.priority@[i as int]
                > self.threshold_m));
            assert(self.candidate(1, i as int) == ((self.pending@[index as int] & (1u32 << bit)) != 0
                && (self.enable_s@[index as int] & (1u32 << bit)) != 0 && self.priority@[i as int]
                > self.threshold_s));
            i += 1;
        }
        (meip, seip)
    }

    /// Answers a claim in `context`: the highest-priority pending IRQ,
    /// whose pending bit is cleared, or 0 when none qualifies.
    fn claim(&mut self, context: u32) -> (v: u32)
        ensures
            Plic::claimed(old(self), final(self), context, v),
    {
        let threshold = if context == 0 { self.threshold_m } else { self.threshold_s };
        let mut max_irq: u32 = 0;
        let mut max_prio: u32 = 0;
        let mut i: u32 = 1;
        while i < 256
            invariant
                1 <= i <= 256,
                threshold == if context == 0 { self.threshold_m } else { self.threshold_s },
                max_irq == 0 ==> max_prio == 0 && forall|j: int|
                    1 <= j < i ==> !#[trigger] self.candidate(context, j),
                max_irq != 0 ==> {
                    &&& 1 <= max_irq < i
                    &&& self.candidate(context, max_irq as int)
                    &&& max_prio == self.priority@[max_irq as int]
                    &&& forall|j: int|
                        1 <= j < i && #[trigger] self.candidate(context, j) ==> self.priority@[j]
                            < max_prio || (self.priority@[j] == max_prio && max_irq <= j)
                },
            decreases 256 - i,
        {
            let index = (i / 32) as usize;
            let bit = i % 32;
            let en = if context == 0 { self.enable_m[index] } else { self.enable_s[index] };
            assert(self.candidate(context, i as int) == ((self.pending@[index as int] & (1u32 << bit))
                != 0 && (en & (1u32 << bit)) != 0 && self.priority@[i as int] > threshold));
            if (self.pending[index] & (1u32 << bit)) != 0 && (en & (1u32 << bit)) != 0 {
                let prio = self.priority[i as usize];
                if prio > threshold && prio > max_prio {
                    max_prio = prio;
                    max_irq = i;
                }
            }
            i += 1;
        }
        if max_irq != 0 {
            let index = (max_irq / 32) as usize;
            let bit = max_irq % 32;
            self.pending[index] = self.pending[index] & !(1u32 << bit);
        }
        max_irq
    }

    fn offset(addr: u64) -> (r: Result<u64, Trap>)
        ensures
            r == if PLIC_BASE <= addr < PLIC_BASE + PLIC_SIZE {
                Ok::<u64, Trap>((addr - PLIC_BASE) as u64)
            } else {
                Err(Trap::LoadAccessFault(addr))
            },
    {
        if !(PLIC_BASE <= addr && addr < PLIC_BASE + PLIC_SIZE) {
            return Err(Trap::LoadAccessFault(addr));
        }
        Ok(addr - PLIC_BASE)
    }

    /// A 32-bit register read. Reading a claim register (0x200004 for
    /// context 0, 0x201004 for context 1) claims an IRQ; every other
    /// register reads without side effect, unmapped ones as 0.
    /// What a 32-bit register read of `addr` answers and does: outside
    /// the window a load fault; reading a claim register claims an IRQ;
    /// every other register reads without side effect.
    pub open spec fn read32_post(old: &Plic, new: &Plic, addr: u64, r: Result<u32, Trap>) -> bool {
        &&& !(PLIC_BASE <= addr < PLIC_BASE + PLIC_SIZE) ==> r == Err::<u32, Trap>(
            Trap::LoadAccessFault(addr),
        ) && *new == *old
        &&& PLIC_BASE <= addr < PLIC_BASE + PLIC_SIZE ==> {
            let off = (addr - PLIC_BASE) as u64;
            &&& r is Ok
            &&& if off == 0x200004 {
                Plic::claimed(old, new, 0, r->Ok_0)
            } else if off == 0x201004 {
                Plic::claimed(old, new, 1, r->Ok_0)
            } else {
                *new == *old && r->Ok_0 == old.spec_plain_read(off)
            }
        }
    }

    /// A 32-bit register read (see `read32_post`).
    pub fn read32(&mut self, addr: u64) -> (r: Result<u32, Trap>)
        ensures
            Plic::read32_post(old(self), final(self), addr, r),
    {
        let offset = Self::offset(addr)?;
        if offset <= 0xFFF {
            let irq = (offset / 4) as usize;
            if irq < 256 { Ok(self.priority[irq]) } else { Ok(0) }
        } else if 0x1000 <= offset && offset <= 0x107F {
            let index = ((offset - 0x1000) / 4) as usize;
            if index < 8 { Ok(self.pending[index]) } else { Ok(0) }
        } else if 0x2000 <= offset && offset <= 0x207F {
            let index = ((offset - 0x2000) / 4) as usize;
            if index < 8 { Ok(self.enable_m[index]) } else { Ok(0) }
        } else if 0x2080 <= offset && offset <= 0x20FF {
            let index = ((offset - 0x2080) / 4) as usize;
            if index < 8 { Ok(self.enable_s[index]) } else { Ok(0) }
        } else if offset == 0x200000 {
            Ok(self.threshold_m)
        } else if offset == 0x200004 {
            Ok(self.claim(0))
        } else if offset == 0x201000 {
            Ok(self.threshold_s)
        } else if offset == 0x201004 {
            Ok(self.claim(1))
        } else {
            Ok(0)
        }
    }

    /// A 32-bit register write; writes to the claim/complete registers
    /// and to unmapped offsets change nothing.
    pub fn write32(&mut self, addr: u64, value: u32) -> (r: Result<(), Trap>)
        ensures
            !(PLIC_BASE <= addr < PLIC_BASE + PLIC_SIZE) ==> r == Err::<(), Trap>(
                Trap::LoadAccessFault(addr),
            ) && *final(self) == *old(self),
            PLIC_BASE <= addr < PLIC_BASE + PLIC_SIZE ==> r is Ok && Plic::spec_written32(
                old(self),
                final(self),
                (addr - PLIC_BASE) as u64,
                value,
            ),
    {
        let offset = Self::offset(addr)?;
        if offset <= 0xFFF {
            let irq = (offset / 4) as usize;
            if irq < 256 {
                self.priority[irq] = value;
            }
        } else if 0x1000 <= offset && offset <= 0x107F {
            let index = ((offset - 0x1000) / 4) as usize;
            if index < 8 {
                self.pending[index] = value;
            }
        } else if 0x2000 <= offset && offset <= 0x207F {
            let index = ((offset - 0x2000) / 4) as usize;
            if index < 8 {
                self.enable_m[index] = value;
            }
        } else if 0x2080 <= offset && offset <= 0x20FF {
            let index = ((offset - 0x2080) / 4) as usize;
            if index < 8 {
                self.enable_s[index] = value;
            }
        } else if offset == 0x200000 {
            self.threshold_m = value;
        } else if offset == 0x201000 {
            self.threshold_s = value;
        }
        Ok(())
    }

    /// How a narrow read of `addr` (returning `sel(w)` for the aligned
    /// word `w`) turned `old` into `new`.
    pub open spec fn narrow_read(old: &Plic, new: &Plic, addr: u64, ok: bool, is_val: spec_fn(u32) -> bool) -> bool {
        let a = addr & !0b11u64;
        if !(PLIC_BASE <= a < PLIC_BASE + PLIC_SIZE) {
            !ok && *new == *old
        } else {
            let off = (a - PLIC_BASE) as u64;
            &&& ok
            &&& if off == 0x200004 {
                exists|v: u32| #[trigger] Plic::claimed(old, new, 0, v) && is_val(v)
            } else if off == 0x201004 {
                exists|v: u32| #[trigger] Plic::claimed(old, new, 1, v) && is_val(v)
            } else {
                *new == *old && is_val(old.spec_plain_read(off))
            }
        }
    }

    /// A byte read: the selected byte of the aligned 32-bit register.
    pub fn read8(&mut self, addr: u64) -> (r: Result<u8, Trap>)
        ensures
            Plic::narrow_read(
                old(self),
                final(self),
                addr,
                r is Ok,
                |w: u32| r == Ok::<u8, Trap>(((w >> (((addr % 4) * 8) as u32)) & 0xFF) as u8),
            ),
            r is Err ==> r == Err::<u8, Trap>(Trap::LoadAccessFault(addr & !0b11u64)),
    {
        let val32 = self.read32(addr & !0b11u64)?;
        let shift = ((addr % 4) * 8) as u32;
        Ok(((val32 >> shift) & 0xFF) as u8)
    }

    /// A halfword read: the selected half of the aligned 32-bit register.
    pub fn read16(&mut self, addr: u64) -> (r: Result<u16, Trap>)
        ensures
            Plic::narrow_read(
                old(self),
                final(self),
                addr,
                r is Ok,
                |w: u32| r == Ok::<u16, Trap>(((w >> (((addr % 4) * 8) as u32)) & 0xFFFF) as u16),
            ),
            r is Err ==> r == Err::<u16, Trap>(Trap::LoadAccessFault(addr & !0b11u64)),
    {
        let val32 = self.read32(addr & !0b11u64)?;
        let shift = ((addr % 4) * 8) as u32;
        Ok(((val32 >> shift) & 0xFFFF) as u16)
    }

    /// A doubleword read of the PLIC: two 32-bit reads (see `read32_post`),
    /// low word first; the first fault ends it.
    pub open spec fn read64_post(old: &Plic, new: &Plic, addr: u64, r: Result<u64, Trap>) -> bool {
        exists|mid: Plic, lo: Result<u32, Trap>|
            #![trigger Plic::read32_post(old, &mid, addr, lo)]
            Plic::read32_post(old, &mid, addr, lo) && match lo {
                Err(e) => r == Err::<u64, Trap>(e) && *new == mid,
                Ok(l) => exists|hi: Result<u32, Trap>|
                    #![trigger Plic::read32_post(&mid, new, (addr + 4) as u64, hi)]
                    Plic::read32_post(&mid, new, (addr + 4) as u64, hi) && r == match hi {
                        Err(e) => Err(e),
                        Ok(h) => Ok::<u64, Trap>(((h as u64) << 32u64) | (l as u64)),
                    },
            }
    }

    /// A doubleword write of the PLIC: two 32-bit writes (see `write32`),
    /// low word first; the first fault ends it.
    pub open spec fn write64_post(old: &Plic, new: &Plic, addr: u64, value: u64, r: Result<(), Trap>) -> bool {
        &&& !(PLIC_BASE <= addr < PLIC_BASE + PLIC_SIZE) ==> r == Err::<(), Trap>(Trap::LoadAccessFault(addr))
            && *new == *old
        &&& PLIC_BASE <= addr < PLIC_BASE + PLIC_SIZE ==> exists|mid: Plic|
            #![trigger Plic::spec_written32(old, &mid, (addr - PLIC_BASE) as u64, value as u32)]
            Plic::spec_written32(old, &mid, (addr - PLIC_BASE) as u64, value as u32) && if PLIC_BASE <= addr + 4
                < PLIC_BASE + PLIC_SIZE {
                r is Ok && Plic::spec_written32(&mid, new, (addr + 4 - PLIC_BASE) as u64, (value >> 32u64) as u32)
            } else {
                r == Err::<(), Trap>(Trap::LoadAccessFault((addr + 4) as u64)) && *new == mid
            }
    }

    /// A doubleword read: two 32-bit reads (see `read32_post`), low word
    /// first; the first fault ends it.
    pub fn read64(&mut self, addr: u64) -> (r: Result<u64, Trap>)
        requires
            addr + 4 <= u64::MAX,
        ensures
            Plic::read64_post(old(self), final(self), addr, r),
    {
        let lo = self.read32(addr);
        let ghost mid = *self;
        let lo = match lo {
            Ok(v) => v as u64,
            Err(e) => {
                return Err(e);
            },
        };
        let hi = self.read32(addr + 4);
        let hi = match hi {
            Ok(v) => v as u64,
            Err(e) => {
                assert(Plic::read32_post(&mid, self, (addr + 4) as u64, Err::<u32, Trap>(e)));
                return Err(e);
            },
        };
        assert(Plic::read32_post(&mid, self, (addr + 4) as u64, Ok::<u32, Trap>(hi as u32)));
        Ok((hi << 32) | lo)
    }

    /// Byte writes are ignored.
    pub fn write8(&mut self, _addr: u64, _value: u8) -> (r: Result<(), Trap>)
        ensures
            r is Ok,
            *final(self) == *old(self),
    {
        Ok(())
    }

    /// Halfword writes are ignored.
    pub fn write16(&mut self, _addr: u64, _value: u16) -> (r: Result<(), Trap>)
        ensures
            r is Ok,
            *final(self) == *old(self),
    {
        Ok(())
    }

    /// A doubleword write: two 32-bit writes (see `write32`), low word
    /// first; the first fault ends it.
    pub fn write64(&mut self, addr: u64, value: u64) -> (r: Result<(), Trap>)
        requires
            addr + 4 <= u64::MAX,
        ensures
            Plic::write64_post(old(self), final(self), addr, value, r),
    {
        assert((value & 0xFFFFFFFF) as u32 == value as u32) by (bit_vector);
        self.write32(addr, (value & 0xFFFFFFFF) as u32)?;
        let ghost mid = *self;
        let r = self.write32(addr + 4, (value >> 32) as u32);
        assert(Plic::spec_written32(old(self), &mid, (addr - PLIC_BASE) as u64, value as u32) || !(PLIC_BASE <= addr < PLIC_BASE + PLIC_SIZE));
        r
    }
}

/// Raising an IRQ that is enabled for a context with a priority above that
/// context's threshold makes the context's interrupt line asserted.
pub proof fn law_trigger_asserts(old: Plic, new: Plic, irq: u32, context: u32)
    requires
        0 < irq < 256,
        Plic::triggered(&old, &new, irq),
        bit_set(if context == 0 { old.enable_m@ } else { old.enable_s@ }, irq as int),
        old.priority@[irq as int] > if context == 0 { old.threshold_m } else { old.threshold_s },
    ensures
        new.spec_asserted(context),
{
    let w = old.pending@[(irq / 32) as int];
    let b = (irq % 32) as u32;
    assert(b < 32 ==> (w | (1u32 << b)) & (1u32 << b) != 0) by (bit_vector);
    assert(new.candidate(context, irq as int));
}

} // verus!
