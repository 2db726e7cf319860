use vstd::prelude::*;

use crate::trap::Trap;

verus! {

pub const CLINT_BASE: u64 = 0x0200_0000;
pub const CLINT_SIZE: u64 = 0x0001_0000;

pub const MSIP_OFFSET: u64 = 0x0000;
pub const MTIMECMP_OFFSET: u64 = 0x4000;
pub const MTIME_OFFSET: u64 = 0xBFF8;

/// The core-local interruptor: software interrupt pending bit, timer
/// compare and timer registers, accessed byte by byte.
#[derive(Debug)]
pub struct Clint {
    pub msip: u32,
    pub mtimecmp: u64,
    pub mtime: u64,
    pub frequency: u64,
}

/// Byte `k` of `v`.
pub open spec fn byte_of(v: u64, k: u64) -> u8 {
    ((v >> (k * 8) as u64) & 0xff) as u8
}

/// `v` with byte `k` replaced by `b`.
pub open spec fn with_byte(v: u64, k: u64, b: u8) -> u64 {
    (v & !(0xffu64 << (k * 8) as u64)) | ((b as u64) << (k * 8) as u64)
}

/// `v` with byte `k` (below 4) replaced by `b`.
pub open spec fn with_byte32(v: u32, k: u64, b: u8) -> u32 {
    (v & !(0xffu32 << (k * 8) as u32)) | ((b as u32) << (k * 8) as u32)
}

/// Byte `k` (below 4) of `v`.
pub open spec fn byte_of32(v: u32, k: u64) -> u8 {
    byte_of(v as u64, k)
}

/// Which register a window offset selects: 0 msip, 1 the timer compare,
/// 2 mtime, 3 none.
pub open spec fn clint_field(off: u64) -> int {
    if off < MSIP_OFFSET + 4 {
        0
    } else if MTIMECMP_OFFSET <= off < MTIMECMP_OFFSET + 8 {
        1
    } else if MTIME_OFFSET <= off < MTIME_OFFSET + 8 {
        2
    } else {
        3
    }
}

/// The byte position within the selected register.
pub open spec fn clint_byte_index(off: u64) -> u64 {
    let f = clint_field(off);
    if f == 0 {
        (off - MSIP_OFFSET) as u64
    } else if f == 1 {
        (off - MTIMECMP_OFFSET) as u64
    } else if f == 2 {
        (off - MTIME_OFFSET) as u64
    } else {
        0
    }
}

/// The offset of `addr` inside the window.
pub open spec fn clint_off(addr: u64) -> u64 {
    (addr - CLINT_BASE) as u64
}

fn field_and_index(off: u64) -> (r: (u64, u64))
    ensures
        r.0 == clint_field(off),
        r.1 == clint_byte_index(off),
        r.0 <= 2 ==> r.1 < 8,
        r.0 == 0 ==> r.1 < 4,
{
    if off < MSIP_OFFSET + 4 {
        (0, off - MSIP_OFFSET)
    } else if MTIMECMP_OFFSET <= off && off < MTIMECMP_OFFSET + 8 {
        (1, off - MTIMECMP_OFFSET)
    } else if MTIME_OFFSET <= off && off < MTIME_OFFSET + 8 {
        (2, off - MTIME_OFFSET)
    } else {
        (3, 0)
    }
}

fn get_byte(v: u64, k: u64) -> (b: u8)
    requires
        k < 8,
    ensures
        b == byte_of(v, k),
{
    ((v >> (k * 8)) & 0xff) as u8
}

fn get_byte32(v: u32, k: u64) -> (b: u8)
    requires
        k < 4,
    ensures
        b == byte_of32(v, k),
{
    (((v as u64) >> (k * 8)) & 0xff) as u8
}

fn set_byte(v: u64, k: u64, b: u8) -> (r: u64)
    requires
        k < 8,
    ensures
        r == with_byte(v, k, b),
{
    (v & !(0xffu64 << (k * 8))) | ((b as u64) << (k * 8))
}

fn set_byte32(v: u32, k: u64, b: u8) -> (r: u32)
    requires
        k < 4,
    ensures
        r == with_byte32(v, k, b),
{
    let s = (k * 8) as u32;
    (v & !(0xffu32 << s)) | ((b as u32) << s)
}

impl Clint {
    /// Whether `addr` falls in the CLINT's window.
    pub open spec fn in_window(addr: u64) -> bool {
        CLINT_BASE <= addr < CLINT_BASE + CLINT_SIZE
    }

    /// What a byte read at `addr` gives.
    pub open spec fn spec_read8(&self, addr: u64) -> Result<u8, Trap> {
        if !Clint::in_window(addr) {
            Err(Trap::LoadAccessFault(addr))
        } else {
            let f = clint_field(clint_off(addr));
            let k = clint_byte_index(clint_off(addr));
            if f == 0 {
                Ok(byte_of32(self.msip, k))
            } else if f == 1 {
                Ok(byte_of(self.mtimecmp, k))
            } else if f == 2 {
                Ok(byte_of(self.mtime, k))
            } else {
                Err(Trap::LoadAccessFault(addr))
            }
        }
    }

    /// What `n` consecutive byte reads from `addr` give, little-endian; the
    /// first failing byte decides the error.
    pub open spec fn spec_read_le(&self, addr: u64, n: nat) -> Result<u64, Trap>
        decreases n,
    {
        if n == 0 {
            Ok(0)
        } else {
            match self.spec_read8(addr) {
                Err(e) => Err(e),
                Ok(b) => match self.spec_read_le((addr + 1) as u64, (n - 1) as nat) {
                    Err(e) => Err(e),
                    Ok(rest) => Ok((b as u64) | (rest << 8)),
                },
            }
        }
    }

    /// The CLINT after a byte write of `b` at `addr`, and the outcome.
    pub open spec fn spec_write8(self, addr: u64, b: u8) -> (Clint, Result<(), Trap>) {
        if !Clint::in_window(addr) {
            (self, Err(Trap::LoadAccessFault(addr)))
        } else {
            let f = clint_field(clint_off(addr));
            let k = clint_byte_index(clint_off(addr));
            if f == 0 {
                (Clint { msip: with_byte32(self.msip, k, b), ..self }, Ok(()))
            } else if f == 1 {
                (Clint { mtimecmp: with_byte(self.mtimecmp, k, b), ..self }, Ok(()))
            } else if f == 2 {
                (Clint { mtime: with_byte(self.mtime, k, b), ..self }, Ok(()))
            } else {
                (self, Err(Trap::StoreAccessFault(addr)))
            }
        }
    }

    /// The CLINT after `n` consecutive byte writes of the little-endian
    /// bytes of `v` from `addr`; a failing byte stops the sequence.
    pub open spec fn spec_write_le(self, addr: u64, v: u64, n: nat) -> (Clint, Result<(), Trap>)
        decreases n,
    {
        if n == 0 {
            (self, Ok(()))
        } else {
            let (c1, r) = self.spec_write8(addr, (v & 0xff) as u8);
            match r {
                Err(e) => (c1, Err(e)),
                Ok(_) => c1.spec_write_le((addr + 1) as u64, v >> 8, (n - 1) as nat),
            }
        }
    }

    /// A CLINT at reset: no software interrupt, no timer deadline, time 0,
    /// ticking at 10 MHz.
    pub open spec fn reset() -> Clint {
        Clint { msip: 0, mtimecmp: u64::MAX, mtime: 0, frequency: 10_000_000 }
    }

    /// A fresh CLINT (see `reset`).
    pub fn new() -> (c: Clint)
        ensures
            c == Clint::reset(),
    {
        Clint { msip: 0, mtimecmp: u64::MAX, mtime: 0, frequency: 10_000_000 }
    }

    fn offset(addr: u64) -> (r: Result<u64, Trap>)
        ensures
            r == if Clint::in_window(addr) {
                Ok::<u64, Trap>(clint_off(addr))
            } else {
                Err(Trap::LoadAccessFault(addr))
            },
    {
        if !(CLINT_BASE <= addr && addr < CLINT_BASE + CLINT_SIZE) {
            return Err(Trap::LoadAccessFault(addr));
        }
        Ok(addr - CLINT_BASE)
    }

    /// Advances mtime by one tick (wrapping).
    pub fn tick(&mut self)
        ensures
            final(self).mtime == old(self).mtime.wrapping_add(1),
            final(self).msip == old(self).msip,
            final(self).mtimecmp == old(self).mtimecmp,
            final(self).frequency == old(self).frequency,
    {
        self.mtime = self.mtime.wrapping_add(1);
    }

    pub fn read8(&self, addr: u64) -> (r: Result<u8, Trap>)
        ensures
            r == self.spec_read8(addr),
    {
        let offset = Self::offset(addr)?;
        let (f, k) = field_and_index(offset);
        if f == 0 {
            Ok(get_byte32(self.msip, k))
        } else if f == 1 {
            Ok(get_byte(self.mtimecmp, k))
        } else if f == 2 {
            Ok(get_byte(self.mtime, k))
        } else {
            Err(Trap::LoadAccessFault(addr))
        }
    }

    fn read_le(&self, addr: u64, n: u64) -> (r: Result<u64, Trap>)
        requires
            n <= 8,
            addr + n <= u64::MAX,
        ensures
            r == self.spec_read_le(addr, n as nat),
        decreases n,
    {
        if n == 0 {
            return Ok(0);
        }
        let b = self.read8(addr)?;
        let rest = self.read_le(addr + 1, n - 1)?;
        Ok((b as u64) | (rest << 8))
    }

    pub fn read16(&self, addr: u64) -> (r: Result<u16, Trap>)
        requires
            addr + 2 <= u64::MAX,
        ensures
            r == match self.spec_read_le(addr, 2) {
                Ok(v) => Ok(v as u16),
                Err(e) => Err(e),
            },
    {
        let v = self.read_le(addr, 2)?;
        Ok(v as u16)
    }

    pub fn read32(&self, addr: u64) -> (r: Result<u32, Trap>)
        requires
            addr + 4 <= u64::MAX,
        ensures
            r == match self.spec_read_le(addr, 4) {
                Ok(v) => Ok(v as u32),
                Err(e) => Err(e),
            },
    {
        let v = self.read_le(addr, 4)?;
        Ok(v as u32)
    }

    pub fn read64(&self, addr: u64) -> (r: Result<u64, Trap>)
        requires
            addr + 8 <= u64::MAX,
        ensures
            r == self.spec_read_le(addr, 8),
    {
        self.read_le(addr, 8)
    }

    pub fn write8(&mut self, addr: u64, value: u8) -> (r: Result<(), Trap>)
        ensures
            (*final(self), r) == old(self).spec_write8(addr, value),
    {
        let offset = Self::offset(addr)?;
        let (f, k) = field_and_index(offset);
        if f == 0 {
            self.msip = set_byte32(self.msip, k, value);
        } else if f == 1 {
            self.mtimecmp = set_byte(self.mtimecmp, k, value);
        } else if f == 2 {
            self.mtime = set_byte(self.mtime, k, value);
        } else {
            return Err(Trap::StoreAccessFault(addr));
        }
        Ok(())
    }

    fn write_le(&mut self, addr: u64, v: u64, n: u64) -> (r: Result<(), Trap>)
        requires
            n <= 8,
            addr + n <= u64::MAX,
        ensures
            (*final(self), r) == old(self).spec_write_le(addr, v, n as nat),
        decreases n,
    {
        if n == 0 {
            return Ok(());
        }
        self.write8(addr, (v & 0xff) as u8)?;
        self.write_le(addr + 1, v >> 8, n - 1)
    }

    pub fn write16(&mut self, addr: u64, value: u16) -> (r: Result<(), Trap>)
        requires
            addr + 2 <= u64::MAX,
        ensures
            (*final(self), r) == old(self).spec_write_le(addr, value as u64, 2),
    {
        self.write_le(addr, value as u64, 2)
    }

    pub fn write32(&mut self, addr: u64, value: u32) -> (r: Result<(), Trap>)
        requires
            addr + 4 <= u64::MAX,
        ensures
            (*final(self), r) == old(self).spec_write_le(addr, value as u64, 4),
    {
        self.write_le(addr, value as u64, 4)
    }

    pub fn write64(&mut self, addr: u64, value: u64) -> (r: Result<(), Trap>)
        requires
            addr + 8 <= u64::MAX,
        ensures
            (*final(self), r) == old(self).spec_write_le(addr, value, 8),
    {
        self.write_le(addr, value, 8)
    }
}

} // verus!
