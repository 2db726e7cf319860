use vstd::prelude::*;

use crate::cpu::bus::RAM_BASE;
use crate::cpu::memory::{in_bounds, spec_le16, spec_le32, spec_le64, Memory};
use crate::trap::Trap;

verus! {

/// A split-virtqueue descriptor: a guest buffer and its chaining.
#[derive(Debug, Clone, Copy, PartialEq, Eq, Structural)]
pub struct VirtqDesc {
    pub addr: u64,
    pub len: u32,
    pub flags: u16,
    pub next: u16,
}

/// The RAM offset of guest physical address `addr` (wrapping below RAM,
/// where every access then fails its bounds check).
pub open spec fn guest_off(addr: u64) -> u64 {
    addr.wrapping_sub(RAM_BASE)
}

/// The RAM offset of guest physical address `addr` (wrapping below RAM).
#[verifier::when_used_as_spec(guest_off)]
pub fn guest_offset(addr: u64) -> (o: u64)
    ensures
        o == guest_off(addr),
{
    addr.wrapping_sub(RAM_BASE)
}

impl VirtqDesc {
    /// The descriptor stored in guest memory at `addr`, when all 16 bytes
    /// are in RAM.
    pub open spec fn spec_read(mem: Seq<u8>, addr: u64) -> Result<VirtqDesc, Trap> {
        let off = guest_off(addr);
        if off > u64::MAX - 16 || !in_bounds(off, 8, mem.len()) {
            Err(Trap::LoadAccessFault(off))
        } else if !in_bounds((off + 8) as u64, 4, mem.len()) {
            Err(Trap::LoadAccessFault((off + 8) as u64))
        } else if !in_bounds((off + 12) as u64, 2, mem.len()) {
            Err(Trap::LoadAccessFault((off + 12) as u64))
        } else if !in_bounds((off + 14) as u64, 2, mem.len()) {
            Err(Trap::LoadAccessFault((off + 14) as u64))
        } else {
            Ok(VirtqDesc {
                addr: spec_le64(mem, off as int),
                len: spec_le32(mem, off + 8),
                flags: spec_le16(mem, off + 12),
                next: spec_le16(mem, off + 14),
            })
        }
    }

    pub fn read(mem: &Memory, addr: u64) -> (r: Result<VirtqDesc, Trap>)
        ensures
            r == VirtqDesc::spec_read(mem.view(), addr),
    {
        let off = guest_offset(addr);
        if off > u64::MAX - 16 {
            return Err(Trap::LoadAccessFault(off));
        }
        Ok(VirtqDesc {
            addr: mem.read64(off)?,
            len: mem.read32(off + 8)?,
            flags: mem.read16(off + 12)?,
            next: mem.read16(off + 14)?,
        })
    }
}

} // verus!
