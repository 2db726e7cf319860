use vstd::prelude::*;

use crate::cpu::memory::{in_bounds, spec_le16, Memory};
use crate::devices::virtio::descriptor::{guest_off, guest_offset, VirtqDesc};
use crate::trap::Trap;

verus! {

/// One split virtqueue as the driver configured it.
#[derive(Clone, Copy, Debug, PartialEq, Eq, Structural)]
pub struct VirtQueue {
    pub size: u16,
    pub ready: bool,
    pub desc_table: u64,
    pub avail_ring: u64,
    pub used_ring: u64,
    pub last_avail_idx: u16,
    /// Whether `VIRTIO_RING_F_EVENT_IDX` was negotiated.
    pub event_idx_enabled: bool,
}

impl Default for VirtQueue {
    fn default() -> (q: Self)
        ensures
            q == (VirtQueue {
                size: 128,
                ready: false,
                desc_table: 0,
                avail_ring: 0,
                used_ring: 0,
                last_avail_idx: 0,
                event_idx_enabled: false,
            }),
    {
        VirtQueue {
            size: 128,
            ready: false,
            desc_table: 0,
            avail_ring: 0,
            used_ring: 0,
            last_avail_idx: 0,
            event_idx_enabled: false,
        }
    }
}

/// The 16-bit value at guest address `addr`, when it is in RAM.
pub open spec fn spec_guest16(mem: Seq<u8>, addr: u64) -> Result<u16, Trap> {
    let off = guest_off(addr);
    if in_bounds(off, 2, mem.len()) {
        Ok(spec_le16(mem, off as int))
    } else {
        Err(Trap::LoadAccessFault(off))
    }
}

/// Reads the 16-bit value at guest address `addr`.
pub fn read_guest16(mem: &Memory, addr: u64) -> (r: Result<u16, Trap>)
    ensures
        r == spec_guest16(mem.view(), addr),
{
    mem.read16(guest_offset(addr))
}

impl VirtQueue {
    /// The avail-ring index the driver has published.
    pub open spec fn avail_idx(&self, mem: Seq<u8>) -> Result<u16, Trap> {
        spec_guest16(mem, self.avail_ring.wrapping_add(2))
    }

    /// The guest address of avail-ring slot `i`.
    pub open spec fn avail_slot(&self, i: u16) -> u64 {
        self.avail_ring.wrapping_add(4).wrapping_add((((i as u64) % (self.size as u64)) * 2) as u64)
    }

    /// The queue after taking one chain: the avail index steps forward.
    pub open spec fn advanced(self) -> VirtQueue {
        VirtQueue { last_avail_idx: self.last_avail_idx.wrapping_add(1), ..self }
    }

    /// The queue after giving one chain back: the avail index steps back.
    pub open spec fn rewound(self) -> VirtQueue {
        VirtQueue { last_avail_idx: self.last_avail_idx.wrapping_sub(1), ..self }
    }

    /// Takes the next descriptor chain head the driver made available,
    /// with the descriptor it names; `None` when the queue is not ready or
    /// nothing new is available.
    pub fn pop_descriptor(&mut self, mem: &Memory) -> (r: Result<Option<(u16, VirtqDesc)>, Trap>)
        requires
            old(self).size > 0,
        ensures
            final(self).size == old(self).size,
            final(self).ready == old(self).ready,
            final(self).desc_table == old(self).desc_table,
            final(self).avail_ring == old(self).avail_ring,
            final(self).used_ring == old(self).used_ring,
            final(self).event_idx_enabled == old(self).event_idx_enabled,
            popped(*old(self), mem.view(), *final(self), r),
    {
        if !self.ready {
            return Ok(None);
        }
        let avail_idx = read_guest16(mem, self.avail_ring.wrapping_add(2))?;
        if avail_idx == self.last_avail_idx {
            return Ok(None);
        }
        let slot = ((self.last_avail_idx as u64) % (self.size as u64)) * 2;
        let ring_addr = self.avail_ring.wrapping_add(4).wrapping_add(slot);
        let desc_head = read_guest16(mem, ring_addr)?;
        self.last_avail_idx = self.last_avail_idx.wrapping_add(1);
        let desc_addr = self.desc_table.wrapping_add(desc_head as u64 * 16);
        let desc = VirtqDesc::read(mem, desc_addr)?;
        Ok(Some((desc_head, desc)))
    }

    /// Whether the driver has made buffers available that were not taken
    /// yet (without taking any).
    pub fn has_available(&self, mem: &Memory) -> (r: Result<bool, Trap>)
        ensures
            !self.ready ==> r == Ok::<bool, Trap>(false),
            self.ready ==> r == match self.avail_idx(mem.view()) {
                Ok(idx) => Ok::<bool, Trap>(idx != self.last_avail_idx),
                Err(e) => Err(e),
            },
    {
        if !self.ready {
            return Ok(false);
        }
        let avail_idx = read_guest16(mem, self.avail_ring.wrapping_add(2))?;
        Ok(avail_idx != self.last_avail_idx)
    }

    /// Gives back the chain taken by the last `pop_descriptor`.
    pub fn unpop(&mut self)
        ensures
            *final(self) == old(self).rewound(),
    {
        self.last_avail_idx = self.last_avail_idx.wrapping_sub(1);
    }
}

/// Taking the next available chain from `q0` (see `pop_descriptor`)
/// over guest RAM `mem`: the queue becomes `q1` and the outcome is `r`.
/// Nothing is taken when the queue is not ready or the driver made
/// nothing new available; a taken chain advances the avail index.
pub open spec fn popped(q0: VirtQueue, mem: Seq<u8>, q1: VirtQueue, r: Result<Option<(u16, VirtqDesc)>, Trap>) -> bool {
    &&& (!q0.ready ==> r == Ok::<Option<(u16, VirtqDesc)>, Trap>(None) && q1 == q0)
    &&& (q0.ready ==> match q0.avail_idx(mem) {
        Err(e) => r == Err::<Option<(u16, VirtqDesc)>, Trap>(e) && q1 == q0,
        Ok(idx) => if idx == q0.last_avail_idx {
            r == Ok::<Option<(u16, VirtqDesc)>, Trap>(None) && q1 == q0
        } else {
            match spec_guest16(mem, q0.avail_slot(q0.last_avail_idx)) {
                Err(e) => r == Err::<Option<(u16, VirtqDesc)>, Trap>(e) && q1 == q0,
                Ok(head) => {
                    &&& q1 == q0.advanced()
                    &&& match VirtqDesc::spec_read(
                        mem,
                        q0.desc_table.wrapping_add(((head as u64) * 16) as u64),
                    ) {
                        Err(e) => r == Err::<Option<(u16, VirtqDesc)>, Trap>(e),
                        Ok(d) => r == Ok::<Option<(u16, VirtqDesc)>, Trap>(Some((head, d))),
                    }
                },
            }
        },
    })
}

/// Putting back a taken chain makes it available again: `unpop` undoes
/// the step of a successful `pop_descriptor`, whatever the queue.
pub proof fn law_unpop_undoes_pop(q: VirtQueue)
    ensures
        q.advanced().rewound() == q,
{
    assert(q.last_avail_idx.wrapping_add(1).wrapping_sub(1) == q.last_avail_idx);
}

} // verus!
