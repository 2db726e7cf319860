use vstd::prelude::*;

use crate::cpu::memory::{in_bounds, spec_store_le, Memory};
use crate::devices::plic::Plic;
use crate::devices::virtio::descriptor::{guest_off, guest_offset, VirtqDesc};
use crate::devices::virtio::device::VirtIODevice;
use crate::devices::virtio::queue::{popped, read_guest16, spec_guest16, VirtQueue};
use crate::trap::Trap;

verus! {

/// Bit 0 of the avail-ring flags: the driver asks not to be interrupted.
pub const VRING_AVAIL_F_NO_INTERRUPT: u16 = 0x0001;

/// The used-ring index the device published last.
pub open spec fn used_idx(q: VirtQueue, mem: Seq<u8>) -> Result<u16, Trap> {
    spec_guest16(mem, q.used_ring.wrapping_add(2))
}

/// The guest address of the used-ring element for index `idx`.
pub open spec fn used_elem(q: VirtQueue, idx: u16) -> u64 {
    q.used_ring.wrapping_add(4).wrapping_add((((idx as u64) % (q.size as u64)) * 8) as u64)
}

/// Guest memory after publishing `(head, len)` as used-ring element `idx`
/// and advancing the used index.
pub open spec fn used_published(mem: Seq<u8>, q: VirtQueue, idx: u16, head: u16, len: u32) -> Seq<u8> {
    let e = guest_off(used_elem(q, idx));
    let e4 = guest_off(used_elem(q, idx).wrapping_add(4));
    let u = guest_off(q.used_ring.wrapping_add(2));
    spec_store_le(
        spec_store_le(spec_store_le(mem, e as int, head as u64, 4), e4 as int, len as u64, 4),
        u as int,
        idx.wrapping_add(1) as u64,
        2,
    )
}

/// Whether the three stores of `used_published` all fall in guest RAM.
pub open spec fn used_publishable(mem: Seq<u8>, q: VirtQueue, idx: u16) -> bool {
    &&& in_bounds(guest_off(used_elem(q, idx)), 4, mem.len())
    &&& in_bounds(guest_off(used_elem(q, idx).wrapping_add(4)), 4, mem.len())
    &&& in_bounds(guest_off(q.used_ring.wrapping_add(2)), 2, mem.len())
}

/// Publishing `(head, len)` in the used ring of `q` (see
/// `write_used_ring`), from guest RAM `m0` to `m1` with outcome `r`: RAM
/// keeps its size; an unreadable used index is the fault; otherwise the
/// store succeeds exactly when it falls in RAM (see `used_publishable`),
/// and then gives `used_published`.
pub open spec fn used_written(m0: Seq<u8>, q: VirtQueue, head: u16, len: u32, m1: Seq<u8>, r: Result<(), Trap>) -> bool {
    &&& m1.len() == m0.len()
    &&& match used_idx(q, m0) {
        Err(e) => r == Err::<(), Trap>(e) && m1 == m0,
        Ok(idx) => {
            &&& r is Ok <==> used_publishable(m0, q, idx)
            &&& r is Ok ==> m1 == used_published(m0, q, idx, head, len)
        },
    }
}

/// Records the chain headed by `desc_head` as used, with `len` bytes
/// written into it, and advances the used index.
pub fn write_used_ring(mem: &mut Memory, queue: &VirtQueue, desc_head: u16, len: u32) -> (r: Result<(), Trap>)
    requires
        queue.size > 0,
    ensures
        used_written(old(mem).view(), *queue, desc_head, len, final(mem).view(), r),
{
    let used_ring = queue.used_ring;
    let idx = read_guest16(mem, used_ring.wrapping_add(2))?;
    let elem_addr = used_ring.wrapping_add(4).wrapping_add((idx as u64 % queue.size as u64) * 8);
    mem.write32(guest_offset(elem_addr), desc_head as u32)?;
    mem.write32(guest_offset(elem_addr.wrapping_add(4)), len)?;
    mem.write16(guest_offset(used_ring.wrapping_add(2)), idx.wrapping_add(1))?;
    Ok(())
}

/// The descriptor table entry `i` of the table at `table`.
pub open spec fn table_entry(mem: Seq<u8>, table: u64, i: u16) -> Result<VirtqDesc, Trap> {
    VirtqDesc::spec_read(mem, table.wrapping_add(((i as u64) * 16) as u64))
}

/// Whether `chain` is a run of descriptors linked by their `next` fields
/// through the table at `table`, starting from entry `first` (indirect
/// tables) or from `head` (when `first` is `None`).
pub open spec fn linked(mem: Seq<u8>, table: u64, chain: Seq<VirtqDesc>) -> bool {
    forall|i: int|
        0 <= i < chain.len() - 1 ==> {
            &&& #[trigger] chain[i].flags & 1 != 0
            &&& table_entry(mem, table, chain[i].next) == Ok::<VirtqDesc, Trap>(chain[i + 1])
        }
}

/// `chain` followed by the outcome `rest` of gathering what comes after
/// it; a fault stays a fault.
pub open spec fn prepend(chain: Seq<VirtqDesc>, rest: Result<Seq<VirtqDesc>, Trap>) -> Result<Seq<VirtqDesc>, Trap> {
    match rest {
        Ok(tail) => Ok(chain + tail),
        Err(e) => Err(e),
    }
}

/// The chain through the queue's descriptor table from `current`, the
/// `visited`-th descriptor: it ends at a descriptor without the next
/// flag (bit 0) or once `queue.size` descriptors were taken.
pub open spec fn walk_direct(mem: Seq<u8>, q: VirtQueue, current: VirtqDesc, visited: int) -> Result<Seq<VirtqDesc>, Trap>
    decreases q.size - visited,
{
    if current.flags & 1 == 0 || visited + 1 >= q.size {
        Ok(seq![current])
    } else {
        match table_entry(mem, q.desc_table, current.next) {
            Err(e) => Err(e),
            Ok(d) => prepend(seq![current], walk_direct(mem, q, d, visited + 1)),
        }
    }
}

/// The chain through the indirect table at `table` of `max` entries from
/// entry `next`, after `visited` descriptors: it ends at a descriptor
/// without the next flag, or before an entry past the table or a
/// `max`-th descriptor.
pub open spec fn walk_indirect(mem: Seq<u8>, table: u64, max: int, next: u16, visited: int) -> Result<Seq<VirtqDesc>, Trap>
    decreases max - visited,
{
    if visited >= max || next >= max {
        Ok(Seq::empty())
    } else {
        match table_entry(mem, table, next) {
            Err(e) => Err(e),
            Ok(d) => if d.flags & 1 == 0 {
                Ok(seq![d])
            } else {
                prepend(seq![d], walk_indirect(mem, table, max, d.next, visited + 1))
            },
        }
    }
}

/// The descriptors of the chain headed by `head` (see `collect_chain`).
pub open spec fn gathered(mem: Seq<u8>, q: VirtQueue, head: VirtqDesc) -> Result<Seq<VirtqDesc>, Trap> {
    if head.flags & 0x04 != 0 {
        walk_indirect(mem, head.addr, (head.len / 16) as u16 as int, 0, 0)
    } else {
        walk_direct(mem, q, head, 0)
    }
}

/// Prepending nothing changes nothing.
proof fn lemma_prepend_empty(rest: Result<Seq<VirtqDesc>, Trap>)
    ensures
        prepend(Seq::empty(), rest) == rest,
{
    if let Ok(tail) = rest {
        assert(Seq::<VirtqDesc>::empty() + tail =~= tail);
    }
}

/// Prepending in two steps is prepending the joined prefix.
proof fn lemma_prepend_assoc(a: Seq<VirtqDesc>, b: Seq<VirtqDesc>, rest: Result<Seq<VirtqDesc>, Trap>)
    ensures
        prepend(a, prepend(b, rest)) == prepend(a + b, rest),
{
    if let Ok(tail) = rest {
        assert(a + (b + tail) =~= (a + b) + tail);
    }
}

/// Gathers the descriptors of a chain. An indirect head (flag 4) names a
/// table of `len / 16` descriptors that is walked from its entry 0;
/// otherwise the chain runs through the queue's descriptor table from
/// `head_desc`, at most `queue.size` descriptors long.
pub fn collect_chain(mem: &Memory, queue: &VirtQueue, head_desc: VirtqDesc) -> (r: Result<Vec<VirtqDesc>, Trap>)
    ensures
        gathered(mem.view(), *queue, head_desc) == match r {
            Ok(c) => Ok::<Seq<VirtqDesc>, Trap>(c@),
            Err(e) => Err(e),
        },
        r matches Ok(c) ==> if head_desc.flags & 0x04 != 0 {
            let max = (head_desc.len / 16) as u16;
            &&& c@.len() <= max
            &&& c@.len() > 0 ==> table_entry(mem.view(), head_desc.addr, 0) == Ok::<VirtqDesc, Trap>(c@[0])
            &&& linked(mem.view(), head_desc.addr, c@)
        } else {
            &&& c@.len() >= 1
            &&& c@[0] == head_desc
            &&& c@.len() <= if queue.size == 0 { 1 } else { queue.size as int }
            &&& linked(mem.view(), queue.desc_table, c@)
            &&& c@.last().flags & 1 != 0 ==> c@.len() >= queue.size
        },
{
    let mut chain: Vec<VirtqDesc> = Vec::new();
    if head_desc.flags & 0x04 != 0 {
        let table = head_desc.addr;
        let max = (head_desc.len / 16) as u16;
        let mut next_idx: u16 = 0;
        let mut visited: u16 = 0;
        assert(chain@ + Seq::<VirtqDesc>::empty() =~= chain@);
        proof {
            lemma_prepend_empty(walk_indirect(mem.view(), table, max as int, 0, 0));
        }
        loop
            invariant_except_break
                chain@.len() == visited,
                chain@.len() == 0 ==> next_idx == 0,
                chain@.len() > 0 ==> chain@.last().flags & 1 != 0 && next_idx == chain@.last().next,
                gathered(mem.view(), *queue, head_desc) == prepend(
                    chain@,
                    walk_indirect(mem.view(), table, max as int, next_idx, visited as int),
                ),
            invariant
                visited <= max,
                chain@.len() <= max,
                chain@.len() > 0 ==> table_entry(mem.view(), table, 0) == Ok::<VirtqDesc, Trap>(chain@[0]),
                linked(mem.view(), table, chain@),
            ensures
                chain@.len() <= max,
                chain@.len() > 0 ==> table_entry(mem.view(), table, 0) == Ok::<VirtqDesc, Trap>(chain@[0]),
                linked(mem.view(), table, chain@),
                gathered(mem.view(), *queue, head_desc) == Ok::<Seq<VirtqDesc>, Trap>(chain@),
            decreases max - visited,
        {
            if visited >= max || next_idx >= max {
                assert(chain@ + Seq::<VirtqDesc>::empty() =~= chain@);
                break;
            }
            let d = VirtqDesc::read(mem, table.wrapping_add(next_idx as u64 * 16))?;
            let has_next = (d.flags & 0x01) != 0;
            proof {
                assert(table_entry(mem.view(), table, next_idx) == Ok::<VirtqDesc, Trap>(d));
            }
            let ghost before = chain@;
            chain.push(d);
            proof {
                assert forall|i: int| 0 <= i < chain@.len() - 1 implies {
                    &&& #[trigger] chain@[i].flags & 1 != 0
                    &&& table_entry(mem.view(), table, chain@[i].next) == Ok::<VirtqDesc, Trap>(chain@[i + 1])
                } by {
                    if i < before.len() - 1 {
                        assert(chain@[i] == before[i] && chain@[i + 1] == before[i + 1]);
                        assert(before[i].flags & 1 != 0);
                        assert(table_entry(mem.view(), table, before[i].next) == Ok::<VirtqDesc, Trap>(
                            before[i + 1],
                        ));
                    } else {
                        assert(chain@[i] == before.last());
                        assert(before.last().flags & 1 != 0);
                        assert(next_idx == before.last().next);
                        assert(chain@[i + 1] == d);
                    }
                }
            }
            proof {
                assert(before + seq![d] =~= chain@);
            }
            if !has_next {
                assert(walk_indirect(mem.view(), table, max as int, next_idx, visited as int) == Ok::<Seq<VirtqDesc>, Trap>(seq![d]));
                break;
            }
            proof {
                assert(walk_indirect(mem.view(), table, max as int, next_idx, visited as int) == prepend(seq![d], walk_indirect(mem.view(), table, max as int, d.next, visited + 1)));
                lemma_prepend_assoc(before, seq![d], walk_indirect(mem.view(), table, max as int, d.next, visited + 1));
            }
            next_idx = d.next;
            visited += 1;
        }
        return Ok(chain);
    }
    let mut current = head_desc;
    let mut visited: u16 = 0;
    proof {
        lemma_prepend_empty(walk_direct(mem.view(), *queue, head_desc, 0));
    }
    loop
        invariant_except_break
            chain@.len() == visited,
            visited < queue.size || visited == 0,
            chain@.len() == 0 ==> current == head_desc,
            chain@.len() > 0 ==> chain@.last().flags & 1 != 0 && table_entry(
                mem.view(),
                queue.desc_table,
                chain@.last().next,
            ) == Ok::<VirtqDesc, Trap>(current),
            gathered(mem.view(), *queue, head_desc) == prepend(
                chain@,
                walk_direct(mem.view(), *queue, current, visited as int),
            ),
        invariant
            chain@.len() > 0 ==> chain@[0] == head_desc,
            linked(mem.view(), queue.desc_table, chain@),
        ensures
            chain@.len() >= 1,
            chain@[0] == head_desc,
            chain@.len() <= if queue.size == 0 { 1 } else { queue.size as int },
            linked(mem.view(), queue.desc_table, chain@),
            chain@.last().flags & 1 != 0 ==> chain@.len() >= queue.size,
            gathered(mem.view(), *queue, head_desc) == Ok::<Seq<VirtqDesc>, Trap>(chain@),
        decreases queue.size - visited,
    {
        let ghost before = chain@;
        chain.push(current);
        proof {
            assert forall|i: int| 0 <= i < chain@.len() - 1 implies {
                &&& #[trigger] chain@[i].flags & 1 != 0
                &&& table_entry(mem.view(), queue.desc_table, chain@[i].next) == Ok::<VirtqDesc, Trap>(chain@[i + 1])
            } by {
                if i < before.len() - 1 {
                    assert(chain@[i] == before[i] && chain@[i + 1] == before[i + 1]);
                } else {
                    assert(chain@[i] == before.last());
                }
            }
        }
        proof {
            assert(before + seq![current] =~= chain@);
        }
        if current.flags & 1 == 0 {
            assert(walk_direct(mem.view(), *queue, current, visited as int) == Ok::<Seq<VirtqDesc>, Trap>(seq![current]));
            break;
        }
        visited += 1;
        if visited >= queue.size {
            assert(walk_direct(mem.view(), *queue, current, visited - 1) == Ok::<Seq<VirtqDesc>, Trap>(seq![current]));
            break;
        }
        let next_addr = queue.desc_table.wrapping_add(current.next as u64 * 16);
        let ghost prev = current;
        current = VirtqDesc::read(mem, next_addr)?;
        proof {
            assert(table_entry(mem.view(), queue.desc_table, prev.next) == Ok::<VirtqDesc, Trap>(current));
            assert(walk_direct(mem.view(), *queue, prev, visited - 1) == prepend(seq![prev], walk_direct(mem.view(), *queue, current, visited as int)));
            lemma_prepend_assoc(before, seq![prev], walk_direct(mem.view(), *queue, current, visited as int));
        }
    }
    Ok(chain)
}

/// Whether the device should interrupt after publishing used index
/// `next_used_idx`: not when the driver set NO_INTERRUPT in the avail
/// flags; with event indexes negotiated, only when `next_used_idx` equals
/// the driver's `used_event` (stored after the avail ring).
pub open spec fn spec_should_interrupt(mem: Seq<u8>, q: VirtQueue, next_used_idx: u16) -> Result<bool, Trap> {
    match spec_guest16(mem, q.avail_ring) {
        Err(e) => Err(e),
        Ok(flags) => if flags & VRING_AVAIL_F_NO_INTERRUPT != 0 {
            Ok(false)
        } else if !q.event_idx_enabled {
            Ok(true)
        } else {
            match spec_guest16(mem, q.avail_ring.wrapping_add(4).wrapping_add(((q.size as u64) * 2) as u64)) {
                Err(e) => Err(e),
                Ok(used_event) => Ok(next_used_idx == used_event),
            }
        },
    }
}

pub fn should_interrupt(mem: &Memory, queue: &VirtQueue, next_used_idx: u16) -> (r: Result<bool, Trap>)
    ensures
        r == spec_should_interrupt(mem.view(), *queue, next_used_idx),
{
    let flags = read_guest16(mem, queue.avail_ring)?;
    if (flags & VRING_AVAIL_F_NO_INTERRUPT) != 0 {
        return Ok(false);
    }
    if !queue.event_idx_enabled {
        return Ok(true);
    }
    let used_event_addr = queue.avail_ring.wrapping_add(4).wrapping_add(queue.size as u64 * 2);
    let used_event = read_guest16(mem, used_event_addr)?;
    Ok(next_used_idx == used_event)
}

/// The length published for a chain the device handled with `len`
/// bytes written: 0 on the transmit queue 1, else `len`.
pub open spec fn reported_len(queue_idx: u16, len: u32) -> u32 {
    if queue_idx == 1 {
        0
    } else {
        len
    }
}

/// One turn of `drain_queue`'s loop, from device `d0`, guest RAM `m0` and
/// queue `q0` to `d1`, `m1` and `q1`: the next chain is taken (see
/// `popped`), gathered (see `gathered`), handled by the device (see
/// `VirtIODevice::chain_handled`) and published in the used ring (see
/// `used_written`, with `reported_len`). The outcome `r` is `Ok(false)`
/// when nothing was available, `Ok(true)` when a chain was served, or the
/// first fault.
pub open spec fn served_turn<D: VirtIODevice>(
    d0: D,
    m0: Seq<u8>,
    q0: VirtQueue,
    queue_idx: u16,
    d1: D,
    m1: Seq<u8>,
    q1: VirtQueue,
    r: Result<bool, Trap>,
) -> bool {
    exists|p: Result<Option<(u16, VirtqDesc)>, Trap>, qp: VirtQueue|
        #![trigger popped(q0, m0, qp, p)]
        popped(q0, m0, qp, p) && q1 == qp && match p {
            Err(e) => r == Err::<bool, Trap>(e) && d1 == d0 && m1 == m0,
            Ok(None) => r == Ok::<bool, Trap>(false) && d1 == d0 && m1 == m0,
            Ok(Some((head, desc))) => match gathered(m0, qp, desc) {
                Err(e) => r == Err::<bool, Trap>(e) && d1 == d0 && m1 == m0,
                Ok(chain) => exists|dm: D, mm: Seq<u8>, lr: Result<u32, Trap>|
                    #![trigger d0.chain_handled(m0, chain, queue_idx, &dm, mm, lr)]
                    mm.len() == m0.len() && d0.chain_handled(m0, chain, queue_idx, &dm, mm, lr) && d1 == dm
                        && match lr {
                        Err(e) => r == Err::<bool, Trap>(e) && m1 == mm,
                        Ok(len) => exists|w: Result<(), Trap>|
                            #![trigger used_written(mm, qp, head, reported_len(queue_idx, len), m1, w)]
                            used_written(mm, qp, head, reported_len(queue_idx, len), m1, w) && r == match w {
                                Err(e) => Err::<bool, Trap>(e),
                                Ok(_) => Ok(true),
                            },
                    },
            },
        }
}

/// Turns of `drain_queue`'s loop in a row: turn `i` goes from the `i`-th
/// device, RAM and queue to the next ones with outcome `rs[i]` (see
/// `served_turn`); every turn but the last served a chain.
pub open spec fn drain_run<D: VirtIODevice>(
    ds: Seq<D>,
    ms: Seq<Seq<u8>>,
    qs: Seq<VirtQueue>,
    rs: Seq<Result<bool, Trap>>,
    queue_idx: u16,
) -> bool {
    &&& ds.len() == rs.len() + 1
    &&& ms.len() == rs.len() + 1
    &&& qs.len() == rs.len() + 1
    &&& forall|i: int|
        #![trigger rs[i]]
        0 <= i < rs.len() ==> served_turn(ds[i], ms[i], qs[i], queue_idx, ds[i + 1], ms[i + 1], qs[i + 1], rs[i])
    &&& forall|i: int| #![trigger rs[i]] 0 <= i < rs.len() - 1 ==> rs[i] == Ok::<bool, Trap>(true)
}

/// What `drain_queue` does, from device `d0`, RAM `m0`, queue `q0`, PLIC
/// `p0` and interrupt status `s0` to `d1`, `m1`, `q1`, `p1`, `s1`, with
/// outcome `r`. With the used index unreadable nothing happens. Else
/// turns are taken (see `drain_run`) until one serves nothing or faults,
/// or 65535 have served a chain. A fault is the outcome, with the PLIC
/// and status untouched. Otherwise the outcome says whether any chain was
/// served; if so, and the driver wants to hear of the used index moved on
/// by that many (see `spec_should_interrupt`), status bit 0 is set and
/// `irq` raised.
pub open spec fn drained<D: VirtIODevice>(
    d0: D,
    m0: Seq<u8>,
    q0: VirtQueue,
    p0: Plic,
    s0: u32,
    irq: u32,
    queue_idx: u16,
    d1: D,
    m1: Seq<u8>,
    q1: VirtQueue,
    p1: Plic,
    s1: u32,
    r: Result<bool, Trap>,
) -> bool {
    match used_idx(q0, m0) {
        Err(e) => r == Err::<bool, Trap>(e) && d1 == d0 && m1 == m0 && q1 == q0 && p1 == p0 && s1 == s0,
        Ok(start) => exists|ds: Seq<D>, ms: Seq<Seq<u8>>, qs: Seq<VirtQueue>, rs: Seq<Result<bool, Trap>>|
            #![trigger drain_run(ds, ms, qs, rs, queue_idx)]
            {
                &&& drain_run(ds, ms, qs, rs, queue_idx)
                &&& ds[0] == d0 && ms[0] == m0 && qs[0] == q0
                &&& ds.last() == d1 && ms.last() == m1 && qs.last() == q1
                &&& 1 <= rs.len() <= 65535
                &&& rs.last() == Ok::<bool, Trap>(true) ==> rs.len() == 65535
                &&& match rs.last() {
                    Err(e) => r == Err::<bool, Trap>(e) && p1 == p0 && s1 == s0,
                    _ => {
                        let n: int = if rs.last() == Ok::<bool, Trap>(true) { rs.len() as int } else { rs.len() - 1 };
                        if n == 0 {
                            r == Ok::<bool, Trap>(false) && p1 == p0 && s1 == s0
                        } else {
                            match spec_should_interrupt(m1, q1, start.wrapping_add(n as u16)) {
                                Err(e) => r == Err::<bool, Trap>(e) && p1 == p0 && s1 == s0,
                                Ok(false) => r == Ok::<bool, Trap>(true) && p1 == p0 && s1 == s0,
                                Ok(true) => r == Ok::<bool, Trap>(true) && s1 == s0 | 1 && Plic::triggered(&p0, &p1, irq),
                            }
                        }
                    },
                }
            },
    }
}

/// One more turn after a run of turns that all served a chain.
pub(crate) proof fn lemma_drain_run_push<D: VirtIODevice>(
    ds: Seq<D>,
    ms: Seq<Seq<u8>>,
    qs: Seq<VirtQueue>,
    rs: Seq<Result<bool, Trap>>,
    queue_idx: u16,
    d: D,
    m: Seq<u8>,
    q: VirtQueue,
    r: Result<bool, Trap>,
)
    requires
        drain_run(ds, ms, qs, rs, queue_idx),
        forall|i: int| #![trigger rs[i]] 0 <= i < rs.len() ==> rs[i] == Ok::<bool, Trap>(true),
        served_turn(ds.last(), ms.last(), qs.last(), queue_idx, d, m, q, r),
    ensures
        drain_run(ds.push(d), ms.push(m), qs.push(q), rs.push(r), queue_idx),
{
    let (ds2, ms2, qs2, rs2) = (ds.push(d), ms.push(m), qs.push(q), rs.push(r));
    assert forall|i: int| #![trigger rs2[i]] 0 <= i < rs2.len() implies served_turn(
        ds2[i],
        ms2[i],
        qs2[i],
        queue_idx,
        ds2[i + 1],
        ms2[i + 1],
        qs2[i + 1],
        rs2[i],
    ) by {
        if i < rs.len() {
            assert(rs2[i] == rs[i]);
        }
    }
    assert forall|i: int| #![trigger rs2[i]] 0 <= i < rs2.len() - 1 implies rs2[i] == Ok::<bool, Trap>(true) by {
        assert(rs2[i] == rs[i]);
    }
}

/// A run that ends in a fault is a fault of `drain_queue`, with the PLIC
/// and status untouched.
proof fn lemma_drain_fault<D: VirtIODevice>(
    d0: D,
    m0: Seq<u8>,
    q0: VirtQueue,
    p0: Plic,
    s0: u32,
    irq: u32,
    queue_idx: u16,
    ds: Seq<D>,
    ms: Seq<Seq<u8>>,
    qs: Seq<VirtQueue>,
    rs: Seq<Result<bool, Trap>>,
    e: Trap,
)
    requires
        used_idx(q0, m0) is Ok,
        drain_run(ds, ms, qs, rs, queue_idx),
        ds[0] == d0 && ms[0] == m0 && qs[0] == q0,
        1 <= rs.len() <= 65535,
        rs.last() == Err::<bool, Trap>(e),
    ensures
        drained(d0, m0, q0, p0, s0, irq, queue_idx, ds.last(), ms.last(), qs.last(), p0, s0, Err(e)),
{
}

/// Serves every chain the driver made available on `queue` (number
/// `queue_idx`) with `device`, publishing each in the used ring (with 0
/// bytes for the transmit queue 1), then raises `irq` once, through
/// `interrupt_status` bit 0 and the PLIC, if anything was served and the
/// driver wants to hear of it. Answers whether anything was served.
pub fn drain_queue<D: VirtIODevice>(
    device: &mut D,
    mem: &mut Memory,
    plic: &mut Plic,
    interrupt_status: &mut u32,
    irq: u32,
    queue: &mut VirtQueue,
    queue_idx: u16,
) -> (r: Result<bool, Trap>)
    requires
        old(queue).size > 0,
    ensures
        final(mem).view().len() == old(mem).view().len(),
        drained(
            *old(device),
            old(mem).view(),
            *old(queue),
            *old(plic),
            *old(interrupt_status),
            irq,
            queue_idx,
            *final(device),
            final(mem).view(),
            *final(queue),
            *final(plic),
            *final(interrupt_status),
            r,
        ),
{
    let mut processed: u16 = 0;
    let start_used_idx = read_guest16(mem, queue.used_ring.wrapping_add(2))?;
    let mut last_used_idx = start_used_idx;
    let _ = mem.size();
    let ghost mut ds: Seq<D> = seq![*device];
    let ghost mut ms: Seq<Seq<u8>> = seq![mem.view()];
    let ghost mut qs: Seq<VirtQueue> = seq![*queue];
    let ghost mut rs: Seq<Result<bool, Trap>> = Seq::empty();
    while processed < u16::MAX
        invariant_except_break
            rs.len() == processed,
            forall|i: int| #![trigger rs[i]] 0 <= i < rs.len() ==> rs[i] == Ok::<bool, Trap>(true),
        invariant
            mem.view().len() == old(mem).view().len(),
            mem.view().len() <= usize::MAX,
            queue.size == old(queue).size,
            old(queue).size > 0,
            *plic == *old(plic),
            *interrupt_status == *old(interrupt_status),
            used_idx(*old(queue), old(mem).view()) == Ok::<u16, Trap>(start_used_idx),
            last_used_idx == start_used_idx.wrapping_add(processed),
            drain_run(ds, ms, qs, rs, queue_idx),
            ds[0] == *old(device) && ms[0] == old(mem).view() && qs[0] == *old(queue),
            ds.last() == *device && ms.last() == mem.view() && qs.last() == *queue,
        ensures
            mem.view().len() == old(mem).view().len(),
            *plic == *old(plic),
            *interrupt_status == *old(interrupt_status),
            used_idx(*old(queue), old(mem).view()) == Ok::<u16, Trap>(start_used_idx),
            last_used_idx == start_used_idx.wrapping_add(processed),
            drain_run(ds, ms, qs, rs, queue_idx),
            1 <= rs.len() <= 65535,
            rs.last() == Ok::<bool, Trap>(true) ==> rs.len() == 65535 && processed == 65535,
            rs.last() == Ok::<bool, Trap>(false) ==> rs.len() - 1 == processed,
            rs.last() is Ok,
            ds[0] == *old(device) && ms[0] == old(mem).view() && qs[0] == *old(queue),
            ds.last() == *device && ms.last() == mem.view() && qs.last() == *queue,
        decreases u16::MAX - processed,
    {
        let ghost d0 = *device;
        let ghost m0 = mem.view();
        let ghost q0 = *queue;
        let popped_r = queue.pop_descriptor(mem);
        let ghost qp = *queue;
        proof {
            assert(popped(q0, m0, qp, popped_r));
        }
        let (desc_head, head_desc) = match popped_r {
            Ok(Some(p)) => p,
            Ok(None) => {
                proof {
                    assert(served_turn(d0, m0, q0, queue_idx, d0, m0, qp, Ok::<bool, Trap>(false)));
                    lemma_drain_run_push(ds, ms, qs, rs, queue_idx, d0, m0, qp, Ok::<bool, Trap>(false));
                    ds = ds.push(d0);
                    ms = ms.push(m0);
                    qs = qs.push(qp);
                    rs = rs.push(Ok::<bool, Trap>(false));
                }
                break;
            },
            Err(e) => {
                proof {
                    assert(served_turn(d0, m0, q0, queue_idx, d0, m0, qp, Err::<bool, Trap>(e)));
                    lemma_drain_run_push(ds, ms, qs, rs, queue_idx, d0, m0, qp, Err::<bool, Trap>(e));
                    ds = ds.push(d0);
                    ms = ms.push(m0);
                    qs = qs.push(qp);
                    rs = rs.push(Err::<bool, Trap>(e));
                    lemma_drain_fault(*old(device), old(mem).view(), *old(queue), *old(plic), *old(interrupt_status), irq, queue_idx, ds, ms, qs, rs, e);
                }
                return Err(e);
            },
        };
        let chain_r = collect_chain(mem, queue, head_desc);
        let chain = match chain_r {
            Ok(c) => c,
            Err(e) => {
                proof {
                    assert(served_turn(d0, m0, q0, queue_idx, d0, m0, qp, Err::<bool, Trap>(e)));
                    lemma_drain_run_push(ds, ms, qs, rs, queue_idx, d0, m0, qp, Err::<bool, Trap>(e));
                    ds = ds.push(d0);
                    ms = ms.push(m0);
                    qs = qs.push(qp);
                    rs = rs.push(Err::<bool, Trap>(e));
                    lemma_drain_fault(*old(device), old(mem).view(), *old(queue), *old(plic), *old(interrupt_status), irq, queue_idx, ds, ms, qs, rs, e);
                }
                return Err(e);
            },
        };
        proof {
            assert(gathered(m0, qp, head_desc) == Ok::<Seq<VirtqDesc>, Trap>(chain@));
            assert(popped_r == Ok::<Option<(u16, VirtqDesc)>, Trap>(Some((desc_head, head_desc))));
        }
        let lr = device.process_descriptor_chain(mem, &chain, queue_idx);
        let ghost dm = *device;
        let ghost mm = mem.view();
        proof {
            assert(mm.len() == m0.len() && d0.chain_handled(m0, chain@, queue_idx, &dm, mm, lr));
        }
        let written_len = match lr {
            Ok(n) => n,
            Err(e) => {
                proof {
                    assert(d0.chain_handled(m0, chain@, queue_idx, &dm, mm, lr));
                    assert(match popped_r {
                        Ok(Some((head, desc))) => head == desc_head && match gathered(m0, qp, desc) {
                            Ok(chain2) => chain2 == chain@,
                            _ => false,
                        },
                        _ => false,
                    });
                    assert(popped(q0, m0, qp, popped_r));
                    assert(served_turn(d0, m0, q0, queue_idx, dm, mm, qp, Err::<bool, Trap>(e)));
                    lemma_drain_run_push(ds, ms, qs, rs, queue_idx, dm, mm, qp, Err::<bool, Trap>(e));
                    ds = ds.push(dm);
                    ms = ms.push(mm);
                    qs = qs.push(qp);
                    rs = rs.push(Err::<bool, Trap>(e));
                    lemma_drain_fault(*old(device), old(mem).view(), *old(queue), *old(plic), *old(interrupt_status), irq, queue_idx, ds, ms, qs, rs, e);
                }
                return Err(e);
            },
        };
        let report_len: u32 = if queue_idx == 1 { 0 } else { written_len };
        let w = write_used_ring(mem, queue, desc_head, report_len);
        proof {
            let res = match w {
                Err(e) => Err::<bool, Trap>(e),
                Ok(_) => Ok(true),
            };
            assert(d0.chain_handled(m0, chain@, queue_idx, &dm, mm, lr));
            assert(used_written(mm, qp, desc_head, reported_len(queue_idx, written_len), mem.view(), w));
            assert(served_turn(d0, m0, q0, queue_idx, dm, mem.view(), qp, res));
            lemma_drain_run_push(ds, ms, qs, rs, queue_idx, dm, mem.view(), qp, res);
            ds = ds.push(dm);
            ms = ms.push(mem.view());
            qs = qs.push(qp);
            rs = rs.push(res);
        }
        if let Err(e) = w {
            proof {
                lemma_drain_fault(*old(device), old(mem).view(), *old(queue), *old(plic), *old(interrupt_status), irq, queue_idx, ds, ms, qs, rs, e);
            }
            return Err(e);
        }
        last_used_idx = last_used_idx.wrapping_add(1);
        proof {
            assert(start_used_idx.wrapping_add(processed).wrapping_add(1) == start_used_idx.wrapping_add((processed + 1) as u16));
        }
        processed += 1;
    }
    if processed == 0 {
        return Ok(false);
    }
    let notify = should_interrupt(mem, queue, last_used_idx);
    match notify {
        Err(e) => {
            return Err(e);
        },
        Ok(true) => {
            *interrupt_status = *interrupt_status | 0x1;
            plic.trigger_interrupt(irq);
        },
        Ok(false) => {},
    }
    Ok(true)
}

} // verus!
