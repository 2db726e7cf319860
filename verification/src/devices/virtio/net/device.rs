use vstd::prelude::*;

use crate::cpu::memory::{in_bounds, spliced, Memory};
use crate::devices::virtio::descriptor::{guest_off, guest_offset, VirtqDesc};
use crate::devices::virtio::device::VirtIODevice;
use crate::devices::virtio::features::VIRTIO_F_VERSION_1;
use crate::devices::virtio::net::backend::NetworkBackend;
use crate::devices::virtio::net::config::VirtIONetConfig;
use crate::devices::virtio::net::gro::{frames_view, gro_coalesce, outputs_view, spec_gro, GroOutput, GsoMeta};
use crate::devices::virtio::net::header::{
    hdr_bytes, VirtioNetHdr, VIRTIO_NET_HDR_F_DATA_VALID, VIRTIO_NET_HDR_F_NEEDS_CSUM, VIRTIO_NET_HDR_GSO_TCPV4,
    VIRTIO_NET_HDR_SIZE,
};
use crate::devices::virtio::queue::{popped, VirtQueue};
use crate::devices::virtio::transport::{collect_chain, gathered, used_written, write_used_ring};
use crate::trap::Trap;

verus! {

pub const VIRTIO_DEVICE_NET: u32 = 1;

pub const VIRTIO_NET_F_CSUM: u64 = 0x1;
pub const VIRTIO_NET_F_GUEST_CSUM: u64 = 0x2;
pub const VIRTIO_NET_F_MAC: u64 = 0x20;
pub const VIRTIO_NET_F_GUEST_TSO4: u64 = 0x80;
pub const VIRTIO_NET_F_GUEST_TSO6: u64 = 0x100;
pub const VIRTIO_NET_F_HOST_TSO4: u64 = 0x800;
pub const VIRTIO_NET_F_HOST_TSO6: u64 = 0x1000;
pub const VIRTIO_NET_F_STATUS: u64 = 0x1_0000;

/// Version 1, guest checksum offload, guest TSO4 (merged receive
/// segments), a MAC address and a link status.
pub const NET_HOST_FEATURES: u64 = 0x1_0001_00A2;

/// The largest frame taken from the backend.
pub const MAX_FRAME_SIZE: usize = 1514;

/// Frames taken from the backend per receive pass.
pub const GRO_BATCH: usize = 64;

/// A frame never grows past this in a receive buffer (merged segments
/// stay far below it).
pub const MAX_RX_FRAME: usize = 0x1000_0000;

/// A virtio network device over a backend.
pub struct VirtIONet<N: NetworkBackend> {
    pub backend: N,
    pub config: VirtIONetConfig,
    /// Frames received and held back until enough are there to merge.
    pub gro_buffer: Vec<Vec<u8>>,
    pub gro_frames_in: u64,
    pub gro_segments_out: u64,
}

/// The frame a transmit chain carries, gathered from its first `k`
/// buffers: the first buffer's bytes after the 12-byte header, then each
/// further buffer whole, in order; `None` when one of them is outside RAM.
pub open spec fn tx_frame(mem: Seq<u8>, chain: Seq<VirtqDesc>, k: int) -> Option<Seq<u8>>
    decreases k,
{
    if k <= 0 {
        Some(Seq::empty())
    } else if k == 1 {
        let d = chain[0];
        if d.len > VIRTIO_NET_HDR_SIZE {
            let at = guest_off(d.addr).wrapping_add(VIRTIO_NET_HDR_SIZE as u64);
            let n = d.len - VIRTIO_NET_HDR_SIZE;
            if in_bounds(at, n as nat, mem.len()) {
                Some(mem.subrange(at as int, at + n))
            } else {
                None
            }
        } else {
            Some(Seq::empty())
        }
    } else {
        match tx_frame(mem, chain, k - 1) {
            None => None,
            Some(p) => {
                let d = chain[k - 1];
                let at = guest_off(d.addr);
                if in_bounds(at, d.len as nat, mem.len()) {
                    Some(p + mem.subrange(at as int, at + d.len))
                } else {
                    None
                }
            },
        }
    }
}

/// The bytes a receive chain has room for after the 12-byte header.
pub open spec fn rx_room(chain: Seq<VirtqDesc>) -> int
    decreases chain.len(),
{
    if chain.len() == 0 {
        0
    } else if chain.len() == 1 {
        if chain[0].len > VIRTIO_NET_HDR_SIZE { chain[0].len - VIRTIO_NET_HDR_SIZE } else { 0 }
    } else {
        rx_room(chain.drop_last()) + chain.last().len
    }
}

/// How many bytes of a `total`-byte frame the first `k` buffers of a
/// receive chain take (see `rx_room`).
pub open spec fn rx_taken(chain: Seq<VirtqDesc>, total: int, k: int) -> int {
    let room = rx_room(chain.subrange(0, k));
    if total < room {
        total
    } else {
        room
    }
}

/// Guest RAM after the header `hdr` and the parts of `frame` that the
/// first `k` buffers of `chain` take were stored: the header at the start
/// of the first buffer and the frame from there on, buffer after buffer.
pub open spec fn rx_stored(mem: Seq<u8>, chain: Seq<VirtqDesc>, frame: Seq<u8>, hdr: VirtioNetHdr, k: int) -> Seq<u8>
    decreases k,
{
    if k <= 0 {
        mem
    } else if k == 1 {
        let off = guest_off(chain[0].addr);
        let with_hdr = spliced(mem, off as int, hdr_bytes(hdr));
        if chain[0].len > VIRTIO_NET_HDR_SIZE {
            let take = rx_taken(chain, frame.len() as int, 1);
            spliced(with_hdr, off.wrapping_add(VIRTIO_NET_HDR_SIZE as u64) as int, frame.subrange(0, take))
        } else {
            with_hdr
        }
    } else {
        let prev = rx_stored(mem, chain, frame, hdr, k - 1);
        let pos = rx_taken(chain, frame.len() as int, k - 1);
        if pos == frame.len() {
            prev
        } else {
            let d = chain[k - 1];
            let take = if frame.len() - pos < d.len { frame.len() - pos } else { d.len as int };
            spliced(prev, guest_off(d.addr) as int, frame.subrange(pos, pos + take))
        }
    }
}

/// The header that goes with a received frame: checksum-needed TCPv4
/// segmentation data for a merged segment, "checksum valid" otherwise.
pub open spec fn rx_header(gso: Option<GsoMeta>) -> VirtioNetHdr {
    match gso {
        Some(g) => VirtioNetHdr {
            flags: VIRTIO_NET_HDR_F_NEEDS_CSUM,
            gso_type: VIRTIO_NET_HDR_GSO_TCPV4,
            hdr_len: g.hdr_len,
            gso_size: g.mss,
            csum_start: g.csum_start,
            csum_offset: 16,
        },
        None => VirtioNetHdr {
            flags: VIRTIO_NET_HDR_F_DATA_VALID,
            gso_type: 0,
            hdr_len: 0,
            gso_size: 0,
            csum_start: 0,
            csum_offset: 0,
        },
    }
}

/// Whether part `j` of a `total`-byte frame is stored into receive chain
/// `chain`: part 0 goes after the header in the first buffer, when that
/// buffer is longer than the header; part `j >= 1` goes into buffer `j`
/// while some of the frame is left.
pub open spec fn rx_part_stored(chain: Seq<VirtqDesc>, total: int, j: int) -> bool {
    if j == 0 {
        chain[0].len > VIRTIO_NET_HDR_SIZE
    } else {
        rx_taken(chain, total, j) < total
    }
}

/// Where part `j` of a `total`-byte frame goes in guest RAM, and how many
/// bytes it has (see `rx_part_stored`).
pub open spec fn rx_part(chain: Seq<VirtqDesc>, total: int, j: int) -> (u64, int) {
    if j == 0 {
        let room = chain[0].len - VIRTIO_NET_HDR_SIZE;
        (guest_off(chain[0].addr).wrapping_add(VIRTIO_NET_HDR_SIZE as u64), if total < room { total } else { room })
    } else {
        let left = total - rx_taken(chain, total, j);
        (guest_off(chain[j].addr), if left < chain[j].len { left } else { chain[j].len as int })
    }
}

/// The first store of a `total`-byte frame into receive chain `chain`
/// that falls outside guest RAM of `n` bytes, among the header and the
/// parts before part `k` (see `rx_part`): its RAM offset, or `None`.
pub open spec fn rx_fault(n: nat, chain: Seq<VirtqDesc>, total: int, k: int) -> Option<u64>
    decreases k,
{
    if k <= 0 {
        if in_bounds(guest_off(chain[0].addr), 12, n) {
            None
        } else {
            Some(guest_off(chain[0].addr))
        }
    } else {
        match rx_fault(n, chain, total, k - 1) {
            Some(a) => Some(a),
            None => {
                let (off, take) = rx_part(chain, total, k - 1);
                if rx_part_stored(chain, total, k - 1) && !in_bounds(off, take as nat, n) {
                    Some(off)
                } else {
                    None
                }
            },
        }
    }
}

/// A fault found among the first stores stays the first fault.
proof fn lemma_fault_stays(n: nat, chain: Seq<VirtqDesc>, total: int, k: int, m: int)
    requires
        0 <= k <= m,
        rx_fault(n, chain, total, k) is Some,
    ensures
        rx_fault(n, chain, total, m) == rx_fault(n, chain, total, k),
    decreases m - k,
{
    if k < m {
        lemma_fault_stays(n, chain, total, k, m - 1);
    }
}

/// Once the whole frame is placed, no later buffer is stored to.
proof fn lemma_fault_done(n: nat, chain: Seq<VirtqDesc>, total: int, k: int, m: int)
    requires
        1 <= k <= m <= chain.len(),
        rx_fault(n, chain, total, k) is None,
        rx_taken(chain, total, k) == total,
    ensures
        rx_fault(n, chain, total, m) is None,
    decreases m - k,
{
    if k < m {
        lemma_fault_done(n, chain, total, k, m - 1);
        lemma_taken_stays(chain, total, k, m - 1);
    }
}

/// Storing the frame of `item` (with its merge data) into the receive
/// chain `chain` (see `write_rx_frame`), from guest RAM `m0` to `m1` with
/// outcome `r`: a chain without buffers, or a frame over `MAX_RX_FRAME`
/// bytes, gets nothing (0 bytes). Otherwise RAM keeps its size; the store
/// fails at the first part outside RAM (see `rx_fault`); when it
/// succeeds, RAM holds the header and frame (see `rx_stored`) and the
/// outcome counts the header and the part of the frame there was room
/// for.
pub open spec fn rx_frame_written(
    m0: Seq<u8>,
    chain: Seq<VirtqDesc>,
    item: Option<(Seq<u8>, Option<GsoMeta>)>,
    m1: Seq<u8>,
    r: Result<u32, Trap>,
) -> bool {
    match item {
        None => false,
        Some((frame, gso)) => if chain.len() >= 1 && frame.len() <= MAX_RX_FRAME {
            &&& m1.len() == m0.len()
            &&& r matches Ok(w) ==> w == VIRTIO_NET_HDR_SIZE + if frame.len() < rx_room(chain) {
                frame.len() as int
            } else {
                rx_room(chain)
            }
            &&& r is Ok ==> m1 == rx_stored(m0, chain, frame, rx_header(gso), chain.len() as int)
            &&& match rx_fault(m0.len(), chain, frame.len() as int, chain.len() as int) {
                Some(a) => r == Err::<u32, Trap>(Trap::StoreAccessFault(a)),
                None => r is Ok,
            }
        } else {
            r == Ok::<u32, Trap>(0) && m1 == m0
        },
    }
}

/// One turn of a receive loop, from guest RAM `m0` and queue `q0` to `m1`
/// and `q1`: the next chain is taken (see `popped`); if one was, `item`
/// is the frame for it (with its merge data), or `None` when there was
/// none, and the chain is given back. The frame is stored in the
/// gathered chain (see `gathered`, `rx_frame_written`) and the chain
/// published as used with the bytes written (see `used_written`). The
/// outcome `r` is `Ok(true)` when a frame was delivered, `Ok(false)` when
/// a chain or a frame was missing, or the first fault.
pub open spec fn rx_turn(
    m0: Seq<u8>,
    q0: VirtQueue,
    item: Option<(Seq<u8>, Option<GsoMeta>)>,
    m1: Seq<u8>,
    q1: VirtQueue,
    r: Result<bool, Trap>,
) -> bool {
    exists|p: Result<Option<(u16, VirtqDesc)>, Trap>, qp: VirtQueue|
        #![trigger popped(q0, m0, qp, p)]
        popped(q0, m0, qp, p) && match p {
            Err(e) => r == Err::<bool, Trap>(e) && m1 == m0 && q1 == qp,
            Ok(None) => r == Ok::<bool, Trap>(false) && m1 == m0 && q1 == qp,
            Ok(Some((head, desc))) => match item {
                None => r == Ok::<bool, Trap>(false) && m1 == m0 && q1 == qp.rewound(),
                Some(_) => q1 == qp && match gathered(m0, qp, desc) {
                    Err(e) => r == Err::<bool, Trap>(e) && m1 == m0,
                    Ok(chain) => exists|mm: Seq<u8>, wr: Result<u32, Trap>|
                        #![trigger rx_frame_written(m0, chain, item, mm, wr)]
                        rx_frame_written(m0, chain, item, mm, wr) && match wr {
                            Err(e) => r == Err::<bool, Trap>(e) && m1 == mm,
                            Ok(n) => exists|w: Result<(), Trap>|
                                #![trigger used_written(mm, qp, head, n, m1, w)]
                                used_written(mm, qp, head, n, m1, w) && r == match w {
                                    Err(e) => Err::<bool, Trap>(e),
                                    Ok(_) => Ok(true),
                                },
                        },
                },
            },
        }
}

/// Turns of a receive loop in a row: turn `i` goes from the `i`-th RAM
/// and queue to the next ones with frame `items[i]` and outcome `rs[i]`
/// (see `rx_turn`); every turn but the last delivered a frame.
pub open spec fn rx_run(
    ms: Seq<Seq<u8>>,
    qs: Seq<VirtQueue>,
    items: Seq<Option<(Seq<u8>, Option<GsoMeta>)>>,
    rs: Seq<Result<bool, Trap>>,
) -> bool {
    &&& ms.len() == rs.len() + 1
    &&& qs.len() == rs.len() + 1
    &&& items.len() == rs.len()
    &&& forall|i: int|
        #![trigger rs[i]]
        0 <= i < rs.len() ==> rx_turn(ms[i], qs[i], items[i], ms[i + 1], qs[i + 1], rs[i])
    &&& forall|i: int| #![trigger rs[i]] 0 <= i < rs.len() - 1 ==> rs[i] == Ok::<bool, Trap>(true)
}

/// The outcome of a receive loop whose turns ended with `rs`: the fault
/// that ended it, else whether any frame was delivered.
pub open spec fn rx_outcome(rs: Seq<Result<bool, Trap>>) -> Result<bool, Trap> {
    if rs.len() == 0 {
        Ok(false)
    } else {
        match rs.last() {
            Err(e) => Err(e),
            Ok(b) => Ok(b || rs.len() > 1),
        }
    }
}

/// What receiving without merging does (see `drain_rx_simple`), from
/// guest RAM `m0` and queue `q0` to `m1` and `q1`, with outcome `r`:
/// turns (see `rx_run`) until one delivers nothing or faults, or 65535
/// have delivered a frame; each frame is one the backend handed over,
/// cut to `MAX_FRAME_SIZE` bytes, stored without merge data.
pub open spec fn rx_received(m0: Seq<u8>, q0: VirtQueue, m1: Seq<u8>, q1: VirtQueue, r: Result<bool, Trap>) -> bool {
    exists|
        ms: Seq<Seq<u8>>,
        qs: Seq<VirtQueue>,
        items: Seq<Option<(Seq<u8>, Option<GsoMeta>)>>,
        rs: Seq<Result<bool, Trap>>,
    |
        #![trigger rx_run(ms, qs, items, rs)]
        {
            &&& rx_run(ms, qs, items, rs)
            &&& ms[0] == m0 && qs[0] == q0 && ms.last() == m1 && qs.last() == q1
            &&& 1 <= rs.len() <= 65535
            &&& rs.last() == Ok::<bool, Trap>(true) ==> rs.len() == 65535
            &&& forall|i: int|
                #![trigger items[i]]
                0 <= i < items.len() ==> (items[i] matches Some((f, g)) ==> f.len() <= MAX_FRAME_SIZE && g is None)
            &&& r == rx_outcome(rs)
        }
}

/// A receive turn that took a chain, gathered it and stored a frame.
proof fn lemma_rx_turn_stored(
    m0: Seq<u8>,
    q0: VirtQueue,
    qp: VirtQueue,
    p: Result<Option<(u16, VirtqDesc)>, Trap>,
    head: u16,
    desc: VirtqDesc,
    chain: Seq<VirtqDesc>,
    frame: Seq<u8>,
    gso: Option<GsoMeta>,
    mm: Seq<u8>,
    wr: Result<u32, Trap>,
    m1: Seq<u8>,
    w: Result<(), Trap>,
    r: Result<bool, Trap>,
)
    requires
        popped(q0, m0, qp, p),
        p == Ok::<Option<(u16, VirtqDesc)>, Trap>(Some((head, desc))),
        gathered(m0, qp, desc) == Ok::<Seq<VirtqDesc>, Trap>(chain),
        rx_frame_written(m0, chain, Some((frame, gso)), mm, wr),
        match wr {
            Err(e) => r == Err::<bool, Trap>(e) && m1 == mm,
            Ok(n) => used_written(mm, qp, head, n, m1, w) && r == match w {
                Err(e) => Err::<bool, Trap>(e),
                Ok(_) => Ok(true),
            },
        },
    ensures
        rx_turn(m0, q0, Some((frame, gso)), m1, qp, r),
{
    let item = Some((frame, gso));
    assert(match p {
        Ok(Some((h, d))) => h == head && match gathered(m0, qp, d) {
            Ok(c) => c == chain,
            _ => false,
        },
        _ => false,
    });
    assert(exists|mm2: Seq<u8>, wr2: Result<u32, Trap>|
        #![trigger rx_frame_written(m0, chain, item, mm2, wr2)]
        rx_frame_written(m0, chain, item, mm2, wr2) && match wr2 {
            Err(e) => r == Err::<bool, Trap>(e) && m1 == mm2,
            Ok(n) => exists|w2: Result<(), Trap>|
                #![trigger used_written(mm2, qp, head, n, m1, w2)]
                used_written(mm2, qp, head, n, m1, w2) && r == match w2 {
                    Err(e) => Err::<bool, Trap>(e),
                    Ok(_) => Ok(true),
                },
        });
}

/// A frame from the backend as it is held: cut to `MAX_FRAME_SIZE` bytes.
pub open spec fn cut_frame(f: Seq<u8>) -> Seq<u8> {
    if f.len() > MAX_FRAME_SIZE {
        f.subrange(0, MAX_FRAME_SIZE as int)
    } else {
        f
    }
}

/// The frames taken from a backend with `pending` frames waiting: the
/// first `GRO_BATCH` of them (or all, if fewer), each cut (see
/// `cut_frame`).
pub open spec fn pulled_frames(pending: Seq<Seq<u8>>) -> Seq<Seq<u8>> {
    let n = if pending.len() < GRO_BATCH { pending.len() as int } else { GRO_BATCH as int };
    pending.take(n).map_values(|f: Seq<u8>| cut_frame(f))
}

/// Delivering the merged segments `segs`, from guest RAM `m0` and queue
/// `q0` to `m1` and `q1`, with outcome `r`: a receive turn for each
/// segment in order (see `rx_run`) until one delivers nothing or faults;
/// the segments after it are dropped.
pub open spec fn segments_delivered(
    m0: Seq<u8>,
    q0: VirtQueue,
    segs: Seq<(Seq<u8>, Option<GsoMeta>)>,
    m1: Seq<u8>,
    q1: VirtQueue,
    r: Result<bool, Trap>,
) -> bool {
    exists|
        ms: Seq<Seq<u8>>,
        qs: Seq<VirtQueue>,
        items: Seq<Option<(Seq<u8>, Option<GsoMeta>)>>,
        rs: Seq<Result<bool, Trap>>,
    |
        #![trigger rx_run(ms, qs, items, rs)]
        {
            &&& rx_run(ms, qs, items, rs)
            &&& ms[0] == m0 && qs[0] == q0 && ms.last() == m1 && qs.last() == q1
            &&& rs.len() <= segs.len()
            &&& forall|j: int| #![trigger items[j]] 0 <= j < items.len() ==> items[j] == Some(segs[j])
            &&& rs.len() < segs.len() ==> rs.len() >= 1 && rs.last() != Ok::<bool, Trap>(true)
            &&& r == rx_outcome(rs)
        }
}

/// The frames held for merging once `pulled` joined those `d` held.
pub open spec fn gro_held<N: NetworkBackend>(d: VirtIONet<N>, pulled: Seq<Seq<u8>>) -> Seq<Seq<u8>> {
    frames_view(d.gro_buffer@) + pulled
}

/// What receiving with merging does (see `drain_rx`), from device `d0`,
/// guest RAM `m0` and queue `q0` to `d1`, `m1` and `q1`, with outcome
/// `r`: the frames the backend hands over (see `pulled_frames`) join
/// those held. Unless 32 are held, or none came and some are held, they
/// stay held and nothing is delivered. Otherwise they all leave the
/// holding buffer, are counted, merged (see `spec_gro`), counted again,
/// and delivered (see `segments_delivered`).
pub open spec fn gro_received<N: NetworkBackend>(
    d0: VirtIONet<N>,
    d1: VirtIONet<N>,
    m0: Seq<u8>,
    q0: VirtQueue,
    m1: Seq<u8>,
    q1: VirtQueue,
    r: Result<bool, Trap>,
) -> bool {
    let pulled = pulled_frames(d0.backend.pending());
    let held = gro_held(d0, pulled);
    &&& d1.backend.pending() == d0.backend.pending().skip(pulled.len() as int)
    &&& if !(held.len() >= 32 || held.len() >= GRO_BATCH || (pulled.len() == 0 && held.len() > 0)) || held.len()
        == 0 {
        &&& r == Ok::<bool, Trap>(false) && m1 == m0 && q1 == q0
        &&& frames_view(d1.gro_buffer@) == held
        &&& d1 == (VirtIONet { backend: d1.backend, gro_buffer: d1.gro_buffer, ..d0 })
    } else {
        &&& d1.gro_buffer@.len() == 0
        &&& d1 == (VirtIONet {
            backend: d1.backend,
            gro_buffer: d1.gro_buffer,
            gro_frames_in: d1.gro_frames_in,
            gro_segments_out: d1.gro_segments_out,
            ..d0
        })
        &&& d1.gro_frames_in == d0.gro_frames_in.wrapping_add(held.len() as u64)
        &&& d1.gro_segments_out == d0.gro_segments_out.wrapping_add(spec_gro(held).len() as u64)
        &&& segments_delivered(m0, q0, spec_gro(held), m1, q1, r)
    }
}

/// What `drain_rx` does, from device `d0`, guest RAM `m0` and receive
/// queue `q0` to `d1`, `m1` and `q1`, with outcome `r`: nothing on a
/// queue that is not ready; without TSO4 among `driver_features`,
/// receiving without merging (see `rx_received`), which changes only the
/// backend of the device; with it, receiving with merging (see
/// `gro_received`).
pub open spec fn rx_drained<N: NetworkBackend>(
    d0: VirtIONet<N>,
    d1: VirtIONet<N>,
    driver_features: u64,
    m0: Seq<u8>,
    q0: VirtQueue,
    m1: Seq<u8>,
    q1: VirtQueue,
    r: Result<bool, Trap>,
) -> bool {
    if !q0.ready {
        r == Ok::<bool, Trap>(false) && d1 == d0 && m1 == m0 && q1 == q0
    } else if driver_features & VIRTIO_NET_F_GUEST_TSO4 == 0 {
        d1 == (VirtIONet { backend: d1.backend, ..d0 }) && rx_received(m0, q0, m1, q1, r)
    } else {
        gro_received(d0, d1, m0, q0, m1, q1, r)
    }
}

/// A delivery of segments that ends in a fault.
proof fn lemma_segments_fault(
    m0: Seq<u8>,
    q0: VirtQueue,
    segs: Seq<(Seq<u8>, Option<GsoMeta>)>,
    ms: Seq<Seq<u8>>,
    qs: Seq<VirtQueue>,
    items: Seq<Option<(Seq<u8>, Option<GsoMeta>)>>,
    rs: Seq<Result<bool, Trap>>,
    e: Trap,
)
    requires
        rx_run(ms, qs, items, rs),
        ms[0] == m0 && qs[0] == q0,
        1 <= rs.len() <= segs.len(),
        forall|j: int| #![trigger items[j]] 0 <= j < items.len() ==> items[j] == Some(segs[j]),
        rs.last() == Err::<bool, Trap>(e),
    ensures
        segments_delivered(m0, q0, segs, ms.last(), qs.last(), Err(e)),
{
}

/// One more turn after a run of receive turns that all delivered.
proof fn lemma_rx_run_push(
    ms: Seq<Seq<u8>>,
    qs: Seq<VirtQueue>,
    items: Seq<Option<(Seq<u8>, Option<GsoMeta>)>>,
    rs: Seq<Result<bool, Trap>>,
    m: Seq<u8>,
    q: VirtQueue,
    item: Option<(Seq<u8>, Option<GsoMeta>)>,
    r: Result<bool, Trap>,
)
    requires
        rx_run(ms, qs, items, rs),
        forall|i: int| #![trigger rs[i]] 0 <= i < rs.len() ==> rs[i] == Ok::<bool, Trap>(true),
        rx_turn(ms.last(), qs.last(), item, m, q, r),
    ensures
        rx_run(ms.push(m), qs.push(q), items.push(item), rs.push(r)),
{
    let (ms2, qs2, it2, rs2) = (ms.push(m), qs.push(q), items.push(item), rs.push(r));
    assert forall|i: int| #![trigger rs2[i]] 0 <= i < rs2.len() implies rx_turn(
        ms2[i],
        qs2[i],
        it2[i],
        ms2[i + 1],
        qs2[i + 1],
        rs2[i],
    ) by {
        if i < rs.len() {
            assert(rs2[i] == rs[i]);
        }
    }
    assert forall|i: int| #![trigger rs2[i]] 0 <= i < rs2.len() - 1 implies rs2[i] == Ok::<bool, Trap>(true) by {
        assert(rs2[i] == rs[i]);
    }
}

fn min_usize(a: usize, b: usize) -> (m: usize)
    ensures
        m == if a < b { a } else { b },
{
    if a < b { a } else { b }
}

/// Copies `src[start..start + n]` out.
fn sub_bytes(src: &[u8], start: usize, n: usize) -> (r: Vec<u8>)
    requires
        start + n <= src@.len(),
    ensures
        r@ == src@.subrange(start as int, start + n),
{
    let mut out: Vec<u8> = Vec::new();
    let ls = src.len();
    let mut i: usize = 0;
    while i < n
        invariant
            ls == src@.len(),
            start + n <= src@.len(),
            i <= n,
            out@ == src@.subrange(start as int, start + i),
        decreases n - i,
    {
        out.push(src[start + i]);
        i += 1;
        assert(out@ =~= src@.subrange(start as int, start + i));
    }
    out
}

impl<N: NetworkBackend> VirtIONet<N> {
    /// A device over `backend`, reporting the backend's MAC address, link
    /// up, one queue pair and a 1500-byte MTU.
    pub fn new(backend: N) -> (d: VirtIONet<N>)
        ensures
            d.backend == backend,
            d.config.mac == backend.mac(),
            d.config.status == 1,
            d.config.max_virtqueue_pairs == 1,
            d.config.mtu == 1500,
            d.gro_buffer@.len() == 0,
            d.gro_frames_in == 0,
            d.gro_segments_out == 0,
    {
        let mac = backend.mac_address();
        VirtIONet {
            backend,
            config: VirtIONetConfig { mac, status: 1, max_virtqueue_pairs: 1, mtu: 1500 },
            gro_buffer: Vec::new(),
            gro_frames_in: 0,
            gro_segments_out: 0,
        }
    }

    /// Writes `frame` into a receive chain: the header (see `rx_header`)
    /// at the start of the first buffer, then the frame, spread over the
    /// rest of the first buffer and the following ones while it lasts.
    /// Answers the bytes written: the header and as much of the frame as
    /// there was room for.
    fn write_rx_frame(mem: &mut Memory, chain: &Vec<VirtqDesc>, frame: &[u8], gso: Option<GsoMeta>) -> (r: Result<u32, Trap>)
        requires
            chain@.len() >= 1,
            frame@.len() <= MAX_RX_FRAME,
        ensures
            final(mem).view().len() == old(mem).view().len(),
            r matches Ok(w) ==> w == VIRTIO_NET_HDR_SIZE + if frame@.len() < rx_room(chain@) {
                frame@.len() as int
            } else {
                rx_room(chain@)
            },
            r is Ok ==> final(mem).view() == rx_stored(old(mem).view(), chain@, frame@, rx_header(gso), chain@.len() as int),
            match rx_fault(old(mem).view().len(), chain@, frame@.len() as int, chain@.len() as int) {
                Some(a) => r == Err::<u32, Trap>(Trap::StoreAccessFault(a)),
                None => r is Ok,
            },
    {
        let hdr = match gso {
            Some(g) => VirtioNetHdr {
                flags: VIRTIO_NET_HDR_F_NEEDS_CSUM,
                gso_type: VIRTIO_NET_HDR_GSO_TCPV4,
                hdr_len: g.hdr_len,
                gso_size: g.mss,
                csum_start: g.csum_start,
                csum_offset: 16,
            },
            None => VirtioNetHdr {
                flags: VIRTIO_NET_HDR_F_DATA_VALID,
                gso_type: 0,
                hdr_len: 0,
                gso_size: 0,
                csum_start: 0,
                csum_offset: 0,
            },
        };
        let ghost m0 = mem.view();
        let ghost nm = mem.view().len();
        let ghost tot = frame@.len() as int;
        let ghost len = chain@.len() as int;
        let hw = hdr.write(mem, chain[0].addr);
        if let Err(e) = hw {
            proof {
                lemma_fault_stays(nm, chain@, tot, 0, len);
            }
            return Err(e);
        }
        let total = frame.len();
        let mut written: u32 = VIRTIO_NET_HDR_SIZE as u32;
        let mut pos: usize = 0;
        let first_len = chain[0].len as usize;
        if first_len > VIRTIO_NET_HDR_SIZE {
            let room = first_len - VIRTIO_NET_HDR_SIZE;
            let take = min_usize(total - pos, room);
            let part = sub_bytes(frame, pos, take);
            assert(chain@.subrange(0, 1).drop_last().len() == 0);
            let lr = mem.load(guest_offset(chain[0].addr).wrapping_add(VIRTIO_NET_HDR_SIZE as u64), part.as_slice());
            proof {
                assert(rx_part(chain@, tot, 0).1 == take as int);
            }
            if let Err(e) = lr {
                proof {
                    lemma_fault_stays(nm, chain@, tot, 1, len);
                }
                return Err(e);
            }
            pos = pos + take;
            written = written + take as u32;
        }
        assert(rx_fault(nm, chain@, tot, 1) is None);
        assert(rx_room(chain@.subrange(0, 1)) == if chain@[0].len > VIRTIO_NET_HDR_SIZE { chain@[0].len - VIRTIO_NET_HDR_SIZE } else { 0 });
        assert(mem.view() == rx_stored(m0, chain@, frame@, rx_header(gso), 1));
        let n = chain.len();
        let mut k: usize = 1;
        while k < n
            invariant
                n == chain@.len(),
                1 <= k <= n,
                total == frame@.len(),
                total <= MAX_RX_FRAME,
                pos <= total,
                pos == rx_taken(chain@, total as int, k as int),
                written == VIRTIO_NET_HDR_SIZE + pos,
                mem.view().len() == old(mem).view().len(),
                m0 == old(mem).view(),
                hdr == rx_header(gso),
                mem.view() == rx_stored(m0, chain@, frame@, rx_header(gso), k as int),
                nm == m0.len() && tot == total && len == n,
                rx_fault(nm, chain@, tot, k as int) is None,
            decreases n - k,
        {
            proof {
                let sub = chain@.subrange(0, k + 1);
                assert(sub.drop_last() =~= chain@.subrange(0, k as int));
            }
            if pos == total {
                proof {
                    lemma_room_grows(chain@, k as int, n as int);
                    lemma_stored_done(m0, chain@, frame@, rx_header(gso), k as int, n as int);
                    lemma_fault_done(nm, chain@, tot, k as int, n as int);
                }
                assert(chain@.subrange(0, n as int) =~= chain@);
                return Ok(written);
            }
            let d = chain[k];
            let room = d.len as usize;
            let take = min_usize(total - pos, room);
            let part = sub_bytes(frame, pos, take);
            let lr = mem.load(guest_offset(d.addr), part.as_slice());
            proof {
                assert(rx_part(chain@, tot, k as int).1 == take as int);
                assert(rx_part_stored(chain@, tot, k as int));
            }
            if let Err(e) = lr {
                proof {
                    lemma_fault_stays(nm, chain@, tot, k + 1, len);
                }
                return Err(e);
            }
            pos = pos + take;
            written = written + take as u32;
            k += 1;
        }
        assert(chain@.subrange(0, n as int) =~= chain@);
        Ok(written)
    }
}

/// Once the whole frame is stored, the further buffers change nothing.
proof fn lemma_stored_done(mem: Seq<u8>, chain: Seq<VirtqDesc>, frame: Seq<u8>, hdr: VirtioNetHdr, k: int, n: int)
    requires
        1 <= k <= n <= chain.len(),
        rx_taken(chain, frame.len() as int, k) == frame.len(),
    ensures
        rx_stored(mem, chain, frame, hdr, n) == rx_stored(mem, chain, frame, hdr, k),
        rx_taken(chain, frame.len() as int, n) == frame.len(),
    decreases n - k,
{
    if k < n {
        lemma_room_grows(chain, k, k + 1);
        let sub = chain.subrange(0, k + 1);
        assert(sub.drop_last() =~= chain.subrange(0, k));
        lemma_stored_done(mem, chain, frame, hdr, k + 1, n);
    }
}

/// Once the first buffers take the whole frame, so do more of them.
proof fn lemma_taken_stays(chain: Seq<VirtqDesc>, total: int, k: int, j: int)
    requires
        1 <= k <= j <= chain.len(),
        rx_taken(chain, total, k) == total,
    ensures
        rx_taken(chain, total, j) == total,
{
    lemma_room_grows(chain, k, j);
}

/// Room only grows along a chain.
proof fn lemma_room_grows(chain: Seq<VirtqDesc>, k: int, n: int)
    requires
        1 <= k <= n <= chain.len(),
    ensures
        rx_room(chain.subrange(0, k)) <= rx_room(chain.subrange(0, n)),
    decreases n - k,
{
    if k < n {
        lemma_room_grows(chain, k, n - 1);
        let sub = chain.subrange(0, n);
        assert(sub.drop_last() =~= chain.subrange(0, n - 1));
    }
}


impl<N: NetworkBackend> VirtIONet<N> {
    /// Takes up to `GRO_BATCH` frames from the backend into the holding
    /// buffer (each cut to `MAX_FRAME_SIZE` bytes); answers how many came.
    fn pull_frames(&mut self) -> (added: usize)
        ensures
            added == if old(self).backend.pending().len() < GRO_BATCH {
                old(self).backend.pending().len() as int
            } else {
                GRO_BATCH as int
            },
            frames_view(final(self).gro_buffer@) == frames_view(old(self).gro_buffer@) + pulled_frames(
                old(self).backend.pending(),
            ),
            final(self).backend.pending() == old(self).backend.pending().skip(added as int),
            added <= GRO_BATCH,
            final(self).gro_buffer@.len() == old(self).gro_buffer@.len() + added,
            final(self).gro_buffer@.subrange(0, old(self).gro_buffer@.len() as int) == old(self).gro_buffer@,
            forall|i: int|
                old(self).gro_buffer@.len() <= i < final(self).gro_buffer@.len()
                    ==> #[trigger] final(self).gro_buffer@[i]@.len() <= MAX_FRAME_SIZE,
            *final(self) == (VirtIONet { backend: final(self).backend, gro_buffer: final(self).gro_buffer, ..*old(self) }),
    {
        let mut added: usize = 0;
        while added < GRO_BATCH
            invariant
                added <= GRO_BATCH,
                self.gro_buffer@.len() == old(self).gro_buffer@.len() + added,
                self.gro_buffer@.subrange(0, old(self).gro_buffer@.len() as int) == old(self).gro_buffer@,
                forall|i: int|
                    old(self).gro_buffer@.len() <= i < self.gro_buffer@.len() ==> #[trigger] self.gro_buffer@[i]@.len()
                        <= MAX_FRAME_SIZE,
                *self == (VirtIONet { backend: self.backend, gro_buffer: self.gro_buffer, ..*old(self) }),
                added <= old(self).backend.pending().len(),
                self.backend.pending() == old(self).backend.pending().skip(added as int),
                frames_view(self.gro_buffer@) == frames_view(old(self).gro_buffer@) + old(self).backend.pending().take(
                    added as int,
                ).map_values(|f: Seq<u8>| cut_frame(f)),
            ensures
                added == GRO_BATCH || added == old(self).backend.pending().len(),
            decreases GRO_BATCH - added,
        {
            let ghost pend = old(self).backend.pending();
            let frame = match self.backend.recv() {
                Some(f) => f,
                None => {
                    proof {
                        assert(pend.take(added as int) =~= pend.take(pend.len() as int));
                    }
                    break;
                },
            };
            proof {
                assert(frame@ == pend[added as int]);
                assert(pend.skip(added as int).drop_first() =~= pend.skip(added + 1));
            }
            let frame = if frame.len() > MAX_FRAME_SIZE {
                sub_bytes(frame.as_slice(), 0, MAX_FRAME_SIZE)
            } else {
                frame
            };
            let ghost before = self.gro_buffer@;
            proof {
                assert(frame@ == cut_frame(pend[added as int]));
            }
            self.gro_buffer.push(frame);
            proof {
                assert(frames_view(self.gro_buffer@) =~= frames_view(before).push(frame@));
                assert(pend.take(added + 1).map_values(|f: Seq<u8>| cut_frame(f)) =~= pend.take(
                    added as int,
                ).map_values(|f: Seq<u8>| cut_frame(f)).push(cut_frame(pend[added as int])));
            }
            assert(self.gro_buffer@.subrange(0, old(self).gro_buffer@.len() as int) =~= before.subrange(
                0,
                old(self).gro_buffer@.len() as int,
            ));
            added += 1;
        }
        proof {
            let pend = old(self).backend.pending();
            assert(pulled_frames(pend) =~= pend.take(added as int).map_values(|f: Seq<u8>| cut_frame(f)));
        }
        added
    }

    /// Receives frames for the guest. Nothing happens on a queue that is
    /// not ready. Without TSO4 negotiated (`driver_features`), each frame
    /// the backend has goes into the next available buffer chain. With
    /// it, up to `GRO_BATCH` frames join the holding buffer, which is
    /// delivered, merged by `gro_coalesce`, once it holds 32 frames or no
    /// new frame came; segments beyond the available buffers are dropped.
    /// Answers whether anything was delivered.
    pub fn drain_rx(&mut self, mem: &mut Memory, driver_features: u64, queue: &mut VirtQueue) -> (r: Result<bool, Trap>)
        requires
            old(queue).size > 0,
        ensures
            final(mem).view().len() == old(mem).view().len(),
            final(queue).size == old(queue).size,
            final(queue).ready == old(queue).ready,
            final(queue).desc_table == old(queue).desc_table,
            final(queue).avail_ring == old(queue).avail_ring,
            final(queue).used_ring == old(queue).used_ring,
            final(queue).event_idx_enabled == old(queue).event_idx_enabled,
            final(self).config == old(self).config,
            rx_drained(
                *old(self),
                *final(self),
                driver_features,
                old(mem).view(),
                *old(queue),
                final(mem).view(),
                *final(queue),
                r,
            ),
    {
        if !queue.ready {
            return Ok(false);
        }
        let gro_enabled = (driver_features & VIRTIO_NET_F_GUEST_TSO4) != 0;
        if !gro_enabled {
            return self.drain_rx_simple(mem, queue);
        }
        let ghost d0 = *self;
        let added = self.pull_frames();
        let ghost pulled = pulled_frames(d0.backend.pending());
        let held = self.gro_buffer.len();
        let should_deliver = held >= 32 || held >= GRO_BATCH || (added == 0 && held > 0);
        if !should_deliver || held == 0 {
            proof {
                assert(gro_received(d0, *self, mem.view(), *queue, mem.view(), *queue, Ok::<bool, Trap>(false))) by {
                    assert(gro_held(d0, pulled) == frames_view(self.gro_buffer@));
                }
            }
            return Ok(false);
        }
        let mut frames: Vec<Vec<u8>> = Vec::new();
        std::mem::swap(&mut frames, &mut self.gro_buffer);
        self.gro_frames_in = self.gro_frames_in.wrapping_add(frames.len() as u64);
        let coalesced = gro_coalesce(&frames);
        self.gro_segments_out = self.gro_segments_out.wrapping_add(coalesced.len() as u64);
        proof {
            assert(outputs_view(coalesced@) == spec_gro(gro_held(d0, pulled)));
        }
        Self::deliver_segments(mem, queue, &coalesced)
    }

    /// Delivers merged segments in order, each into the next available
    /// receive chain, until the chains run out (see `segments_delivered`).
    fn deliver_segments(mem: &mut Memory, queue: &mut VirtQueue, coalesced: &Vec<GroOutput>) -> (r: Result<bool, Trap>)
        requires
            old(queue).size > 0,
        ensures
            final(mem).view().len() == old(mem).view().len(),
            final(queue).size == old(queue).size,
            final(queue).ready == old(queue).ready,
            final(queue).desc_table == old(queue).desc_table,
            final(queue).avail_ring == old(queue).avail_ring,
            final(queue).used_ring == old(queue).used_ring,
            final(queue).event_idx_enabled == old(queue).event_idx_enabled,
            segments_delivered(old(mem).view(), *old(queue), outputs_view(coalesced@), final(mem).view(), *final(queue), r),
    {
        let ghost segs = outputs_view(coalesced@);
        proof {
            assert(segs.len() == coalesced@.len());
        }
        let mut triggered = false;
        let count = coalesced.len();
        let mut i: usize = 0;
        let ghost mut ms: Seq<Seq<u8>> = seq![mem.view()];
        let ghost mut qs: Seq<VirtQueue> = seq![*queue];
        let ghost mut items: Seq<Option<(Seq<u8>, Option<GsoMeta>)>> = Seq::empty();
        let ghost mut rs: Seq<Result<bool, Trap>> = Seq::empty();
        while i < count
            invariant_except_break
                rs.len() == i,
                forall|j: int| #![trigger rs[j]] 0 <= j < rs.len() ==> rs[j] == Ok::<bool, Trap>(true),
            invariant
                count == coalesced@.len(),
                segs == outputs_view(coalesced@),
                segs.len() == count,
                i <= count,
                mem.view().len() == old(mem).view().len(),
                queue.size == old(queue).size && queue.ready == old(queue).ready,
                queue.desc_table == old(queue).desc_table && queue.avail_ring == old(queue).avail_ring,
                queue.used_ring == old(queue).used_ring,
                queue.event_idx_enabled == old(queue).event_idx_enabled,
                old(queue).size > 0,
                triggered == (i > 0),
                rx_run(ms, qs, items, rs),
                rs.len() <= count,
                forall|j: int| #![trigger items[j]] 0 <= j < items.len() ==> items[j] == Some(segs[j]),
                ms[0] == old(mem).view() && qs[0] == *old(queue),
                ms.last() == mem.view() && qs.last() == *queue,
            ensures
                mem.view().len() == old(mem).view().len(),
                rx_run(ms, qs, items, rs),
                rs.len() <= count,
                forall|j: int| #![trigger items[j]] 0 <= j < items.len() ==> items[j] == Some(segs[j]),
                rs.len() < count ==> rs.len() >= 1 && rs.last() != Ok::<bool, Trap>(true),
                rx_outcome(rs) == Ok::<bool, Trap>(triggered),
                ms[0] == old(mem).view() && qs[0] == *old(queue),
                ms.last() == mem.view() && qs.last() == *queue,
            decreases count - i,
        {
            let ghost m0 = mem.view();
            let ghost q0 = *queue;
            let ghost it = Some(segs[i as int]);
            let popped_r = queue.pop_descriptor(mem);
            let ghost qp = *queue;
            proof {
                assert(popped(q0, m0, qp, popped_r));
            }
            let (desc_head, head_desc) = match popped_r {
                Ok(Some(p)) => p,
                Ok(None) => {
                    proof {
                        assert(rx_turn(m0, q0, it, m0, qp, Ok::<bool, Trap>(false)));
                        lemma_rx_run_push(ms, qs, items, rs, m0, qp, it, Ok::<bool, Trap>(false));
                        ms = ms.push(m0);
                        qs = qs.push(qp);
                        items = items.push(it);
                        rs = rs.push(Ok::<bool, Trap>(false));
                    }
                    break;
                },
                Err(e) => {
                    proof {
                        assert(rx_turn(m0, q0, it, m0, qp, Err::<bool, Trap>(e)));
                        lemma_rx_run_push(ms, qs, items, rs, m0, qp, it, Err::<bool, Trap>(e));
                        ms = ms.push(m0);
                        qs = qs.push(qp);
                        items = items.push(it);
                        rs = rs.push(Err::<bool, Trap>(e));
                        lemma_segments_fault(old(mem).view(), *old(queue), segs, ms, qs, items, rs, e);
                    }
                    return Err(e);
                },
            };
            let chain_r = collect_chain(mem, queue, head_desc);
            proof {
                assert(popped_r == Ok::<Option<(u16, VirtqDesc)>, Trap>(Some((desc_head, head_desc))));
            }
            let chain = match chain_r {
                Ok(c) => c,
                Err(e) => {
                    proof {
                        assert(rx_turn(m0, q0, it, m0, qp, Err::<bool, Trap>(e)));
                        lemma_rx_run_push(ms, qs, items, rs, m0, qp, it, Err::<bool, Trap>(e));
                        ms = ms.push(m0);
                        qs = qs.push(qp);
                        items = items.push(it);
                        rs = rs.push(Err::<bool, Trap>(e));
                        lemma_segments_fault(old(mem).view(), *old(queue), segs, ms, qs, items, rs, e);
                    }
                    return Err(e);
                },
            };
            proof {
                assert(gathered(m0, qp, head_desc) == Ok::<Seq<VirtqDesc>, Trap>(chain@));
            }
            let output = &coalesced[i];
            proof {
                assert(it == Some((output.frame@, output.gso)));
            }
            let wr = if chain.len() >= 1 && output.frame.len() <= MAX_RX_FRAME {
                Self::write_rx_frame(mem, &chain, output.frame.as_slice(), output.gso)
            } else {
                Ok(0)
            };
            let ghost mm = mem.view();
            proof {
                assert(rx_frame_written(m0, chain@, it, mm, wr));
            }
            let written = match wr {
                Ok(n) => n,
                Err(e) => {
                    proof {
                        lemma_rx_turn_stored(m0, q0, qp, popped_r, desc_head, head_desc, chain@, output.frame@, output.gso, mm, wr, mm, Ok(()), Err::<bool, Trap>(e));
                        lemma_rx_run_push(ms, qs, items, rs, mm, qp, it, Err::<bool, Trap>(e));
                        ms = ms.push(mm);
                        qs = qs.push(qp);
                        items = items.push(it);
                        rs = rs.push(Err::<bool, Trap>(e));
                        lemma_segments_fault(old(mem).view(), *old(queue), segs, ms, qs, items, rs, e);
                    }
                    return Err(e);
                },
            };
            let w = write_used_ring(mem, queue, desc_head, written);
            proof {
                let res = match w {
                    Err(e) => Err::<bool, Trap>(e),
                    Ok(_) => Ok(true),
                };
                assert(used_written(mm, qp, desc_head, written, mem.view(), w));
                lemma_rx_turn_stored(m0, q0, qp, popped_r, desc_head, head_desc, chain@, output.frame@, output.gso, mm, wr, mem.view(), w, res);
                lemma_rx_run_push(ms, qs, items, rs, mem.view(), qp, it, res);
                ms = ms.push(mem.view());
                qs = qs.push(qp);
                items = items.push(it);
                rs = rs.push(res);
            }
            if let Err(e) = w {
                proof {
                    lemma_segments_fault(old(mem).view(), *old(queue), segs, ms, qs, items, rs, e);
                }
                return Err(e);
            }
            triggered = true;
            i += 1;
        }
        proof {
            assert(rx_run(ms, qs, items, rs));
        }
        Ok(triggered)
    }

    /// Receiving without merging: each frame from the backend goes into
    /// the next available chain, until either runs out (see
    /// `rx_received`).
    fn drain_rx_simple(&mut self, mem: &mut Memory, queue: &mut VirtQueue) -> (r: Result<bool, Trap>)
        requires
            old(queue).size > 0,
        ensures
            final(mem).view().len() == old(mem).view().len(),
            final(queue).size == old(queue).size,
            final(queue).ready == old(queue).ready,
            final(queue).desc_table == old(queue).desc_table,
            final(queue).avail_ring == old(queue).avail_ring,
            final(queue).used_ring == old(queue).used_ring,
            final(queue).event_idx_enabled == old(queue).event_idx_enabled,
            *final(self) == (VirtIONet { backend: final(self).backend, ..*old(self) }),
            rx_received(old(mem).view(), *old(queue), final(mem).view(), *final(queue), r),
    {
        let mut triggered = false;
        let mut count: u16 = 0;
        let ghost mut ms: Seq<Seq<u8>> = seq![mem.view()];
        let ghost mut qs: Seq<VirtQueue> = seq![*queue];
        let ghost mut items: Seq<Option<(Seq<u8>, Option<GsoMeta>)>> = Seq::empty();
        let ghost mut rs: Seq<Result<bool, Trap>> = Seq::empty();
        while count < u16::MAX
            invariant_except_break
                rs.len() == count,
                forall|i: int| #![trigger rs[i]] 0 <= i < rs.len() ==> rs[i] == Ok::<bool, Trap>(true),
            invariant
                mem.view().len() == old(mem).view().len(),
                queue.size == old(queue).size && queue.ready == old(queue).ready,
                queue.desc_table == old(queue).desc_table && queue.avail_ring == old(queue).avail_ring,
                queue.used_ring == old(queue).used_ring,
                queue.event_idx_enabled == old(queue).event_idx_enabled,
                old(queue).size > 0,
                *self == (VirtIONet { backend: self.backend, ..*old(self) }),
                triggered == (count > 0),
                rx_run(ms, qs, items, rs),
                ms[0] == old(mem).view() && qs[0] == *old(queue),
                ms.last() == mem.view() && qs.last() == *queue,
                forall|i: int|
                    #![trigger items[i]]
                    0 <= i < items.len() ==> (items[i] matches Some((f, g)) ==> f.len() <= MAX_FRAME_SIZE && g is None),
            ensures
                mem.view().len() == old(mem).view().len(),
                rx_run(ms, qs, items, rs),
                1 <= rs.len() <= 65535,
                rs.last() == Ok::<bool, Trap>(true) ==> rs.len() == 65535,
                rx_outcome(rs) == Ok::<bool, Trap>(triggered),
            decreases u16::MAX - count,
        {
            let ghost m0 = mem.view();
            let ghost q0 = *queue;
            let popped_r = queue.pop_descriptor(mem);
            let ghost qp = *queue;
            proof {
                assert(popped(q0, m0, qp, popped_r));
            }
            let (desc_head, head_desc) = match popped_r {
                Ok(Some(p)) => p,
                Ok(None) => {
                    proof {
                        let it = None::<(Seq<u8>, Option<GsoMeta>)>;
                        assert(rx_turn(m0, q0, it, m0, qp, Ok::<bool, Trap>(false)));
                        lemma_rx_run_push(ms, qs, items, rs, m0, qp, it, Ok::<bool, Trap>(false));
                        ms = ms.push(m0);
                        qs = qs.push(qp);
                        items = items.push(it);
                        rs = rs.push(Ok::<bool, Trap>(false));
                    }
                    break;
                },
                Err(e) => {
                    proof {
                        let it = None::<(Seq<u8>, Option<GsoMeta>)>;
                        assert(rx_turn(m0, q0, it, m0, qp, Err::<bool, Trap>(e)));
                        lemma_rx_run_push(ms, qs, items, rs, m0, qp, it, Err::<bool, Trap>(e));
                        ms = ms.push(m0);
                        qs = qs.push(qp);
                        items = items.push(it);
                        rs = rs.push(Err::<bool, Trap>(e));
                        assert(rx_received(old(mem).view(), *old(queue), mem.view(), *queue, Err::<bool, Trap>(e)));
                    }
                    return Err(e);
                },
            };
            let frame = match self.backend.recv() {
                Some(f) => f,
                None => {
                    queue.unpop();
                    proof {
                        let it = None::<(Seq<u8>, Option<GsoMeta>)>;
                        assert(rx_turn(m0, q0, it, m0, *queue, Ok::<bool, Trap>(false)));
                        lemma_rx_run_push(ms, qs, items, rs, m0, *queue, it, Ok::<bool, Trap>(false));
                        ms = ms.push(m0);
                        qs = qs.push(*queue);
                        items = items.push(it);
                        rs = rs.push(Ok::<bool, Trap>(false));
                    }
                    break;
                },
            };
            let frame = if frame.len() > MAX_FRAME_SIZE {
                sub_bytes(frame.as_slice(), 0, MAX_FRAME_SIZE)
            } else {
                frame
            };
            let ghost it = Some((frame@, None::<GsoMeta>));
            let chain_r = collect_chain(mem, queue, head_desc);
            proof {
                assert(popped_r == Ok::<Option<(u16, VirtqDesc)>, Trap>(Some((desc_head, head_desc))));
            }
            let chain = match chain_r {
                Ok(c) => c,
                Err(e) => {
                    proof {
                        assert(rx_turn(m0, q0, it, m0, qp, Err::<bool, Trap>(e)));
                        lemma_rx_run_push(ms, qs, items, rs, m0, qp, it, Err::<bool, Trap>(e));
                        ms = ms.push(m0);
                        qs = qs.push(qp);
                        items = items.push(it);
                        rs = rs.push(Err::<bool, Trap>(e));
                        assert(rx_received(old(mem).view(), *old(queue), mem.view(), *queue, Err::<bool, Trap>(e)));
                    }
                    return Err(e);
                },
            };
            proof {
                assert(gathered(m0, qp, head_desc) == Ok::<Seq<VirtqDesc>, Trap>(chain@));
            }
            let wr = if chain.len() >= 1 {
                Self::write_rx_frame(mem, &chain, frame.as_slice(), None)
            } else {
                Ok(0)
            };
            let ghost mm = mem.view();
            proof {
                assert(rx_frame_written(m0, chain@, it, mm, wr));
                assert(match popped_r {
                    Ok(Some((head, desc))) => head == desc_head && match gathered(m0, qp, desc) {
                        Ok(c2) => c2 == chain@,
                        _ => false,
                    },
                    _ => false,
                });
                assert(popped(q0, m0, qp, popped_r));
            }
            let written = match wr {
                Ok(n) => n,
                Err(e) => {
                    proof {
                        lemma_rx_turn_stored(m0, q0, qp, popped_r, desc_head, head_desc, chain@, frame@, None, mm, wr, mm, Ok(()), Err::<bool, Trap>(e));
                        lemma_rx_run_push(ms, qs, items, rs, mm, qp, it, Err::<bool, Trap>(e));
                        ms = ms.push(mm);
                        qs = qs.push(qp);
                        items = items.push(it);
                        rs = rs.push(Err::<bool, Trap>(e));
                        assert(rx_received(old(mem).view(), *old(queue), mem.view(), *queue, Err::<bool, Trap>(e)));
                    }
                    return Err(e);
                },
            };
            let w = write_used_ring(mem, queue, desc_head, written);
            proof {
                let res = match w {
                    Err(e) => Err::<bool, Trap>(e),
                    Ok(_) => Ok(true),
                };
                assert(used_written(mm, qp, desc_head, written, mem.view(), w));
                lemma_rx_turn_stored(m0, q0, qp, popped_r, desc_head, head_desc, chain@, frame@, None, mm, wr, mem.view(), w, res);
                lemma_rx_run_push(ms, qs, items, rs, mem.view(), qp, it, res);
                ms = ms.push(mem.view());
                qs = qs.push(qp);
                items = items.push(it);
                rs = rs.push(res);
            }
            if let Err(e) = w {
                proof {
                    assert(rx_received(old(mem).view(), *old(queue), mem.view(), *queue, Err::<bool, Trap>(e)));
                }
                return Err(e);
            }
            triggered = true;
            count += 1;
        }
        Ok(triggered)
    }
}

/// Once gathering a transmit frame fails, gathering more buffers fails too.
proof fn lemma_tx_frame_fails(mem: Seq<u8>, chain: Seq<VirtqDesc>, k: int, n: int)
    requires
        1 <= k <= n,
        tx_frame(mem, chain, k) is None,
    ensures
        tx_frame(mem, chain, n) is None,
    decreases n - k,
{
    if k < n {
        lemma_tx_frame_fails(mem, chain, k + 1, n);
    }
}

impl<N: NetworkBackend> VirtIODevice for VirtIONet<N> {
    fn device_id(&self) -> (id: u32)
        ensures
            id == VIRTIO_DEVICE_NET,
    {
        VIRTIO_DEVICE_NET
    }

    fn host_features(&self) -> (f: u64)
        ensures
            f == NET_HOST_FEATURES,
    {
        NET_HOST_FEATURES
    }

    fn read_config32(&self, offset: u64) -> (v: u32)
        ensures
            v == self.config.spec_read32(offset),
    {
        self.config.read32(offset)
    }

    /// A transmit chain handled (see `process_descriptor_chain`): RAM is
    /// only read, and nothing but the backend changes.
    open spec fn chain_handled(
        &self,
        mem: Seq<u8>,
        chain: Seq<VirtqDesc>,
        queue_idx: u16,
        after: &Self,
        mem_after: Seq<u8>,
        r: Result<u32, Trap>,
    ) -> bool {
        &&& (mem_after == mem)
        &&& (queue_idx == 0 || chain.len() == 0 ==> r == Ok::<u32, Trap>(0) && *after == *self)
        &&& (queue_idx != 0 && chain.len() > 0 ==> (r is Ok <==> VirtioNetHdr::spec_read(mem, chain[0].addr) is Ok
            && tx_frame(mem, chain, chain.len() as int) is Some))
        &&& (queue_idx != 0 && chain.len() > 0 ==> (r is Ok ==> r == Ok::<u32, Trap>(chain[0].len)))
        &&& (*after == (VirtIONet { backend: after.backend, ..*self }))
    }

    /// Transmits one frame from queue 1 (queue 0 receives and has nothing
    /// to do here): the frame the chain carries (see `tx_frame`) goes to
    /// the backend. Guest memory is only read; answers the length of the
    /// first buffer.
    fn process_descriptor_chain(&mut self, mem: &mut Memory, chain: &Vec<VirtqDesc>, queue_idx: u16) -> (r: Result<u32, Trap>) {
        if queue_idx == 0 || chain.len() == 0 {
            return Ok(0);
        }
        let header_desc = chain[0];
        let _hdr = VirtioNetHdr::read(mem, header_desc.addr)?;
        let mut packet: Vec<u8> = Vec::new();
        let hdr_len = VIRTIO_NET_HDR_SIZE as u32;
        if header_desc.len > hdr_len {
            let payload_len = (header_desc.len - hdr_len) as usize;
            let mut buf = vec![0u8; payload_len];
            let got = mem.read_bulk(guest_offset(header_desc.addr).wrapping_add(hdr_len as u64), buf.as_mut_slice());
            if got.is_err() {
                proof {
                    lemma_tx_frame_fails(mem.view(), chain@, 1, chain@.len() as int);
                }
                return Err(got.unwrap_err());
            }
            packet.append(&mut buf);
        }
        assert(tx_frame(mem.view(), chain@, 1) == Some(packet@));
        let n = chain.len();
        let mut k: usize = 1;
        while k < n
            invariant
                n == chain@.len(),
                1 <= k <= n,
                queue_idx != 0,
                mem.view() == old(mem).view(),
                VirtioNetHdr::spec_read(mem.view(), chain@[0].addr) is Ok,
                tx_frame(mem.view(), chain@, k as int) == Some(packet@),
            decreases n - k,
        {
            let d = chain[k];
            let mut buf = vec![0u8; d.len as usize];
            let got = mem.read_bulk(guest_offset(d.addr), buf.as_mut_slice());
            if got.is_err() {
                proof {
                    lemma_tx_frame_fails(mem.view(), chain@, k as int + 1, n as int);
                }
                return Err(got.unwrap_err());
            }
            packet.append(&mut buf);
            k += 1;
        }
        let _ = self.backend.send(packet.as_slice());
        Ok(header_desc.len)
    }
}

} // verus!
