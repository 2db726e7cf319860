use vstd::prelude::*;

use crate::cpu::memory::{in_bounds, spliced, Memory};
use crate::devices::virtio::block::backend::{BlockBackend, MemoryBackend};
use crate::devices::virtio::block::config::VirtIOBlkConfig;
use crate::devices::virtio::block::request::{
    spec_request_type, RequestType, VirtIOBlkReqHeader, VIRTIO_BLK_S_IOERR, VIRTIO_BLK_S_OK,
    VIRTIO_BLK_S_UNSUPP,
};
use crate::devices::virtio::descriptor::{guest_off, guest_offset, VirtqDesc};
use crate::devices::plic::Plic;
use crate::devices::virtio::device::VirtIODevice;
use crate::devices::virtio::queue::{popped, VirtQueue};
use crate::devices::virtio::transport::{
    collect_chain, drain_run, gathered, lemma_drain_run_push, reported_len, served_turn, used_written, write_used_ring,
};
use crate::trap::Trap;

verus! {

pub const VIRTIO_DEVICE_BLOCK: u32 = 2;
pub const VIRTIO_BLK_F_RO: u64 = 0x20;
pub const VIRTIO_BLK_F_FLUSH: u64 = 0x200;
pub const VIRTIO_BLK_F_CONFIG_WCE: u64 = 0x800;
/// Version 1, cache flush and indirect descriptors.
pub const BLOCK_HOST_FEATURES: u64 = 0x1_1000_0200;

/// A virtio block device over a storage backend.
pub struct VirtIOBlock<B: BlockBackend> {
    pub config: VirtIOBlkConfig,
    pub backend: B,
}

/// The bytes the data descriptors `chain[1..k]` describe, in total.
pub open spec fn data_len(chain: Seq<VirtqDesc>, k: int) -> int
    decreases k,
{
    if k <= 1 {
        0
    } else {
        data_len(chain, k - 1) + chain[k - 1].len
    }
}

/// Whether the data buffers `chain[1..k]` all lie in a RAM of `n` bytes.
pub open spec fn buffers_in_ram(chain: Seq<VirtqDesc>, k: int, n: nat) -> bool {
    forall|i: int| 1 <= i < k ==> #[trigger] in_bounds(guest_off(chain[i].addr), chain[i].len as nat, n)
}

/// The disk bytes a request can reach: its whole sectors.
pub open spec fn disk_capacity(disk: Seq<u8>) -> int {
    ((disk.len() / 512) * 512) as int
}

/// Guest RAM after a read request copied the disk from byte `start` on
/// into the data buffers `chain[1..k]`, one after the other.
pub open spec fn read_into(mem: Seq<u8>, chain: Seq<VirtqDesc>, disk: Seq<u8>, start: int, k: int) -> Seq<u8>
    decreases k,
{
    if k <= 1 {
        mem
    } else {
        let d = chain[k - 1];
        let off = start + data_len(chain, k - 1);
        spliced(read_into(mem, chain, disk, start, k - 1), guest_off(d.addr) as int, disk.subrange(off, off + d.len))
    }
}

/// The disk after a write request stored the data buffers `chain[1..k]`
/// of guest RAM `mem`, one after the other, from byte `start` on.
pub open spec fn written_from(disk: Seq<u8>, chain: Seq<VirtqDesc>, mem: Seq<u8>, start: int, k: int) -> Seq<u8>
    decreases k,
{
    if k <= 1 {
        disk
    } else {
        let d = chain[k - 1];
        let off = start + data_len(chain, k - 1);
        let at = guest_off(d.addr) as int;
        spliced(written_from(disk, chain, mem, start, k - 1), off, mem.subrange(at, at + d.len))
    }
}

/// The length of `spliced` is that of `m` when the bytes fit.
proof fn lemma_spliced_len(m: Seq<u8>, at: int, bytes: Seq<u8>)
    requires
        0 <= at,
        at + bytes.len() <= m.len(),
    ensures
        spliced(m, at, bytes).len() == m.len(),
{
}

/// Data lengths only grow along a chain.
proof fn lemma_data_len_grows(chain: Seq<VirtqDesc>, k: int, n: int)
    requires
        k <= n,
    ensures
        data_len(chain, k) <= data_len(chain, n),
    decreases n - k,
{
    if k < n {
        lemma_data_len_grows(chain, k, n - 1);
    }
}

/// The identification string a get-id request returns: "glasshart-block"
/// padded with zeros to 20 bytes.
pub open spec fn device_id_bytes() -> Seq<u8> {
    seq![
        0x67u8, 0x6c, 0x61, 0x73, 0x73, 0x68, 0x61, 0x72, 0x74, 0x2d, 0x62, 0x6c, 0x6f, 0x63, 0x6b, 0, 0, 0, 0, 0,
    ]
}

/// The identification string the device answers with, padded with zeros
/// to 20 bytes.
fn device_id_buffer() -> (buf: [u8; 20])
    ensures
        buf@ == device_id_bytes(),
{
    let buf: [u8; 20] = [
        0x67, 0x6c, 0x61, 0x73, 0x73, 0x68, 0x61, 0x72, 0x74, 0x2d, 0x62, 0x6c, 0x6f, 0x63, 0x6b, 0, 0, 0, 0, 0,
    ];
    assert(buf@ =~= device_id_bytes());
    buf
}

/// What a write request stores, the disk then holds where the request
/// put it: each data buffer `chain[i]` (`1 <= i < k`) of guest RAM `mem`
/// is found on the disk at `start + data_len(chain, i)`, so that a read
/// request over the same sectors gives it back (see `read_into`).
pub proof fn law_written_data_is_on_disk(disk: Seq<u8>, chain: Seq<VirtqDesc>, mem: Seq<u8>, start: int, k: int)
    requires
        1 <= k <= chain.len(),
        0 <= start,
        start + data_len(chain, k) <= disk.len(),
        forall|i: int| 1 <= i < k ==> guest_off(#[trigger] chain[i].addr) + chain[i].len <= mem.len(),
    ensures
        written_from(disk, chain, mem, start, k).len() == disk.len(),
        forall|i: int|
            #![trigger chain[i]]
            1 <= i < k ==> written_from(disk, chain, mem, start, k).subrange(
                start + data_len(chain, i),
                start + data_len(chain, i) + chain[i].len,
            ) == mem.subrange(guest_off(chain[i].addr) as int, guest_off(chain[i].addr) + chain[i].len),
    decreases k,
{
    if k > 1 {
        lemma_data_len_grows(chain, k - 1, k);
        lemma_data_len_grows(chain, 1, k - 1);
        law_written_data_is_on_disk(disk, chain, mem, start, k - 1);
        let prev = written_from(disk, chain, mem, start, k - 1);
        let d = chain[k - 1];
        let off = start + data_len(chain, k - 1);
        let at = guest_off(d.addr) as int;
        let bytes = mem.subrange(at, at + d.len);
        assert(guest_off(chain[k - 1].addr) + chain[k - 1].len <= mem.len());
        lemma_spliced_len(prev, off, bytes);
        assert forall|i: int|
            #![trigger chain[i]]
            1 <= i < k implies written_from(disk, chain, mem, start, k).subrange(
                start + data_len(chain, i),
                start + data_len(chain, i) + chain[i].len,
            ) == mem.subrange(guest_off(chain[i].addr) as int, guest_off(chain[i].addr) + chain[i].len) by {
            let o = start + data_len(chain, i);
            let a = guest_off(chain[i].addr) as int;
            let w = written_from(disk, chain, mem, start, k);
            lemma_data_len_grows(chain, 1, i);
            if i < k - 1 {
                lemma_data_len_grows(chain, i + 1, k - 1);
                assert(guest_off(chain[i].addr) + chain[i].len <= mem.len());
                assert(w.subrange(o, o + chain[i].len) =~= prev.subrange(o, o + chain[i].len));
            } else {
                assert(w.subrange(o, o + chain[i].len) =~= bytes);
            }
        }
    }
}

/// Where a read or write request over the data buffers `chain[i..end]`
/// stops early, the disk reaching `cap` bytes and RAM `mlen` bytes: at the
/// first buffer that runs past the disk (`Some((k, true))`) or, before
/// that, lies outside RAM (`Some((k, false))`); `None` when all are
/// served.
pub open spec fn io_stop(chain: Seq<VirtqDesc>, start: int, cap: int, mlen: nat, i: int, end: int) -> Option<(int, bool)>
    decreases end - i,
{
    if i >= end {
        None
    } else if start + data_len(chain, i + 1) > cap {
        Some((i, true))
    } else if !in_bounds(guest_off(chain[i].addr), chain[i].len as nat, mlen) {
        Some((i, false))
    } else {
        io_stop(chain, start, cap, mlen, i + 1, end)
    }
}

/// Storing status byte `status` at RAM offset `off` of `m1` as the last
/// step of a request answered with `written` bytes: the outcome `r` and
/// RAM afterwards `m2`; a fault when the byte lies outside RAM.
pub open spec fn status_stored(m1: Seq<u8>, off: u64, status: u8, written: u32, m2: Seq<u8>, r: Result<u32, Trap>) -> bool {
    if in_bounds(off, 1, m1.len()) {
        r == Ok::<u32, Trap>(written) && m2 == m1.update(off as int, status)
    } else {
        r == Err::<u32, Trap>(Trap::StoreAccessFault(off)) && m2 == m1
    }
}

impl<B: BlockBackend> VirtIOBlock<B> {
    /// A device over `backend`, with its capacity in 512-byte sectors.
    pub fn new(backend: B) -> (d: VirtIOBlock<B>)
        ensures
            d.config.capacity == backend.view().len() / 512,
            d.config.blk_size == 512,
            d.config.size_max == 0,
            d.config.seg_max == 0,
            d.config.geometry@ == seq![0u8, 0, 0, 0],
            d.backend == backend,
    {
        let capacity = backend.sector_count();
        VirtIOBlock {
            config: VirtIOBlkConfig {
                capacity,
                size_max: 0,
                seg_max: 0,
                geometry: [0u8; 4],
                blk_size: 512,
            },
            backend,
        }
    }

    /// The configuration-space word at `offset`: capacity (two words),
    /// size_max, seg_max and blk_size; anything else reads 0.
    pub open spec fn spec_config32(&self, offset: u64) -> u32 {
        if offset == 0x00 {
            self.config.capacity as u32
        } else if offset == 0x04 {
            (self.config.capacity >> 32) as u32
        } else if offset == 0x08 {
            self.config.size_max
        } else if offset == 0x0c {
            self.config.seg_max
        } else if offset == 0x14 {
            self.config.blk_size
        } else {
            0
        }
    }

    /// Copies sectors from the backend into guest buffers (a read request):
    /// the data buffers `chain[1..n - 1]` get the disk's bytes from byte
    /// `start` on, one after the other. A request that runs past the disk
    /// ends with an I/O error (after the buffers before it were filled); a
    /// buffer outside RAM faults.
    fn serve_in(&self, mem: &mut Memory, chain: &Vec<VirtqDesc>, start: u64) -> (r: Result<(u8, u32), Trap>)
        requires
            chain@.len() >= 2,
        ensures
            final(mem).view().len() == old(mem).view().len(),
            ({
                let n = chain@.len() as int;
                let m0 = old(mem).view();
                let disk = self.backend.view();
                match io_stop(chain@, start as int, disk_capacity(disk), m0.len(), 1, n - 1) {
                    None => r == Ok::<(u8, u32), Trap>(
                        (VIRTIO_BLK_S_OK, ((data_len(chain@, n - 1) + 1) % 0x1_0000_0000) as u32),
                    ) && final(mem).view() == read_into(m0, chain@, disk, start as int, n - 1),
                    Some((k, past_disk)) => final(mem).view() == read_into(m0, chain@, disk, start as int, k) && if past_disk {
                        r == Ok::<(u8, u32), Trap>((VIRTIO_BLK_S_IOERR, 1))
                    } else {
                        r == Err::<(u8, u32), Trap>(Trap::StoreAccessFault(guest_off(chain@[k].addr)))
                    },
                }
            }),
    {
        let n = chain.len();
        let disk = self.backend.sector_count();
        let ghost cap = disk_capacity(self.backend.view());
        let ghost m0 = mem.view();
        let mut cur = start;
        let mut total: u32 = 0;
        let mut i: usize = 1;
        proof {
            let l = self.backend.view().len();
            assert((l / 512) * 512 <= l) by (nonlinear_arith);
        }
        while i < n - 1
            invariant
                n == chain@.len(),
                n >= 2,
                1 <= i <= n - 1,
                mem.view().len() == m0.len(),
                m0 == old(mem).view(),
                disk == self.backend.view().len() / 512,
                cap == disk * 512,
                disk * 512 <= usize::MAX,
                disk * 512 <= self.backend.view().len(),
                cur == start + data_len(chain@, i as int),
                i > 1 ==> cur <= cap,
                total as int == data_len(chain@, i as int) % 0x1_0000_0000,
                mem.view() == read_into(m0, chain@, self.backend.view(), start as int, i as int),
                buffers_in_ram(chain@, i as int, m0.len()),
                io_stop(chain@, start as int, cap, m0.len(), 1, n - 1) == io_stop(
                    chain@,
                    start as int,
                    cap,
                    m0.len(),
                    i as int,
                    n - 1,
                ),
            decreases n - 1 - i,
        {
            let d = chain[i];
            let len = d.len as u64;
            if cur > disk * 512 || disk * 512 - cur < len {
                proof {
                    lemma_data_len_grows(chain@, i as int + 1, n as int - 1);
                }
                return Ok((VIRTIO_BLK_S_IOERR, 1));
            }
            let chunk = self.backend.read(cur as usize, len as usize);
            let ghost before = mem.view();
            let loaded = mem.load(guest_offset(d.addr), chunk.as_slice());
            if loaded.is_err() {
                assert(!in_bounds(guest_off(chain@[i as int].addr), chain@[i as int].len as nat, m0.len()));
                return Err(loaded.unwrap_err());
            }
            proof {
                lemma_spliced_len(before, guest_off(d.addr) as int, chunk@);
            }
            cur = cur + len;
            total = total.wrapping_add(d.len);
            i += 1;
            assert(total as int == data_len(chain@, i as int) % 0x1_0000_0000) by {
                assert(data_len(chain@, i as int) == data_len(chain@, i - 1) + chain@[i - 1].len);
            }
            assert(buffers_in_ram(chain@, i as int, m0.len()));
        }
        Ok((VIRTIO_BLK_S_OK, total.wrapping_add(1)))
    }

    /// Copies guest buffers into the backend (a write request): the data
    /// buffers `chain[1..n - 1]` are stored one after the other from disk
    /// byte `start` on. A request that runs past the disk ends with an I/O
    /// error (after the buffers before it were stored); a buffer outside
    /// RAM faults.
    fn serve_out(&mut self, mem: &Memory, chain: &Vec<VirtqDesc>, start: u64) -> (r: Result<u8, Trap>)
        requires
            chain@.len() >= 2,
        ensures
            final(self).config == old(self).config,
            final(self).backend.view().len() == old(self).backend.view().len(),
            ({
                let n = chain@.len() as int;
                let d0 = old(self).backend.view();
                match io_stop(chain@, start as int, disk_capacity(d0), mem.view().len(), 1, n - 1) {
                    None => r == Ok::<u8, Trap>(VIRTIO_BLK_S_OK) && final(self).backend.view() == written_from(
                        d0,
                        chain@,
                        mem.view(),
                        start as int,
                        n - 1,
                    ),
                    Some((k, past_disk)) => final(self).backend.view() == written_from(d0, chain@, mem.view(), start as int, k)
                        && if past_disk {
                        r == Ok::<u8, Trap>(VIRTIO_BLK_S_IOERR)
                    } else {
                        r == Err::<u8, Trap>(Trap::LoadAccessFault(guest_off(chain@[k].addr)))
                    },
                }
            }),
    {
        let n = chain.len();
        let ghost d0 = self.backend.view();
        let ghost cap = disk_capacity(d0);
        let mut cur = start;
        let mut i: usize = 1;
        while i < n - 1
            invariant
                n == chain@.len(),
                n >= 2,
                1 <= i <= n - 1,
                d0 == old(self).backend.view(),
                cap == disk_capacity(d0),
                self.config == old(self).config,
                self.backend.view().len() == d0.len(),
                cur == start + data_len(chain@, i as int),
                i > 1 ==> cur <= cap,
                self.backend.view() == written_from(d0, chain@, mem.view(), start as int, i as int),
                buffers_in_ram(chain@, i as int, mem.view().len()),
                io_stop(chain@, start as int, cap, mem.view().len(), 1, n - 1) == io_stop(
                    chain@,
                    start as int,
                    cap,
                    mem.view().len(),
                    i as int,
                    n - 1,
                ),
            decreases n - 1 - i,
        {
            let d = chain[i];
            let len = d.len as u64;
            let disk = self.backend.sector_count();
            proof {
                let l = self.backend.view().len();
                assert((l / 512) * 512 <= l) by (nonlinear_arith);
            }
            if cur > disk * 512 || disk * 512 - cur < len {
                proof {
                    lemma_data_len_grows(chain@, i as int + 1, n as int - 1);
                }
                return Ok(VIRTIO_BLK_S_IOERR);
            }
            let mut buf: Vec<u8> = vec![0u8; len as usize];
            let bulk = mem.read_bulk(guest_offset(d.addr), buf.as_mut_slice());
            if bulk.is_err() {
                assert(!in_bounds(guest_off(chain@[i as int].addr), chain@[i as int].len as nat, mem.view().len()));
                return Err(bulk.unwrap_err());
            }
            let ghost before = self.backend.view();
            self.backend.write(cur as usize, buf.as_slice());
            proof {
                lemma_spliced_len(before, cur as int, buf@);
            }
            cur = cur + len;
            i += 1;
            assert(buffers_in_ram(chain@, i as int, mem.view().len()));
        }
        Ok(VIRTIO_BLK_S_OK)
    }
}

impl<B: BlockBackend> VirtIODevice for VirtIOBlock<B> {
    fn device_id(&self) -> (id: u32)
        ensures
            id == VIRTIO_DEVICE_BLOCK,
    {
        VIRTIO_DEVICE_BLOCK
    }

    fn host_features(&self) -> (f: u64)
        ensures
            f == BLOCK_HOST_FEATURES,
    {
        BLOCK_HOST_FEATURES
    }

    fn read_config32(&self, offset: u64) -> (v: u32)
        ensures
            v == self.spec_config32(offset),
    {
        if offset == 0x00 {
            self.config.capacity as u32
        } else if offset == 0x04 {
            (self.config.capacity >> 32) as u32
        } else if offset == 0x08 {
            self.config.size_max
        } else if offset == 0x0c {
            self.config.seg_max
        } else if offset == 0x14 {
            self.config.blk_size
        } else {
            0
        }
    }

    /// A request served (see `process_descriptor_chain`): by its type,
    /// the data read from the disk into RAM, or written from RAM to the
    /// disk, and the status byte stored.
    open spec fn chain_handled(
        &self,
        mem: Seq<u8>,
        chain: Seq<VirtqDesc>,
        queue_idx: u16,
        after: &Self,
        mem_after: Seq<u8>,
        r: Result<u32, Trap>,
    ) -> bool {
        &&& (after.config == self.config)
        &&& (chain.len() == 0 ==> r == Ok::<u32, Trap>(0) && mem_after == mem
            && after.backend.view() == self.backend.view())
        &&& (chain.len() > 0 ==> match VirtIOBlkReqHeader::spec_read(mem, chain[0].addr) {
            Err(e) => r == Err::<u32, Trap>(e) && mem_after == mem
                && after.backend.view() == self.backend.view(),
            Ok(h) => {
                let n = chain.len() as int;
                let t = spec_request_type(h.request_type);
                let status_off = guest_off(chain[n - 1].addr);
                let start = h.sector * 512;
                let disk = self.backend.view();
                let refused = n < 2 || start > u64::MAX;
                let stop = io_stop(chain, start, disk_capacity(disk), mem.len(), 1, n - 1);
                &&& t != RequestType::Out ==> after.backend.view() == disk
                &&& t == RequestType::In ==> if refused {
                    status_stored(mem, status_off, VIRTIO_BLK_S_IOERR, 1, mem_after, r)
                } else {
                    match stop {
                        None => status_stored(
                            read_into(mem, chain, disk, start, n - 1),
                            status_off,
                            VIRTIO_BLK_S_OK,
                            ((data_len(chain, n - 1) + 1) % 0x1_0000_0000) as u32,
                            mem_after,
                            r,
                        ),
                        Some((k, true)) => status_stored(
                            read_into(mem, chain, disk, start, k),
                            status_off,
                            VIRTIO_BLK_S_IOERR,
                            1,
                            mem_after,
                            r,
                        ),
                        Some((k, false)) => r == Err::<u32, Trap>(Trap::StoreAccessFault(guest_off(chain[k].addr)))
                            && mem_after == read_into(mem, chain, disk, start, k),
                    }
                }
                &&& t == RequestType::Out ==> if refused {
                    after.backend.view() == disk && status_stored(mem, status_off, VIRTIO_BLK_S_IOERR, 1, mem_after, r)
                } else {
                    match stop {
                        None => after.backend.view() == written_from(disk, chain, mem, start, n - 1) && status_stored(
                            mem,
                            status_off,
                            VIRTIO_BLK_S_OK,
                            1,
                            mem_after,
                            r,
                        ),
                        Some((k, true)) => after.backend.view() == written_from(disk, chain, mem, start, k)
                            && status_stored(mem, status_off, VIRTIO_BLK_S_IOERR, 1, mem_after, r),
                        Some((k, false)) => after.backend.view() == written_from(disk, chain, mem, start, k)
                            && r == Err::<u32, Trap>(Trap::LoadAccessFault(guest_off(chain[k].addr))) && mem_after == mem,
                    }
                }
                &&& t == RequestType::Flush ==> status_stored(mem, status_off, VIRTIO_BLK_S_OK, 1, mem_after, r)
                &&& t == RequestType::GetId && n < 2 ==> status_stored(
                    mem,
                    status_off,
                    VIRTIO_BLK_S_IOERR,
                    1,
                    mem_after,
                    r,
                )
                &&& t == RequestType::GetId && n >= 2 ==> if in_bounds(guest_off(chain[1].addr), 20, mem.len()) {
                    status_stored(
                        spliced(mem, guest_off(chain[1].addr) as int, device_id_bytes()),
                        status_off,
                        VIRTIO_BLK_S_OK,
                        chain[1].len.wrapping_add(1),
                        mem_after,
                        r,
                    )
                } else {
                    r == Err::<u32, Trap>(Trap::StoreAccessFault(guest_off(chain[1].addr))) && mem_after == mem
                }
                &&& t == RequestType::Unknown ==> status_stored(mem, status_off, VIRTIO_BLK_S_UNSUPP, 1, mem_after, r)
            },
        })
    }

    /// Serves one request: the first descriptor holds the header, the last
    /// the status byte, the ones between the data. Reads and writes that
    /// run past the end of the disk, and requests that need a data buffer
    /// and have none, end with an I/O error status.
    fn process_descriptor_chain(&mut self, mem: &mut Memory, chain: &Vec<VirtqDesc>, queue_idx: u16) -> (r: Result<u32, Trap>) {
        let n = chain.len();
        if n == 0 {
            return Ok(0);
        }
        let header = VirtIOBlkReqHeader::read(mem, chain[0].addr)?;
        let req_type = RequestType::from(header.request_type);
        let status_off = guest_offset(chain[n - 1].addr);
        let start = header.sector.checked_mul(512);
        let (status, written_len): (u8, u32) = match req_type {
            RequestType::In => {
                if n < 2 || start.is_none() {
                    (VIRTIO_BLK_S_IOERR, 1)
                } else {
                    self.serve_in(mem, chain, start.unwrap())?
                }
            },
            RequestType::Out => {
                if n < 2 || start.is_none() {
                    (VIRTIO_BLK_S_IOERR, 1)
                } else {
                    (self.serve_out(mem, chain, start.unwrap())?, 1)
                }
            },
            RequestType::Flush => (VIRTIO_BLK_S_OK, 1),
            RequestType::GetId => {
                if n < 2 {
                    (VIRTIO_BLK_S_IOERR, 1)
                } else {
                    let data_desc = chain[1];
                    let buf = device_id_buffer();
                    mem.load(guest_offset(data_desc.addr), &buf)?;
                    (VIRTIO_BLK_S_OK, data_desc.len.wrapping_add(1))
                }
            },
            RequestType::Unknown => (VIRTIO_BLK_S_UNSUPP, 1),
        };
        mem.write8(status_off, status)?;
        Ok(written_len)
    }
}

impl<B: BlockBackend> VirtIOBlock<B> {
    /// Serves every request the driver made available on `queue` (at most
    /// 65535 at a time), publishing each in the used ring, then raises
    /// IRQ 1 (interrupt status bit 0) if any was served.
    pub fn process_queue(&mut self, mem: &mut Memory, queue: &mut VirtQueue, plic: &mut Plic, interrupt_status: &mut u32) -> (r: Result<(), Trap>)
        requires
            old(queue).size > 0,
        ensures
            final(mem).view().len() == old(mem).view().len(),
            queue_processed(
                *old(self),
                old(mem).view(),
                *old(queue),
                *old(plic),
                *old(interrupt_status),
                *final(self),
                final(mem).view(),
                *final(queue),
                *final(plic),
                *final(interrupt_status),
                r,
            ),
    {
        let mut served: u16 = 0;
        let _ = mem.size();
        let ghost mut ds: Seq<VirtIOBlock<B>> = seq![*self];
        let ghost mut ms: Seq<Seq<u8>> = seq![mem.view()];
        let ghost mut qs: Seq<VirtQueue> = seq![*queue];
        let ghost mut rs: Seq<Result<bool, Trap>> = Seq::empty();
        while served < u16::MAX
            invariant_except_break
                rs.len() == served,
                forall|i: int| #![trigger rs[i]] 0 <= i < rs.len() ==> rs[i] == Ok::<bool, Trap>(true),
            invariant
                mem.view().len() == old(mem).view().len(),
                mem.view().len() <= usize::MAX,
                queue.size == old(queue).size,
                old(queue).size > 0,
                *plic == *old(plic),
                *interrupt_status == *old(interrupt_status),
                drain_run(ds, ms, qs, rs, 0),
                ds[0] == *old(self) && ms[0] == old(mem).view() && qs[0] == *old(queue),
                ds.last() == *self && ms.last() == mem.view() && qs.last() == *queue,
            ensures
                mem.view().len() == old(mem).view().len(),
                *plic == *old(plic),
                *interrupt_status == *old(interrupt_status),
                drain_run(ds, ms, qs, rs, 0),
                1 <= rs.len() <= 65535,
                rs.last() == Ok::<bool, Trap>(true) ==> rs.len() == 65535 && served == 65535,
                rs.last() == Ok::<bool, Trap>(false) ==> rs.len() - 1 == served,
                rs.last() is Ok,
                ds[0] == *old(self) && ms[0] == old(mem).view() && qs[0] == *old(queue),
                ds.last() == *self && ms.last() == mem.view() && qs.last() == *queue,
            decreases u16::MAX - served,
        {
            let ghost d0 = *self;
            let ghost m0 = mem.view();
            let ghost q0 = *queue;
            let popped_r = queue.pop_descriptor(mem);
            let ghost qp = *queue;
            proof {
                assert(popped(q0, m0, qp, popped_r));
            }
            let (desc_head, head_desc) = match popped_r {
                Ok(Some(p)) => p,
                Ok(None) => {
                    proof {
                        assert(served_turn(d0, m0, q0, 0, d0, m0, qp, Ok::<bool, Trap>(false)));
                        lemma_drain_run_push(ds, ms, qs, rs, 0, d0, m0, qp, Ok::<bool, Trap>(false));
                        ds = ds.push(d0);
                        ms = ms.push(m0);
                        qs = qs.push(qp);
                        rs = rs.push(Ok::<bool, Trap>(false));
                    }
                    break;
                },
                Err(e) => {
                    proof {
                        assert(served_turn(d0, m0, q0, 0, d0, m0, qp, Err::<bool, Trap>(e)));
                        lemma_drain_run_push(ds, ms, qs, rs, 0, d0, m0, qp, Err::<bool, Trap>(e));
                        ds = ds.push(d0);
                        ms = ms.push(m0);
                        qs = qs.push(qp);
                        rs = rs.push(Err::<bool, Trap>(e));
                        assert(drain_run(ds, ms, qs, rs, 0));
                    }
                    return Err(e);
                },
            };
            let chain_r = collect_chain(mem, queue, head_desc);
            let chain = match chain_r {
                Ok(c) => c,
                Err(e) => {
                    proof {
                        assert(served_turn(d0, m0, q0, 0, d0, m0, qp, Err::<bool, Trap>(e)));
                        lemma_drain_run_push(ds, ms, qs, rs, 0, d0, m0, qp, Err::<bool, Trap>(e));
                        ds = ds.push(d0);
                        ms = ms.push(m0);
                        qs = qs.push(qp);
                        rs = rs.push(Err::<bool, Trap>(e));
                        assert(drain_run(ds, ms, qs, rs, 0));
                    }
                    return Err(e);
                },
            };
            proof {
                assert(gathered(m0, qp, head_desc) == Ok::<Seq<VirtqDesc>, Trap>(chain@));
                assert(popped_r == Ok::<Option<(u16, VirtqDesc)>, Trap>(Some((desc_head, head_desc))));
            }
            let lr = self.process_descriptor_chain(mem, &chain, 0);
            let ghost dm = *self;
            let ghost mm = mem.view();
            proof {
                assert(mm.len() == m0.len() && d0.chain_handled(m0, chain@, 0, &dm, mm, lr));
            }
            let written_len = match lr {
                Ok(n) => n,
                Err(e) => {
                    proof {
                        assert(match popped_r {
                            Ok(Some((head, desc))) => head == desc_head && match gathered(m0, qp, desc) {
                                Ok(chain2) => chain2 == chain@,
                                _ => false,
                            },
                            _ => false,
                        });
                        assert(served_turn(d0, m0, q0, 0, dm, mm, qp, Err::<bool, Trap>(e)));
                        lemma_drain_run_push(ds, ms, qs, rs, 0, dm, mm, qp, Err::<bool, Trap>(e));
                        ds = ds.push(dm);
                        ms = ms.push(mm);
                        qs = qs.push(qp);
                        rs = rs.push(Err::<bool, Trap>(e));
                        assert(drain_run(ds, ms, qs, rs, 0));
                    }
                    return Err(e);
                },
            };
            let w = write_used_ring(mem, queue, desc_head, written_len);
            proof {
                let res = match w {
                    Err(e) => Err::<bool, Trap>(e),
                    Ok(_) => Ok(true),
                };
                assert(match popped_r {
                    Ok(Some((head, desc))) => head == desc_head && match gathered(m0, qp, desc) {
                        Ok(chain2) => chain2 == chain@,
                        _ => false,
                    },
                    _ => false,
                });
                assert(used_written(mm, qp, desc_head, reported_len(0, written_len), mem.view(), w));
                assert(served_turn(d0, m0, q0, 0, dm, mem.view(), qp, res));
                lemma_drain_run_push(ds, ms, qs, rs, 0, dm, mem.view(), qp, res);
                ds = ds.push(dm);
                ms = ms.push(mem.view());
                qs = qs.push(qp);
                rs = rs.push(res);
            }
            if let Err(e) = w {
                proof {
                    assert(drain_run(ds, ms, qs, rs, 0));
                }
                return Err(e);
            }
            served += 1;
        }
        if served > 0 {
            *interrupt_status = *interrupt_status | 0x1;
            plic.trigger_interrupt(1);
        }
        Ok(())
    }
}

/// What `process_queue` does, from device `d0`, guest RAM `m0`, queue
/// `q0`, PLIC `p0` and interrupt status `s0` to `d1`, `m1`, `q1`, `p1`
/// and `s1`, with outcome `r`: turns of serving a request (see
/// `drain_run`, with the lengths written reported as they are) until one
/// finds nothing or faults, or 65535 have served one. A fault is the
/// outcome, with the PLIC and status untouched; otherwise, when any
/// request was served, status bit 0 is set and IRQ 1 raised.
pub open spec fn queue_processed<B: BlockBackend>(
    d0: VirtIOBlock<B>,
    m0: Seq<u8>,
    q0: VirtQueue,
    p0: Plic,
    s0: u32,
    d1: VirtIOBlock<B>,
    m1: Seq<u8>,
    q1: VirtQueue,
    p1: Plic,
    s1: u32,
    r: Result<(), Trap>,
) -> bool {
    exists|ds: Seq<VirtIOBlock<B>>, ms: Seq<Seq<u8>>, qs: Seq<VirtQueue>, rs: Seq<Result<bool, Trap>>|
        #![trigger drain_run(ds, ms, qs, rs, 0)]
        {
            &&& drain_run(ds, ms, qs, rs, 0)
            &&& ds[0] == d0 && ms[0] == m0 && qs[0] == q0
            &&& ds.last() == d1 && ms.last() == m1 && qs.last() == q1
            &&& 1 <= rs.len() <= 65535
            &&& rs.last() == Ok::<bool, Trap>(true) ==> rs.len() == 65535
            &&& match rs.last() {
                Err(e) => r == Err::<(), Trap>(e) && p1 == p0 && s1 == s0,
                _ => r is Ok && if rs.last() == Ok::<bool, Trap>(true) || rs.len() > 1 {
                    s1 == s0 | 1 && Plic::triggered(&p0, &p1, 1)
                } else {
                    p1 == p0 && s1 == s0
                },
            }
        }
}

impl VirtIOBlock<MemoryBackend> {
    /// Reads sector `sector` into `buffer`.
    pub fn read_sector(&self, sector: u64, buffer: &mut [u8; 512])
        requires
            (sector + 1) * 512 <= self.backend.data@.len(),
        ensures
            final(buffer)@ == self.backend.data@.subrange(sector * 512, (sector + 1) * 512),
    {
        let total = self.backend.data.len();
        assert(sector * 512 + 512 == (sector + 1) * 512) by (nonlinear_arith);
        let start = (sector * 512) as usize;
        let chunk = self.backend.read(start, 512);
        let mut i: usize = 0;
        while i < 512
            invariant
                chunk@ == self.backend.data@.subrange(start as int, start + 512),
                chunk@.len() == 512,
                start == sector * 512,
                i <= 512,
                forall|k: int| 0 <= k < i ==> buffer@[k] == chunk@[k],
            decreases 512 - i,
        {
            buffer[i] = chunk[i];
            i += 1;
        }
        assert(buffer@ =~= self.backend.data@.subrange(sector * 512, (sector + 1) * 512));
    }
}

} // verus!
