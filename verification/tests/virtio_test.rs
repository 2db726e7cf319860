use glasshart_emulator::cpu::bus::RAM_BASE;
use glasshart_emulator::cpu::memory::Memory;
use glasshart_emulator::devices::plic::Plic;
use glasshart_emulator::devices::virtio::block::backend::MemoryBackend;
use glasshart_emulator::devices::virtio::block::device::VirtIOBlock;
use glasshart_emulator::devices::virtio::descriptor::VirtqDesc;
use glasshart_emulator::devices::virtio::device::VirtIODevice;
use glasshart_emulator::devices::virtio::net::backend::QueueBackend;
use glasshart_emulator::devices::virtio::net::device::VirtIONet;
use glasshart_emulator::devices::virtio::net::gro::{gro_coalesce, GsoMeta};
use glasshart_emulator::devices::virtio::net::header::VirtioNetHdr;
use glasshart_emulator::devices::virtio::queue::VirtQueue;
use glasshart_emulator::trap::Trap;

/// An Ethernet + IPv4 + TCP frame (no options) of one flow.
fn tcp_frame(seq: u32, flags: u8, payload: &[u8]) -> Vec<u8> {
    let mut f = vec![0u8; 54];
    f[12] = 0x08;
    f[13] = 0x00;
    f[14] = 0x45;
    let total = (40 + payload.len()) as u16;
    f[16] = (total >> 8) as u8;
    f[17] = total as u8;
    f[22] = 64;
    f[23] = 6;
    f[26..30].copy_from_slice(&[10, 0, 0, 1]);
    f[30..34].copy_from_slice(&[10, 0, 0, 2]);
    f[34..36].copy_from_slice(&[0x1f, 0x90]);
    f[36..38].copy_from_slice(&[0xc0, 0x00]);
    f[38..42].copy_from_slice(&seq.to_be_bytes());
    f[46] = 0x50;
    f[47] = flags;
    f.extend_from_slice(payload);
    f
}

/// The one's-complement sum of the IPv4 header, with carries folded.
fn ip_header_sum(f: &[u8]) -> u32 {
    let mut sum: u32 = 0;
    for i in (14..34).step_by(2) {
        sum += ((f[i] as u32) << 8) | f[i + 1] as u32;
    }
    while sum >> 16 != 0 {
        sum = (sum & 0xFFFF) + (sum >> 16);
    }
    sum
}

#[test]
fn gro_merges_consecutive_segments() {
    let a = tcp_frame(1000, 0x10, &[1u8; 10]);
    let b = tcp_frame(1010, 0x10, &[2u8; 5]);
    let out = gro_coalesce(&vec![a.clone(), b]);
    assert_eq!(out.len(), 1);
    let m = &out[0];
    assert_eq!(m.gso, Some(GsoMeta { hdr_len: 54, mss: 10, csum_start: 34 }));
    assert_eq!(m.frame.len(), 54 + 15);
    assert_eq!(&m.frame[..14], &a[..14]);
    assert_eq!(&m.frame[54..64], &[1u8; 10]);
    assert_eq!(&m.frame[64..69], &[2u8; 5]);
    // IPv4 total length: 20 + 20 + 15.
    assert_eq!(m.frame[16], 0);
    assert_eq!(m.frame[17], 55);
    // The recomputed header checksum makes the header sum to 0xFFFF.
    assert_eq!(ip_header_sum(&m.frame), 0xFFFF);
}

#[test]
fn gro_passes_other_frames_unchanged() {
    let arp = vec![0xAAu8; 60];
    let out = gro_coalesce(&vec![arp.clone()]);
    assert_eq!(out.len(), 1);
    assert_eq!(out[0].frame, arp);
    assert_eq!(out[0].gso, None);

    let mut udp = tcp_frame(5, 0x10, &[9u8; 4]);
    udp[23] = 17;
    let t = tcp_frame(1, 0x10, &[7u8; 3]);
    let out = gro_coalesce(&vec![udp.clone(), t.clone()]);
    assert_eq!(out.len(), 2);
    assert_eq!(out[0].frame, udp);
    assert_eq!(out[1].frame, t);
    assert!(out.iter().all(|o| o.gso.is_none()));
}

#[test]
fn gro_keeps_gaps_and_syn_apart() {
    // Sequence gap: the second segment does not follow the first.
    let a = tcp_frame(100, 0x10, &[1u8; 8]);
    let b = tcp_frame(500, 0x10, &[2u8; 8]);
    let out = gro_coalesce(&vec![a.clone(), b.clone()]);
    assert_eq!(out.len(), 2);
    assert_eq!(out[0].frame, a);
    assert_eq!(out[1].frame, b);

    // A SYN segment is delivered on its own.
    let syn = tcp_frame(7, 0x02, &[3u8; 4]);
    let next = tcp_frame(11, 0x10, &[4u8; 4]);
    let out = gro_coalesce(&vec![syn.clone(), next.clone()]);
    assert_eq!(out.len(), 2);
    assert_eq!(out[0].frame, syn);
    assert_eq!(out[1].frame, next);

    assert!(gro_coalesce(&vec![]).is_empty());
}

#[test]
fn net_header_round_trips_through_memory() {
    let mut mem = Memory::new(64);
    let h = VirtioNetHdr { flags: 1, gso_type: 1, hdr_len: 54, gso_size: 1448, csum_start: 34, csum_offset: 16 };
    h.write(&mut mem, RAM_BASE + 8).unwrap();
    assert_eq!(VirtioNetHdr::read(&mem, RAM_BASE + 8), Ok(h));
    assert_eq!(mem.read16(8 + 4), Ok(1448));
    assert_eq!(mem.read8(8 + 10), Ok(0));
    // A header that does not fit in RAM is refused.
    assert_eq!(h.write(&mut mem, RAM_BASE + 60), Err(Trap::StoreAccessFault(60)));
    assert_eq!(VirtioNetHdr::zeroed().hdr_len, 0);
}

/// Stores descriptor `i` of a table at RAM offset `table`.
fn put_desc(mem: &mut Memory, table: u64, i: u64, d: VirtqDesc) {
    let at = table + 16 * i;
    mem.write64(at, d.addr).unwrap();
    mem.write32(at + 8, d.len).unwrap();
    mem.write16(at + 12, d.flags).unwrap();
    mem.write16(at + 14, d.next).unwrap();
}

/// A ready queue of 8 entries: table at 0x000, avail ring at 0x100, used
/// ring at 0x200 (RAM offsets).
fn ready_queue() -> VirtQueue {
    VirtQueue {
        size: 8,
        ready: true,
        desc_table: RAM_BASE,
        avail_ring: RAM_BASE + 0x100,
        used_ring: RAM_BASE + 0x200,
        last_avail_idx: 0,
        event_idx_enabled: false,
    }
}

/// Makes chain `head` available as avail-ring entry `slot`.
fn offer(mem: &mut Memory, slot: u64, head: u16) {
    mem.write16(0x104 + 2 * slot, head).unwrap();
    mem.write16(0x102, (slot + 1) as u16).unwrap();
}

#[test]
fn virtqueue_pop_then_unpop() {
    let mut mem = Memory::new(0x1000);
    let d = VirtqDesc { addr: RAM_BASE + 0x800, len: 64, flags: 2, next: 0 };
    put_desc(&mut mem, 0, 3, d);
    offer(&mut mem, 0, 3);
    let mut q = ready_queue();
    assert_eq!(q.has_available(&mem), Ok(true));
    assert_eq!(q.pop_descriptor(&mem), Ok(Some((3, d))));
    assert_eq!(q.last_avail_idx, 1);
    assert_eq!(q.pop_descriptor(&mem), Ok(None));
    q.unpop();
    assert_eq!(q.last_avail_idx, 0);
    assert_eq!(q.pop_descriptor(&mem), Ok(Some((3, d))));

    let mut idle = VirtQueue { ready: false, ..ready_queue() };
    assert_eq!(idle.pop_descriptor(&mem), Ok(None));
    assert_eq!(idle.has_available(&mem), Ok(false));
}

#[test]
fn block_read_request_fills_the_buffer() {
    let mut disk = vec![0u8; 4 * 512];
    for (i, b) in disk.iter_mut().enumerate() {
        *b = (i / 7) as u8;
    }
    let mut dev = VirtIOBlock::new(MemoryBackend::from_bytes(disk.clone()));
    assert_eq!(dev.config.capacity, 4);
    let mut mem = Memory::new(0x4000);
    // Header: read (type 0), sector 1.
    mem.write32(0x1000, 0).unwrap();
    mem.write64(0x1008, 1).unwrap();
    put_desc(&mut mem, 0, 0, VirtqDesc { addr: RAM_BASE + 0x1000, len: 16, flags: 1, next: 1 });
    put_desc(&mut mem, 0, 1, VirtqDesc { addr: RAM_BASE + 0x2000, len: 512, flags: 3, next: 2 });
    put_desc(&mut mem, 0, 2, VirtqDesc { addr: RAM_BASE + 0x3000, len: 1, flags: 2, next: 0 });
    mem.write8(0x3000, 0xFF).unwrap();
    offer(&mut mem, 0, 0);
    let mut q = ready_queue();
    let mut plic = Plic::new();
    let mut status: u32 = 0;
    dev.process_queue(&mut mem, &mut q, &mut plic, &mut status).unwrap();
    assert_eq!(q.last_avail_idx, 1);
    assert_eq!(status, 1);
    let mut buf = [0u8; 512];
    mem.read_bulk(0x2000, &mut buf).unwrap();
    assert_eq!(&buf[..], &disk[512..1024]);
    assert_eq!(mem.read8(0x3000), Ok(0));
    // The used ring holds the chain with 512 data bytes and the status byte.
    assert_eq!(mem.read16(0x202), Ok(1));
    assert_eq!(mem.read32(0x204), Ok(0));
    assert_eq!(mem.read32(0x208), Ok(513));
}

#[test]
fn block_read_past_the_end_is_an_io_error() {
    let mut dev = VirtIOBlock::new(MemoryBackend::new(2));
    let mut mem = Memory::new(0x4000);
    mem.write32(0x1000, 0).unwrap();
    mem.write64(0x1008, 2).unwrap();
    put_desc(&mut mem, 0, 0, VirtqDesc { addr: RAM_BASE + 0x1000, len: 16, flags: 1, next: 1 });
    put_desc(&mut mem, 0, 1, VirtqDesc { addr: RAM_BASE + 0x2000, len: 512, flags: 3, next: 2 });
    put_desc(&mut mem, 0, 2, VirtqDesc { addr: RAM_BASE + 0x3000, len: 1, flags: 2, next: 0 });
    offer(&mut mem, 0, 0);
    let mut q = ready_queue();
    let mut plic = Plic::new();
    let mut status: u32 = 0;
    dev.process_queue(&mut mem, &mut q, &mut plic, &mut status).unwrap();
    assert_eq!(mem.read8(0x3000), Ok(1));
}

#[test]
fn block_queue_with_nothing_available_stays_quiet() {
    let mut dev = VirtIOBlock::new(MemoryBackend::new(1));
    let mut mem = Memory::new(0x1000);
    let mut q = ready_queue();
    let mut plic = Plic::new();
    let mut status: u32 = 0;
    dev.process_queue(&mut mem, &mut q, &mut plic, &mut status).unwrap();
    assert_eq!(status, 0);
    assert_eq!(q.last_avail_idx, 0);
}

#[test]
fn net_receive_without_merging() {
    let mut backend = QueueBackend::new([0x52, 0x54, 0, 0x12, 0x34, 0x56]);
    let frame: Vec<u8> = (0..100u8).collect();
    backend.push_incoming(frame.clone());
    let mut dev = VirtIONet::new(backend);
    assert_eq!(dev.config.mac, [0x52, 0x54, 0, 0x12, 0x34, 0x56]);
    let mut mem = Memory::new(0x4000);
    put_desc(&mut mem, 0, 0, VirtqDesc { addr: RAM_BASE + 0x1000, len: 2048, flags: 2, next: 0 });
    offer(&mut mem, 0, 0);
    let mut q = ready_queue();
    assert_eq!(dev.drain_rx(&mut mem, 0, &mut q), Ok(true));
    // Header with DATA_VALID, then the frame.
    assert_eq!(mem.read8(0x1000), Ok(2));
    let mut buf = vec![0u8; 100];
    mem.read_bulk(0x100C, &mut buf).unwrap();
    assert_eq!(buf, frame);
    assert_eq!(mem.read16(0x202), Ok(1));
    assert_eq!(mem.read32(0x208), Ok(112));
    // Nothing more to receive.
    assert_eq!(dev.drain_rx(&mut mem, 0, &mut q), Ok(false));
}

#[test]
fn net_receive_on_an_idle_queue_does_nothing() {
    let mut backend = QueueBackend::new([0; 6]);
    backend.push_incoming(vec![1, 2, 3]);
    let mut dev = VirtIONet::new(backend);
    let mut mem = Memory::new(0x1000);
    let mut q = VirtQueue { ready: false, ..ready_queue() };
    assert_eq!(dev.drain_rx(&mut mem, 0, &mut q), Ok(false));
    assert_eq!(dev.backend.incoming.len(), 1);
}

#[test]
fn memory_unchecked_accessors() {
    let mut m = Memory::new(16);
    m.write64_unchecked(8, 0x0102_0304_0506_0708);
    assert_eq!(m.read64_unchecked(8), 0x0102_0304_0506_0708);
    assert_eq!(m.read32_unchecked(8), 0x0506_0708);
    assert_eq!(m.read16_unchecked(14), 0x0102);
    m.write8_unchecked(0, 0xAB);
    m.write16_unchecked(2, 0xBEEF);
    m.write32_unchecked(4, 0xCAFE_F00D);
    assert_eq!(m.read8_unchecked(0), 0xAB);
    assert_eq!(m.read16(2), Ok(0xBEEF));
    assert_eq!(m.read32(4), Ok(0xCAFE_F00D));
}

#[test]
fn block_write_then_read_gives_the_data_back() {
    let mut dev = VirtIOBlock::new(MemoryBackend::new(4));
    let mut mem = Memory::new(0x4000);
    let data: Vec<u8> = (0..512u32).map(|i| (i * 3) as u8).collect();
    mem.load(0x2000, &data).unwrap();
    // Write request (type 1) to sector 2.
    mem.write32(0x1000, 1).unwrap();
    mem.write64(0x1008, 2).unwrap();
    put_desc(&mut mem, 0, 0, VirtqDesc { addr: RAM_BASE + 0x1000, len: 16, flags: 1, next: 1 });
    put_desc(&mut mem, 0, 1, VirtqDesc { addr: RAM_BASE + 0x2000, len: 512, flags: 1, next: 2 });
    put_desc(&mut mem, 0, 2, VirtqDesc { addr: RAM_BASE + 0x3000, len: 1, flags: 2, next: 0 });
    offer(&mut mem, 0, 0);
    let mut q = ready_queue();
    let mut plic = Plic::new();
    let mut status: u32 = 0;
    dev.process_queue(&mut mem, &mut q, &mut plic, &mut status).unwrap();
    assert_eq!(mem.read8(0x3000), Ok(0));
    assert_eq!(&dev.backend.data[1024..1536], &data[..]);
    // Read request (type 0) of the same sector into another buffer.
    mem.write32(0x1000, 0).unwrap();
    put_desc(&mut mem, 0, 1, VirtqDesc { addr: RAM_BASE + 0x2800, len: 512, flags: 3, next: 2 });
    offer(&mut mem, 1, 0);
    dev.process_queue(&mut mem, &mut q, &mut plic, &mut status).unwrap();
    let mut back = vec![0u8; 512];
    mem.read_bulk(0x2800, &mut back).unwrap();
    assert_eq!(back, data);
    assert_eq!(mem.read16(0x202), Ok(2));
}

#[test]
fn net_transmit_gathers_the_chain() {
    let mut dev = VirtIONet::new(QueueBackend::new([0; 6]));
    let mut mem = Memory::new(0x1000);
    // First buffer: 12-byte header, then 4 frame bytes; second buffer: 3 more.
    mem.load(0x100, &[0u8; 12]).unwrap();
    mem.load(0x10C, &[1, 2, 3, 4]).unwrap();
    mem.load(0x200, &[5, 6, 7]).unwrap();
    let chain = vec![
        VirtqDesc { addr: RAM_BASE + 0x100, len: 16, flags: 1, next: 1 },
        VirtqDesc { addr: RAM_BASE + 0x200, len: 3, flags: 0, next: 0 },
    ];
    assert_eq!(dev.process_descriptor_chain(&mut mem, &chain, 1), Ok(16));
    assert_eq!(dev.backend.take_outgoing(), vec![vec![1, 2, 3, 4, 5, 6, 7]]);
    // The receive queue is not served here.
    assert_eq!(dev.process_descriptor_chain(&mut mem, &chain, 0), Ok(0));
    assert!(dev.backend.outgoing.is_empty());
    // A buffer outside RAM faults.
    let bad = vec![
        VirtqDesc { addr: RAM_BASE + 0x100, len: 16, flags: 1, next: 1 },
        VirtqDesc { addr: RAM_BASE + 0xFF0, len: 0x40, flags: 0, next: 0 },
    ];
    assert_eq!(dev.process_descriptor_chain(&mut mem, &bad, 1), Err(Trap::LoadAccessFault(0xFF0)));
}

#[test]
fn net_receive_into_a_buffer_past_ram_faults() {
    let mut backend = QueueBackend::new([0; 6]);
    backend.push_incoming((0..40u8).collect());
    let mut dev = VirtIONet::new(backend);
    let mut mem = Memory::new(0x4000);
    // The header fits at the end of RAM, the frame after it does not.
    put_desc(&mut mem, 0, 0, VirtqDesc { addr: RAM_BASE + 0x3FF0, len: 64, flags: 2, next: 0 });
    offer(&mut mem, 0, 0);
    let mut q = ready_queue();
    assert_eq!(dev.drain_rx(&mut mem, 0, &mut q), Err(Trap::StoreAccessFault(0x3FFC)));
}

#[test]
fn net_receive_with_merging_pulls_what_the_backend_holds() {
    let mut backend = QueueBackend::new([0; 6]);
    backend.push_incoming(vec![9; 60]);
    let mut dev = VirtIONet::new(backend);
    let mut mem = Memory::new(0x4000);
    put_desc(&mut mem, 0, 0, VirtqDesc { addr: RAM_BASE + 0x1000, len: 2048, flags: 2, next: 0 });
    offer(&mut mem, 0, 0);
    let mut q = ready_queue();
    // With merge negotiated (bit 7), one new frame is held back.
    assert_eq!(dev.drain_rx(&mut mem, 0x80, &mut q), Ok(false));
    assert_eq!(dev.gro_buffer.len(), 1);
    assert_eq!(dev.backend.incoming_head, 1);
    // Nothing new came: the held frame goes out.
    assert_eq!(dev.drain_rx(&mut mem, 0x80, &mut q), Ok(true));
    assert_eq!(dev.gro_buffer.len(), 0);
    assert_eq!(dev.gro_frames_in, 1);
    assert_eq!(mem.read32(0x208), Ok(72));
}

#[test]
fn block_read_without_data_buffer_is_an_io_error() {
    let mut dev = VirtIOBlock::new(MemoryBackend::new(2));
    let mut mem = Memory::new(0x4000);
    mem.write32(0x1000, 0).unwrap();
    put_desc(&mut mem, 0, 0, VirtqDesc { addr: RAM_BASE + 0x1000, len: 16, flags: 0, next: 0 });
    // A single descriptor: it is both the header and the status byte.
    let chain = vec![VirtqDesc { addr: RAM_BASE + 0x1000, len: 16, flags: 0, next: 0 }];
    assert_eq!(dev.process_descriptor_chain(&mut mem, &chain, 0), Ok(1));
    assert_eq!(mem.read8(0x1000), Ok(1));
}

#[test]
fn block_get_id_without_data_buffer_is_an_io_error() {
    let mut dev = VirtIOBlock::new(MemoryBackend::new(1));
    let mut mem = Memory::new(0x4000);
    mem.write32(0x1000, 8).unwrap();
    let chain = vec![VirtqDesc { addr: RAM_BASE + 0x1000, len: 16, flags: 0, next: 0 }];
    assert_eq!(dev.process_descriptor_chain(&mut mem, &chain, 0), Ok(1));
    assert_eq!(mem.read8(0x1000), Ok(1));
}
