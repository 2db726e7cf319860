use vstd::prelude::*;

use crate::cpu::memory::{in_bounds, spec_le16, Memory};
use crate::devices::virtio::descriptor::{guest_off, guest_offset};
use crate::trap::Trap;

verus! {

pub const VIRTIO_NET_HDR_F_NEEDS_CSUM: u8 = 1;
pub const VIRTIO_NET_HDR_F_DATA_VALID: u8 = 2;

pub const VIRTIO_NET_HDR_GSO_NONE: u8 = 0;
pub const VIRTIO_NET_HDR_GSO_TCPV4: u8 = 1;
pub const VIRTIO_NET_HDR_GSO_TCPV6: u8 = 4;

/// Bytes of the header in guest memory (the last two are padding).
pub const VIRTIO_NET_HDR_SIZE: usize = 12;

/// The header that precedes every frame on a virtio-net queue.
#[derive(Clone, Copy, Debug, PartialEq, Eq, Structural)]
pub struct VirtioNetHdr {
    pub flags: u8,
    pub gso_type: u8,
    pub hdr_len: u16,
    pub gso_size: u16,
    pub csum_start: u16,
    pub csum_offset: u16,
}

/// The 12 bytes of `h` as stored in guest memory, little-endian fields
/// followed by two zero bytes.
pub open spec fn hdr_bytes(h: VirtioNetHdr) -> Seq<u8> {
    seq![
        h.flags,
        h.gso_type,
        h.hdr_len as u8,
        (h.hdr_len >> 8) as u8,
        h.gso_size as u8,
        (h.gso_size >> 8) as u8,
        h.csum_start as u8,
        (h.csum_start >> 8) as u8,
        h.csum_offset as u8,
        (h.csum_offset >> 8) as u8,
        0u8,
        0u8,
    ]
}

fn le16(lo: u8, hi: u8) -> (v: u16)
    ensures
        v == (lo as u16) | ((hi as u16) << 8),
{
    (lo as u16) | ((hi as u16) << 8)
}

impl VirtioNetHdr {
    /// A header with every field zero.
    pub fn zeroed() -> (h: VirtioNetHdr)
        ensures
            h == (VirtioNetHdr { flags: 0, gso_type: 0, hdr_len: 0, gso_size: 0, csum_start: 0, csum_offset: 0 }),
    {
        VirtioNetHdr { flags: 0, gso_type: 0, hdr_len: 0, gso_size: 0, csum_start: 0, csum_offset: 0 }
    }

    /// The header stored at guest address `addr`, when its 12 bytes are in RAM.
    pub open spec fn spec_read(mem: Seq<u8>, addr: u64) -> Result<VirtioNetHdr, Trap> {
        let off = guest_off(addr);
        if !in_bounds(off, 12, mem.len()) {
            Err(Trap::LoadAccessFault(off))
        } else {
            Ok(VirtioNetHdr {
                flags: mem[off as int],
                gso_type: mem[off + 1],
                hdr_len: spec_le16(mem, off + 2),
                gso_size: spec_le16(mem, off + 4),
                csum_start: spec_le16(mem, off + 6),
                csum_offset: spec_le16(mem, off + 8),
            })
        }
    }

    pub fn read(mem: &Memory, addr: u64) -> (r: Result<VirtioNetHdr, Trap>)
        ensures
            r == VirtioNetHdr::spec_read(mem.view(), addr),
    {
        let off = guest_offset(addr);
        let mut buf = [0u8; 12];
        mem.read_bulk(off, &mut buf)?;
        Ok(VirtioNetHdr {
            flags: buf[0],
            gso_type: buf[1],
            hdr_len: le16(buf[2], buf[3]),
            gso_size: le16(buf[4], buf[5]),
            csum_start: le16(buf[6], buf[7]),
            csum_offset: le16(buf[8], buf[9]),
        })
    }

    /// Stores the header at guest address `addr`.
    pub fn write(&self, mem: &mut Memory, addr: u64) -> (r: Result<(), Trap>)
        ensures
            r is Ok <==> in_bounds(guest_off(addr), 12, old(mem).view().len()),
            r is Ok ==> final(mem).view() == old(mem).view().subrange(0, guest_off(addr) as int)
                + hdr_bytes(*self) + old(mem).view().subrange(
                guest_off(addr) + 12,
                old(mem).view().len() as int,
            ),
            r is Err ==> r == Err::<(), Trap>(Trap::StoreAccessFault(guest_off(addr)))
                && final(mem).view() == old(mem).view(),
    {
        let off = guest_offset(addr);
        let buf: [u8; 12] = [
            self.flags,
            self.gso_type,
            self.hdr_len as u8,
            (self.hdr_len >> 8) as u8,
            self.gso_size as u8,
            (self.gso_size >> 8) as u8,
            self.csum_start as u8,
            (self.csum_start >> 8) as u8,
            self.csum_offset as u8,
            (self.csum_offset >> 8) as u8,
            0,
            0,
        ];
        assert(buf@ =~= hdr_bytes(*self));
        mem.load(off, &buf)
    }
}

/// What `write` stores, `read` gives back.
pub proof fn law_header_roundtrip(h: VirtioNetHdr)
    ensures
        ({
            let b = hdr_bytes(h);
            &&& b[0] == h.flags
            &&& b[1] == h.gso_type
            &&& spec_le16(b, 2) == h.hdr_len
            &&& spec_le16(b, 4) == h.gso_size
            &&& spec_le16(b, 6) == h.csum_start
            &&& spec_le16(b, 8) == h.csum_offset
        }),
{
    let b = hdr_bytes(h);
    let (a, c, d, e) = (h.hdr_len, h.gso_size, h.csum_start, h.csum_offset);
    assert(forall|x: u16| #![auto] ((x as u8) as u16) | ((((x >> 8) as u8) as u16) << 8) == x)
        by (bit_vector);
    assert(spec_le16(b, 2) == ((a as u8) as u16) | ((((a >> 8) as u8) as u16) << 8));
    assert(spec_le16(b, 4) == ((c as u8) as u16) | ((((c >> 8) as u8) as u16) << 8));
    assert(spec_le16(b, 6) == ((d as u8) as u16) | ((((d >> 8) as u8) as u16) << 8));
    assert(spec_le16(b, 8) == ((e as u8) as u16) | ((((e >> 8) as u8) as u16) << 8));
}

} // verus!
