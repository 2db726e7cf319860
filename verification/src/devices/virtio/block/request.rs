use vstd::prelude::*;

use crate::cpu::memory::{in_bounds, spec_le32, spec_le64, Memory};
use crate::devices::virtio::descriptor::{guest_off, guest_offset};
use crate::trap::Trap;

verus! {

pub const VIRTIO_BLK_T_IN: u32 = 0;
pub const VIRTIO_BLK_T_OUT: u32 = 1;
pub const VIRTIO_BLK_S_OK: u8 = 0;
pub const VIRTIO_BLK_S_IOERR: u8 = 1;
pub const VIRTIO_BLK_S_UNSUPP: u8 = 2;

/// The kind of a block request.
#[derive(Clone, Copy, Debug, PartialEq, Eq, Structural)]
pub enum RequestType {
    In,
    Out,
    Flush,
    GetId,
    Unknown,
}

/// The request kind a type code stands for: 0 read, 1 write, 4 flush,
/// 8 get-id, anything else unknown.
pub open spec fn spec_request_type(value: u32) -> RequestType {
    if value == 0 {
        RequestType::In
    } else if value == 1 {
        RequestType::Out
    } else if value == 4 {
        RequestType::Flush
    } else if value == 8 {
        RequestType::GetId
    } else {
        RequestType::Unknown
    }
}

impl RequestType {
    /// The request kind of type code `value` (see `spec_request_type`).
    pub fn from(value: u32) -> (r: RequestType)
        ensures
            r == spec_request_type(value),
    {
        if value == 0 {
            RequestType::In
        } else if value == 1 {
            RequestType::Out
        } else if value == 4 {
            RequestType::Flush
        } else if value == 8 {
            RequestType::GetId
        } else {
            RequestType::Unknown
        }
    }
}

/// The 16-byte header of a block request.
#[derive(Clone, Copy, Debug, PartialEq, Eq, Structural)]
pub struct VirtIOBlkReqHeader {
    pub request_type: u32,
    pub reserved: u32,
    pub sector: u64,
}

impl VirtIOBlkReqHeader {
    /// The header stored at guest address `addr`.
    pub open spec fn spec_read(mem: Seq<u8>, addr: u64) -> Result<VirtIOBlkReqHeader, Trap> {
        let off = guest_off(addr);
        if off > u64::MAX - 16 || !in_bounds(off, 4, mem.len()) {
            Err(Trap::LoadAccessFault(off))
        } else if !in_bounds((off + 4) as u64, 4, mem.len()) {
            Err(Trap::LoadAccessFault((off + 4) as u64))
        } else if !in_bounds((off + 8) as u64, 8, mem.len()) {
            Err(Trap::LoadAccessFault((off + 8) as u64))
        } else {
            Ok(VirtIOBlkReqHeader {
                request_type: spec_le32(mem, off as int),
                reserved: spec_le32(mem, off + 4),
                sector: spec_le64(mem, off + 8),
            })
        }
    }

    pub fn read(mem: &Memory, addr: u64) -> (r: Result<VirtIOBlkReqHeader, Trap>)
        ensures
            r == VirtIOBlkReqHeader::spec_read(mem.view(), addr),
    {
        let off = guest_offset(addr);
        if off > u64::MAX - 16 {
            return Err(Trap::LoadAccessFault(off));
        }
        Ok(VirtIOBlkReqHeader {
            request_type: mem.read32(off)?,
            reserved: mem.read32(off + 4)?,
            sector: mem.read64(off + 8)?,
        })
    }
}

} // verus!
