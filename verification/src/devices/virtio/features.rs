use vstd::prelude::*;

verus! {

pub const VIRTIO_F_VERSION_1: u64 = 0x1_0000_0000;
pub const VIRTIO_RING_F_INDIRECT_DESC: u64 = 0x1000_0000;
pub const VIRTIO_RING_F_EVENT_IDX: u64 = 0x2000_0000;
pub const VIRTIO_BLK_F_RO: u64 = 0x20;
pub const VIRTIO_BLK_F_FLUSH: u64 = 0x200;
pub const VIRTIO_BLK_F_CONFIG_WCE: u64 = 0x800;
/// Version 1 with cache flush.
pub const HOST_FEATURES: u64 = 0x1_0000_0200;

} // verus!
