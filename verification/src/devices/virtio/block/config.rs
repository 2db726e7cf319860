use vstd::prelude::*;

verus! {

/// The virtio-blk configuration space.
#[derive(Clone, Copy, Debug)]
pub struct VirtIOBlkConfig {
    pub capacity: u64,
    pub size_max: u32,
    pub seg_max: u32,
    pub geometry: [u8; 4],
    pub blk_size: u32,
}

} // verus!
