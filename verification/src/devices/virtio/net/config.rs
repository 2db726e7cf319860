use vstd::prelude::*;

verus! {

/// The virtio-net configuration space.
#[derive(Clone, Copy, Debug)]
pub struct VirtIONetConfig {
    pub mac: [u8; 6],
    pub status: u16,
    pub max_virtqueue_pairs: u16,
    pub mtu: u16,
}

impl VirtIONetConfig {
    /// The configuration word at `offset`: MAC bytes 0-3, then MAC bytes
    /// 4-5 with the link status, then the queue pairs with the MTU;
    /// anything else reads 0.
    pub open spec fn spec_read32(&self, offset: u64) -> u32 {
        if offset == 0 {
            (self.mac[0] as u32) | ((self.mac[1] as u32) << 8) | ((self.mac[2] as u32) << 16) | ((
            self.mac[3] as u32) << 24)
        } else if offset == 4 {
            (self.mac[4] as u32) | ((self.mac[5] as u32) << 8) | ((self.status as u32) << 16)
        } else if offset == 8 {
            (self.max_virtqueue_pairs as u32) | ((self.mtu as u32) << 16)
        } else {
            0
        }
    }

    pub fn read32(&self, offset: u64) -> (v: u32)
        ensures
            v == self.spec_read32(offset),
    {
        if offset == 0 {
            (self.mac[0] as u32) | ((self.mac[1] as u32) << 8) | ((self.mac[2] as u32) << 16) | ((
            self.mac[3] as u32) << 24)
        } else if offset == 4 {
            (self.mac[4] as u32) | ((self.mac[5] as u32) << 8) | ((self.status as u32) << 16)
        } else if offset == 8 {
            (self.max_virtqueue_pairs as u32) | ((self.mtu as u32) << 16)
        } else {
            0
        }
    }
}

} // verus!
