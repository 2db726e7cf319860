use vstd::prelude::*;

use crate::devices::virtio::config::{
    CONFIG_GENERATION, CONFIG_SPACE, DEVICE_FEATURES, DEVICE_FEATURES_SEL, DEVICE_ID,
    DRIVER_FEATURES, DRIVER_FEATURES_SEL, INTERRUPT_ACK, INTERRUPT_STATUS, MAGIC_VALUE,
    QUEUE_DESC_HIGH, QUEUE_DESC_LOW, QUEUE_DEVICE_HIGH, QUEUE_DEVICE_LOW, QUEUE_DRIVER_HIGH,
    QUEUE_DRIVER_LOW, QUEUE_NOTIFY, QUEUE_NUM, QUEUE_NUM_MAX, QUEUE_READY, QUEUE_SEL, STATUS,
    VENDOR_ID, VERSION, VIRTIO_MAGIC, VIRTIO_VENDOR_ID, VIRTIO_VERSION,
};
use crate::devices::virtio::features::VIRTIO_RING_F_EVENT_IDX;
use crate::devices::virtio::queue::VirtQueue;

verus! {

/// The virtio-over-MMIO transport registers of one device.
pub struct VirtIOMmio {
    pub status: u32,
    pub device_features_sel: u32,
    pub driver_features_sel: u32,
    pub driver_features: u64,
    pub queue_sel: u32,
    pub interrupt_status: u32,
    pub queues: Vec<VirtQueue>,
    pub queue_notify: Option<u16>,
}

/// A fresh queue.
pub open spec fn default_queue() -> VirtQueue {
    VirtQueue {
        size: 128,
        ready: false,
        desc_table: 0,
        avail_ring: 0,
        used_ring: 0,
        last_avail_idx: 0,
        event_idx_enabled: false,
    }
}

/// The value of a transport register at `offset` (below the device's
/// configuration space).
pub open spec fn spec_register(m: &VirtIOMmio, device_id: u32, host_features: u64, offset: u64) -> u32 {
    if offset == MAGIC_VALUE {
        VIRTIO_MAGIC
    } else if offset == VERSION {
        VIRTIO_VERSION
    } else if offset == DEVICE_ID {
        device_id
    } else if offset == VENDOR_ID {
        VIRTIO_VENDOR_ID
    } else if offset == DEVICE_FEATURES {
        if m.device_features_sel == 0 { host_features as u32 } else { (host_features >> 32) as u32 }
    } else if offset == QUEUE_NUM_MAX {
        256
    } else if offset == STATUS {
        m.status
    } else if offset == INTERRUPT_STATUS {
        m.interrupt_status
    } else {
        0
    }
}

/// `old` with its low half (when `high` is false) or high half replaced.
pub open spec fn with_half(old: u64, value: u32, high: bool) -> u64 {
    if high {
        (old & 0x0000_0000_ffff_ffff) | ((value as u64) << 32)
    } else {
        (old & 0xffff_ffff_0000_0000) | (value as u64)
    }
}

fn set_half(old: u64, value: u32, high: bool) -> (r: u64)
    ensures
        r == with_half(old, value, high),
{
    if high {
        (old & 0x0000_0000_ffff_ffff) | ((value as u64) << 32)
    } else {
        (old & 0xffff_ffff_0000_0000) | (value as u64)
    }
}

impl VirtIOMmio {
    /// Whether the selected queue exists.
    pub open spec fn selected_ok(&self) -> bool {
        (self.queue_sel as int) < self.queues@.len()
    }

    /// A transport at reset with `n` fresh queues: every register 0 and
    /// no notification.
    pub open spec fn is_reset(&self, n: nat) -> bool {
        &&& self.queues@ == Seq::new(n, |i: int| default_queue())
        &&& self.status == 0 && self.device_features_sel == 0 && self.driver_features_sel == 0
        &&& self.driver_features == 0 && self.queue_sel == 0 && self.interrupt_status == 0
        &&& self.queue_notify is None
    }

    /// A fresh transport with one queue (see `is_reset`).
    pub fn new() -> (m: VirtIOMmio)
        ensures
            m.queues@ == seq![default_queue()],
            m.is_reset(1),
    {
        Self::with_queues(1)
    }

    /// A transport with `n` fresh queues.
    pub fn with_queues(n: usize) -> (m: VirtIOMmio)
        ensures
            m.is_reset(n as nat),
    {
        let mut queues: Vec<VirtQueue> = Vec::new();
        let mut i: usize = 0;
        while i < n
            invariant
                i <= n,
                queues@ == Seq::new(i as nat, |k: int| default_queue()),
            decreases n - i,
        {
            queues.push(VirtQueue::default());
            i += 1;
            assert(queues@ =~= Seq::new(i as nat, |k: int| default_queue()));
        }
        VirtIOMmio {
            status: 0,
            device_features_sel: 0,
            driver_features_sel: 0,
            driver_features: 0,
            queue_sel: 0,
            interrupt_status: 0,
            queues,
            queue_notify: None,
        }
    }

    /// Reads a transport register; from `CONFIG_SPACE` on, the device's
    /// configuration space answers through `config_read`.
    pub fn read32<F: Fn(u64) -> u32>(&self, device_id: u32, host_features: u64, config_read: F, offset: u64) -> (r: u32)
        requires
            offset >= CONFIG_SPACE ==> config_read.requires(((offset - CONFIG_SPACE) as u64,)),
        ensures
            offset >= CONFIG_SPACE ==> config_read.ensures(((offset - CONFIG_SPACE) as u64,), r),
            offset < CONFIG_SPACE ==> r == spec_register(self, device_id, host_features, offset),
    {
        if offset >= CONFIG_SPACE {
            return config_read(offset - CONFIG_SPACE);
        }
        if offset == MAGIC_VALUE {
            VIRTIO_MAGIC
        } else if offset == VERSION {
            VIRTIO_VERSION
        } else if offset == DEVICE_ID {
            device_id
        } else if offset == VENDOR_ID {
            VIRTIO_VENDOR_ID
        } else if offset == DEVICE_FEATURES {
            if self.device_features_sel == 0 {
                host_features as u32
            } else {
                (host_features >> 32) as u32
            }
        } else if offset == QUEUE_NUM_MAX {
            256
        } else if offset == STATUS {
            self.status
        } else if offset == INTERRUPT_STATUS {
            self.interrupt_status
        } else if offset == CONFIG_GENERATION {
            0
        } else {
            0
        }
    }

    /// Writes a transport register. Queue registers act on the selected
    /// queue and are ignored when it does not exist; writing the driver
    /// features propagates the EVENT_IDX choice to every queue.
    pub fn write32(&mut self, offset: u64, value: u32)
        ensures
            offset == DEVICE_FEATURES_SEL ==> final(self).device_features_sel == value,
            offset == DRIVER_FEATURES_SEL ==> final(self).driver_features_sel == value,
            offset == STATUS ==> final(self).status == value,
            offset == QUEUE_SEL ==> final(self).queue_sel == value,
            offset == QUEUE_NOTIFY ==> final(self).queue_notify == Some(value as u16),
            offset == INTERRUPT_ACK ==> final(self).interrupt_status == old(self).interrupt_status & !value,
            offset == DRIVER_FEATURES ==> {
                let f = with_half(old(self).driver_features, value, old(self).driver_features_sel != 0);
                &&& final(self).driver_features == f
                &&& final(self).queues@.len() == old(self).queues@.len()
                &&& forall|i: int| 0 <= i < old(self).queues@.len() ==> #[trigger] final(self).queues@[i]
                    == (VirtQueue { event_idx_enabled: (f & VIRTIO_RING_F_EVENT_IDX) != 0, ..old(self).queues@[i] })
            },
            offset != DRIVER_FEATURES ==> final(self).driver_features == old(self).driver_features,
            final(self).queues@.len() == old(self).queues@.len(),
            offset == QUEUE_NUM && old(self).selected_ok() ==> final(self).queues@ == old(self).queues@.update(
                old(self).queue_sel as int,
                VirtQueue { size: value as u16, ..old(self).queues@[old(self).queue_sel as int] },
            ),
            offset == QUEUE_READY && old(self).selected_ok() ==> final(self).queues@ == old(self).queues@.update(
                old(self).queue_sel as int,
                VirtQueue { ready: value != 0, ..old(self).queues@[old(self).queue_sel as int] },
            ),
    {
        if offset == DEVICE_FEATURES_SEL {
            self.device_features_sel = value;
        } else if offset == DRIVER_FEATURES_SEL {
            self.driver_features_sel = value;
        } else if offset == DRIVER_FEATURES {
            self.driver_features = set_half(self.driver_features, value, self.driver_features_sel != 0);
            let event_idx_on = (self.driver_features & VIRTIO_RING_F_EVENT_IDX) != 0;
            let n = self.queues.len();
            let mut i: usize = 0;
            while i < n
                invariant
                    n == self.queues@.len(),
                    n == old(self).queues@.len(),
                    i <= n,
                    event_idx_on == ((self.driver_features & VIRTIO_RING_F_EVENT_IDX) != 0),
                    self.driver_features == with_half(old(self).driver_features, value, old(self).driver_features_sel != 0),
                    forall|k: int| 0 <= k < i ==> #[trigger] self.queues@[k] == (VirtQueue {
                        event_idx_enabled: event_idx_on,
                        ..old(self).queues@[k]
                    }),
                    forall|k: int| i <= k < n ==> #[trigger] self.queues@[k] == old(self).queues@[k],
                decreases n - i,
            {
                let mut q = self.queues[i];
                q.event_idx_enabled = event_idx_on;
                self.queues.set(i, q);
                i += 1;
            }
        } else if offset == STATUS {
            self.status = value;
        } else if offset == QUEUE_SEL {
            self.queue_sel = value;
        } else if offset == QUEUE_NUM || offset == QUEUE_READY || offset == QUEUE_DESC_LOW
            || offset == QUEUE_DESC_HIGH || offset == QUEUE_DRIVER_LOW || offset == QUEUE_DRIVER_HIGH
            || offset == QUEUE_DEVICE_LOW || offset == QUEUE_DEVICE_HIGH {
            let sel = self.queue_sel as usize;
            if sel < self.queues.len() {
                let mut q = self.queues[sel];
                if offset == QUEUE_NUM {
                    q.size = value as u16;
                } else if offset == QUEUE_READY {
                    q.ready = value != 0;
                } else if offset == QUEUE_DESC_LOW {
                    q.desc_table = set_half(q.desc_table, value, false);
                } else if offset == QUEUE_DESC_HIGH {
                    q.desc_table = set_half(q.desc_table, value, true);
                } else if offset == QUEUE_DRIVER_LOW {
                    q.avail_ring = set_half(q.avail_ring, value, false);
                } else if offset == QUEUE_DRIVER_HIGH {
                    q.avail_ring = set_half(q.avail_ring, value, true);
                } else if offset == QUEUE_DEVICE_LOW {
                    q.used_ring = set_half(q.used_ring, value, false);
                } else {
                    q.used_ring = set_half(q.used_ring, value, true);
                }
                self.queues.set(sel, q);
            }
        } else if offset == QUEUE_NOTIFY {
            self.queue_notify = Some(value as u16);
        } else if offset == INTERRUPT_ACK {
            self.interrupt_status = self.interrupt_status & !value;
        }
    }

    /// Takes the pending queue notification, if any.
    pub fn take_queue_notify(&mut self) -> (r: Option<u16>)
        ensures
            r == old(self).queue_notify,
            *final(self) == (VirtIOMmio { queue_notify: None, ..*old(self) }),
    {
        let r = self.queue_notify;
        self.queue_notify = None;
        r
    }
}

} // verus!
