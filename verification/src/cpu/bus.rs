use vstd::prelude::*;

use crate::cpu::memory::{
    in_bounds, law_read_after_write32, law_read_after_write64, lemma_store_le_frame, spec_le16, spec_le32, spec_le64,
    spec_store_le, Memory,
};
use crate::devices::clint::{Clint, CLINT_BASE, CLINT_SIZE};
use crate::devices::plic::{Plic, PLIC_BASE, PLIC_SIZE};
use crate::devices::uart::{narrow, spec_read_le, spec_read8, spec_write8, spec_write_le, Uart, UartModel, UART_BASE, UART_SIZE};
use crate::devices::virtio::block::backend::FileBackend;
use crate::devices::virtio::block::device::{VirtIOBlock, BLOCK_HOST_FEATURES, VIRTIO_DEVICE_BLOCK};
use crate::devices::virtio::config::CONFIG_SPACE;
use crate::devices::virtio::device::VirtIODevice;
use crate::devices::virtio::mmio::{spec_register, VirtIOMmio};
use crate::devices::virtio::net::backend::QueueBackend;
use crate::devices::virtio::net::config::VirtIONetConfig;
use crate::devices::virtio::net::device::{rx_drained, VirtIONet, NET_HOST_FEATURES, VIRTIO_DEVICE_NET};
use crate::devices::virtio::queue::{read_guest16, spec_guest16};
use crate::devices::virtio::transport::{drain_queue, drained, should_interrupt, spec_should_interrupt};
use crate::devices::Device;
use crate::trap::Trap;

verus! {

pub const RAM_BASE: u64 = 0x8000_0000;
pub const VIRTIO_BASE: u64 = 0x1000_1000;
pub const VIRTIO_NET_BASE: u64 = 0x1000_2000;
pub const VIRTIO_SIZE: u64 = 0x1000;

/// PLIC lines of the virtio devices (as in the device tree).
pub const VIRTIO_BLOCK_IRQ: u32 = 1;
pub const VIRTIO_NET_IRQ: u32 = 3;

/// What a misaligned RAM access does: trap, or be split into byte accesses.
#[derive(Debug, Clone, Copy, PartialEq, Eq, Structural)]
pub enum MisalignedAccess {
    Trap,
    Emulate,
}

/// The system bus: RAM from `RAM_BASE` and the memory-mapped devices.
pub struct Bus {
    pub ram: Memory,
    pub misaligned: MisalignedAccess,
    pub clint: Clint,
    pub uart: Uart,
    pub plic: Plic,
    pub virtio: VirtIOMmio,
    pub virtio_net: VirtIOMmio,
    pub virtio_block: VirtIOBlock<FileBackend>,
    pub virtio_net_dev: VirtIONet<QueueBackend>,
}

/// Whether `addr` lies in the window `[base, base + size)`.
pub open spec fn in_window(addr: u64, base: u64, size: u64) -> bool {
    base <= addr < base + size
}

/// Whether `addr` lies in the CLINT, UART or PLIC window.
pub open spec fn in_device(addr: u64) -> bool {
    in_window(addr, CLINT_BASE, CLINT_SIZE) || in_window(addr, UART_BASE, UART_SIZE) || in_window(
        addr,
        PLIC_BASE,
        PLIC_SIZE,
    )
}

/// Whether `addr` lies in one of the two virtio windows.
pub open spec fn in_virtio(addr: u64) -> bool {
    in_window(addr, VIRTIO_BASE, VIRTIO_SIZE) || in_window(addr, VIRTIO_NET_BASE, VIRTIO_SIZE)
}

/// The byte lane `addr % 4` of the 32-bit word `w`, narrowed by `f`.
pub open spec fn lane(w: u32, addr: u64) -> u32 {
    w >> (((addr & 3) * 8) as u32)
}

/// The shift that brings lane `addr % 4` of a word down.
fn lane_shift(addr: u64) -> (s: u32)
    ensures
        s == (((addr & 3) * 8) as u32),
        s <= 24,
{
    assert(addr & 3 <= 3) by (bit_vector);
    ((addr & 3) * 8) as u32
}

/// Once the byte reads fault, every longer read gives that fault.
proof fn lemma_virtio_bytes_fault_stays(bus: Bus, addr: u64, j: nat, e: Trap)
    requires
        bus.virtio_bytes(addr, j) == Err::<u64, Trap>(e),
    ensures
        forall|k: nat| j <= k ==> #[trigger] bus.virtio_bytes(addr, k) == Err::<u64, Trap>(e),
{
    assert forall|k: nat| j <= k implies #[trigger] bus.virtio_bytes(addr, k) == Err::<u64, Trap>(e) by {
        lemma_virtio_bytes_fault_step(bus, addr, j, k, e);
    }
}

proof fn lemma_virtio_bytes_fault_step(bus: Bus, addr: u64, j: nat, k: nat, e: Trap)
    requires
        bus.virtio_bytes(addr, j) == Err::<u64, Trap>(e),
        j <= k,
    ensures
        bus.virtio_bytes(addr, k) == Err::<u64, Trap>(e),
    decreases k - j,
{
    if j < k {
        lemma_virtio_bytes_fault_step(bus, addr, j, (k - 1) as nat, e);
    }
}

impl Device for Bus {
    /// One timer tick.
    fn tick(&mut self)
        ensures
            final(self).clint.mtime == old(self).clint.mtime.wrapping_add(1),
    {
        self.clint.tick();
    }
}

impl Bus {
    /// Whether `addr` starts inside RAM.
    pub open spec fn in_ram(&self, addr: u64) -> bool {
        RAM_BASE <= addr && addr - RAM_BASE < self.ram.view().len()
    }

    /// The RAM offset of `addr` (meaningful when `in_ram`).
    pub open spec fn ram_off(addr: u64) -> u64 {
        (addr - RAM_BASE) as u64
    }

    /// Whether a RAM load from `addr` is refused as misaligned (only in
    /// the trapping mode, and only when the low two bits are not zero).
    pub open spec fn refuses_misaligned(&self, addr: u64) -> bool {
        self.misaligned == MisalignedAccess::Trap && addr & 3 != 0
    }

    /// Whether a RAM store to `addr` is refused as misaligned.
    pub open spec fn refuses_misaligned_store(&self, addr: u64) -> bool {
        self.misaligned == MisalignedAccess::Trap && addr & 1 != 0
    }

    /// What `read8` answers and does.
    pub open spec fn read8_post(old: &Bus, new: &Bus, addr: u64, r: Result<u8, Trap>) -> bool {
        &&& (old.in_ram(addr) ==> *new == *old && r == if old.refuses_misaligned(addr) {
                    Err::<u8, Trap>(Trap::LoadAddressMisaligned(addr))
            } else {
                    Ok(old.ram.view()[Bus::ram_off(addr) as int])
            })
        &&& (!old.in_ram(addr) && in_window(addr, CLINT_BASE, CLINT_SIZE) ==> *new == *old
                    && r == old.clint.spec_read8(addr))
        &&& (!old.in_ram(addr) && in_window(addr, UART_BASE, UART_SIZE) ==> Bus::only_uart(old, new)
                    && (new.uart@, r) == spec_read8(old.uart@, addr))
        &&& (!old.in_ram(addr) && in_window(addr, PLIC_BASE, PLIC_SIZE) ==> Bus::only_plic(old, new)
                    && Plic::narrow_read(
                    &old.plic,
                    &new.plic,
                    addr,
                    r is Ok,
                    |w: u32| r == Ok::<u8, Trap>(((w >> (((addr % 4) * 8) as u32)) & 0xFF) as u8)
            ))
        &&& (!old.in_ram(addr) && in_virtio(addr) ==> *new == *old && r == match old.virtio_narrow(addr) {
                    Ok(w) => Ok::<u8, Trap>(w as u8),
                    Err(e) => Err(e)
            })
        &&& (!old.in_ram(addr) && !in_device(addr) && !in_virtio(addr) ==> *new == *old
                    && r == Err::<u8, Trap>(Trap::LoadAccessFault(addr)))
    }

    /// What `read16` answers and does.
    pub open spec fn read16_post(old: &Bus, new: &Bus, addr: u64, r: Result<u16, Trap>) -> bool {
        &&& (old.in_ram(addr) ==> *new == *old && r == if old.refuses_misaligned(addr) {
                    Err::<u16, Trap>(Trap::LoadAddressMisaligned(addr))
            } else {
                    narrow(old.ram_load(addr, 2), |v: u64| v as u16)
            })
        &&& (!old.in_ram(addr) && in_window(addr, CLINT_BASE, CLINT_SIZE) ==> *new == *old
                    && r == narrow(old.clint.spec_read_le(addr, 2), |v: u64| v as u16))
        &&& (!old.in_ram(addr) && in_window(addr, UART_BASE, UART_SIZE) ==> Bus::only_uart(old, new)
                    && new.uart@ == spec_read_le(old.uart@, addr, 2).0
                    && r == narrow(spec_read_le(old.uart@, addr, 2).1, |v: u64| v as u16))
        &&& (!old.in_ram(addr) && in_window(addr, PLIC_BASE, PLIC_SIZE) ==> Bus::only_plic(old, new)
                    && Plic::narrow_read(
                    &old.plic,
                    &new.plic,
                    addr,
                    r is Ok,
                    |w: u32| r == Ok::<u16, Trap>(((w >> (((addr % 4) * 8) as u32)) & 0xFFFF) as u16)
            ))
        &&& (!old.in_ram(addr) && in_virtio(addr) ==> *new == *old && r == match old.virtio_narrow(addr) {
                    Ok(w) => Ok::<u16, Trap>(w as u16),
                    Err(e) => Err(e)
            })
        &&& (!old.in_ram(addr) && !in_device(addr) && !in_virtio(addr) ==> *new == *old
                    && r == Err::<u16, Trap>(Trap::LoadAccessFault(addr)))
    }

    /// What `read32` answers and does.
    pub open spec fn read32_post(old: &Bus, new: &Bus, addr: u64, r: Result<u32, Trap>) -> bool {
        &&& (old.in_ram(addr) ==> *new == *old && r == if old.refuses_misaligned(addr) {
                    Err::<u32, Trap>(Trap::LoadAddressMisaligned(addr))
            } else {
                    narrow(old.ram_load(addr, 4), |v: u64| v as u32)
            })
        &&& (!old.in_ram(addr) && in_window(addr, CLINT_BASE, CLINT_SIZE) ==> *new == *old
                    && r == narrow(old.clint.spec_read_le(addr, 4), |v: u64| v as u32))
        &&& (!old.in_ram(addr) && in_window(addr, UART_BASE, UART_SIZE) ==> Bus::only_uart(old, new)
                    && new.uart@ == spec_read_le(old.uart@, addr, 4).0
                    && r == narrow(spec_read_le(old.uart@, addr, 4).1, |v: u64| v as u32))
        &&& (!old.in_ram(addr) && in_window(addr, PLIC_BASE, PLIC_SIZE) ==> Bus::only_plic(old, new)
                    && Plic::read32_post(&old.plic, &new.plic, addr, r))
        &&& (!old.in_ram(addr) && in_window(addr, VIRTIO_BASE, VIRTIO_SIZE) ==> *new == *old
                    && r == Ok::<u32, Trap>(old.block_word((addr - VIRTIO_BASE) as u64)))
        &&& (!old.in_ram(addr) && in_window(addr, VIRTIO_NET_BASE, VIRTIO_SIZE) ==> *new == *old
                    && r == Ok::<u32, Trap>(old.net_word((addr - VIRTIO_NET_BASE) as u64)))
        &&& (!old.in_ram(addr) && !in_device(addr) && !in_virtio(addr) ==> *new == *old
                    && r == Err::<u32, Trap>(Trap::LoadAccessFault(addr)))
    }

    /// What `read64` answers and does.
    pub open spec fn read64_post(old: &Bus, new: &Bus, addr: u64, r: Result<u64, Trap>) -> bool {
        &&& (old.in_ram(addr) ==> *new == *old && r == if old.refuses_misaligned(addr) {
                    Err::<u64, Trap>(Trap::LoadAddressMisaligned(addr))
            } else {
                    old.ram_load(addr, 8)
            })
        &&& (!old.in_ram(addr) && in_window(addr, CLINT_BASE, CLINT_SIZE) ==> *new == *old
                    && r == old.clint.spec_read_le(addr, 8))
        &&& (!old.in_ram(addr) && in_window(addr, UART_BASE, UART_SIZE) ==> Bus::only_uart(old, new)
                    && (new.uart@, r) == spec_read_le(old.uart@, addr, 8))
        &&& (!old.in_ram(addr) && in_window(addr, PLIC_BASE, PLIC_SIZE) ==> Bus::only_plic(old, new)
                    && Plic::read64_post(&old.plic, &new.plic, addr, r))
        &&& (!old.in_ram(addr) && !in_device(addr) ==> *new == *old && (r is Ok ==> in_virtio(addr)
                    && old.misaligned == MisalignedAccess::Emulate && addr & 3 != 0))
        &&& (!old.in_ram(addr) && !in_device(addr) && old.misaligned == MisalignedAccess::Emulate && addr & 3 != 0
                    ==> r == old.virtio_bytes(addr, 8))
        &&& (!old.in_ram(addr) && !in_device(addr) && !(old.misaligned == MisalignedAccess::Emulate
                    && addr & 3 != 0) ==> r == Err::<u64, Trap>(Trap::LoadAccessFault(addr)))
    }

    /// What `write8` answers and does.
    pub open spec fn write8_post(old: &Bus, new: &Bus, addr: u64, value: u8, r: Result<(), Trap>) -> bool {
        &&& (in_window(addr, CLINT_BASE, CLINT_SIZE) ==> Bus::only_clint(old, new)
                    && (new.clint, r) == old.clint.spec_write8(addr, value))
        &&& (in_window(addr, UART_BASE, UART_SIZE) ==> Bus::only_uart(old, new)
                    && (new.uart@, r) == spec_write8(old.uart@, addr, value))
        &&& (in_window(addr, PLIC_BASE, PLIC_SIZE) ==> *new == *old && r is Ok)
        &&& (!in_device(addr) && old.in_ram(addr) ==> r is Ok && *new == (Bus { ram: new.ram, ..*old })
                    && new.ram.view() == old.ram.view().update(Bus::ram_off(addr) as int, value))
        &&& (!in_device(addr) && !old.in_ram(addr) ==> *new == *old && r == Err::<(), Trap>(
                    Trap::StoreAccessFault(addr)
            ))
    }

    /// What `write16` answers and does.
    pub open spec fn write16_post(old: &Bus, new: &Bus, addr: u64, value: u16, r: Result<(), Trap>) -> bool {
        &&& (old.in_ram(addr) ==> Bus::ram_stored(old, new, addr, value as u64, 2, r))
        &&& (!old.in_ram(addr) && in_window(addr, CLINT_BASE, CLINT_SIZE) ==> Bus::only_clint(old, new)
                    && (new.clint, r) == old.clint.spec_write_le(addr, value as u64, 2))
        &&& (!old.in_ram(addr) && in_window(addr, UART_BASE, UART_SIZE) ==> Bus::only_uart(old, new)
                    && (new.uart@, r) == spec_write_le(old.uart@, addr, value as u64, 2))
        &&& (!old.in_ram(addr) && in_window(addr, PLIC_BASE, PLIC_SIZE) ==> *new == *old && r is Ok)
        &&& (!old.in_ram(addr) && !in_device(addr) ==> *new == *old && r == Err::<(), Trap>(
                    Trap::StoreAccessFault(addr)
            ))
    }

    /// What `write32` answers and does.
    pub open spec fn write32_post(old: &Bus, new: &Bus, addr: u64, value: u32, r: Result<(), Trap>) -> bool {
        &&& (new.ram.view().len() == old.ram.view().len())
        &&& (old.in_ram(addr) ==> Bus::ram_stored(old, new, addr, value as u64, 4, r))
        &&& (!old.in_ram(addr) && in_window(addr, CLINT_BASE, CLINT_SIZE) ==> Bus::only_clint(old, new)
                    && (new.clint, r) == old.clint.spec_write_le(addr, value as u64, 4))
        &&& (!old.in_ram(addr) && in_window(addr, UART_BASE, UART_SIZE) ==> Bus::only_uart(old, new)
                    && (new.uart@, r) == spec_write_le(old.uart@, addr, value as u64, 4))
        &&& (!old.in_ram(addr) && in_window(addr, PLIC_BASE, PLIC_SIZE) ==> Bus::only_plic(old, new)
                    && r is Ok && Plic::spec_written32(&old.plic, &new.plic, (addr - PLIC_BASE) as u64, value))
        &&& (!old.in_ram(addr) && !in_device(addr) && !in_virtio(addr) ==> *new == *old && r == Err::<(), Trap>(
                    Trap::StoreAccessFault(addr)
            ))
    }

    /// What `write64` answers and does.
    pub open spec fn write64_post(old: &Bus, new: &Bus, addr: u64, value: u64, r: Result<(), Trap>) -> bool {
        &&& (old.in_ram(addr) ==> Bus::ram_stored(old, new, addr, value, 8, r))
        &&& (!old.in_ram(addr) && in_window(addr, CLINT_BASE, CLINT_SIZE) ==> Bus::only_clint(old, new)
                    && (new.clint, r) == old.clint.spec_write_le(addr, value, 8))
        &&& (!old.in_ram(addr) && in_window(addr, UART_BASE, UART_SIZE) ==> Bus::only_uart(old, new)
                    && (new.uart@, r) == spec_write_le(old.uart@, addr, value, 8))
        &&& (!old.in_ram(addr) && in_window(addr, PLIC_BASE, PLIC_SIZE) ==> Bus::only_plic(old, new)
                    && Plic::write64_post(&old.plic, &new.plic, addr, value, r))
        &&& (!old.in_ram(addr) && !in_device(addr) ==> *new == *old && r == Err::<(), Trap>(
                    Trap::StoreAccessFault(addr)
            ))
    }

    /// An `n`-byte RAM load at `addr` (which starts inside RAM).
    pub open spec fn ram_load(&self, addr: u64, n: nat) -> Result<u64, Trap> {
        let off = Bus::ram_off(addr);
        let s = self.ram.view();
        if !in_bounds(off, n, s.len()) {
            Err(Trap::LoadAccessFault(off))
        } else if n == 1 {
            Ok(s[off as int] as u64)
        } else if n == 2 {
            Ok(spec_le16(s, off as int) as u64)
        } else if n == 4 {
            Ok(spec_le32(s, off as int) as u64)
        } else {
            Ok(spec_le64(s, off as int))
        }
    }

    /// A register word of the block device's transport (configuration
    /// space from `CONFIG_SPACE` on).
    pub open spec fn block_word(&self, off: u64) -> u32 {
        if off >= CONFIG_SPACE {
            self.virtio_block.spec_config32((off - CONFIG_SPACE) as u64)
        } else {
            spec_register(&self.virtio, VIRTIO_DEVICE_BLOCK, BLOCK_HOST_FEATURES, off)
        }
    }

    /// A register word of the network device's transport.
    pub open spec fn net_word(&self, off: u64) -> u32 {
        if off >= CONFIG_SPACE {
            self.virtio_net_dev.config.spec_read32((off - CONFIG_SPACE) as u64)
        } else {
            spec_register(&self.virtio_net, VIRTIO_DEVICE_NET, NET_HOST_FEATURES, off)
        }
    }

    /// A narrow load from a virtio window: only the configuration space
    /// answers, with the addressed lane of its word.
    /// The byte a byte load at `addr` (outside RAM and the device windows)
    /// gets: a lane of a virtio configuration word, or a fault.
    pub open spec fn virtio_byte(&self, addr: u64) -> Result<u8, Trap> {
        if in_virtio(addr) {
            match self.virtio_narrow(addr) {
                Ok(w) => Ok(w as u8),
                Err(e) => Err(e),
            }
        } else {
            Err(Trap::LoadAccessFault(addr))
        }
    }

    /// The little-endian value of the `k` bytes `virtio_byte` gives from
    /// `addr` on; the first fault wins.
    pub open spec fn virtio_bytes(&self, addr: u64, k: nat) -> Result<u64, Trap>
        decreases k,
    {
        if k == 0 {
            Ok(0)
        } else {
            match self.virtio_bytes(addr, (k - 1) as nat) {
                Err(e) => Err(e),
                Ok(v) => match self.virtio_byte(addr.wrapping_add((k - 1) as u64)) {
                    Err(e) => Err(e),
                    Ok(b) => Ok(v | ((b as u64) << (((k - 1) * 8) as u64))),
                },
            }
        }
    }

    pub open spec fn virtio_narrow(&self, addr: u64) -> Result<u32, Trap> {
        if in_window(addr, VIRTIO_BASE, VIRTIO_SIZE) {
            let off = (addr - VIRTIO_BASE) as u64;
            if off >= CONFIG_SPACE {
                Ok(lane(self.block_word(off & !3u64), addr))
            } else {
                Err(Trap::LoadAccessFault(addr))
            }
        } else {
            let off = (addr - VIRTIO_NET_BASE) as u64;
            if off >= CONFIG_SPACE {
                Ok(lane(self.net_word(off & !3u64), addr))
            } else {
                Err(Trap::LoadAccessFault(addr))
            }
        }
    }

    /// `new` is `old` with only its UART changed.
    pub open spec fn only_uart(old: &Bus, new: &Bus) -> bool {
        *new == Bus { uart: new.uart, ..*old }
    }

    /// `new` is `old` with only its PLIC changed.
    pub open spec fn only_plic(old: &Bus, new: &Bus) -> bool {
        *new == Bus { plic: new.plic, ..*old }
    }

    /// `new` is `old` with only its CLINT changed.
    pub open spec fn only_clint(old: &Bus, new: &Bus) -> bool {
        *new == Bus { clint: new.clint, ..*old }
    }

    /// A bus with `ram_size` bytes of zeroed RAM, misaligned accesses split
    /// into bytes, fresh devices, an empty disk and a network device whose
    /// frames the host program exchanges through queues.
    /// A bus as `new` makes it: `ram_size` bytes of zeroed RAM,
    /// misaligned accesses emulated, every device at reset (the block
    /// device with an empty disk, the network transport with two queues,
    /// the network device over an empty queue backend with MAC
    /// 52:54:00:12:34:56).
    pub open spec fn is_fresh(&self, ram_size: nat) -> bool {
        let mac = [0x52u8, 0x54, 0x00, 0x12, 0x34, 0x56];
        &&& self.ram.view() == Seq::new(ram_size, |i: int| 0u8)
        &&& self.misaligned == MisalignedAccess::Emulate
        &&& self.clint == Clint::reset()
        &&& self.uart@ == Uart::reset_model()
        &&& self.plic.is_reset()
        &&& self.virtio.is_reset(1)
        &&& self.virtio_net.is_reset(2)
        &&& self.virtio_block.backend.data@.len() == 0
        &&& self.virtio_block.config.capacity == 0 && self.virtio_block.config.blk_size == 512
        &&& self.virtio_block.config.size_max == 0 && self.virtio_block.config.seg_max == 0
        &&& self.virtio_block.config.geometry@ == seq![0u8, 0, 0, 0]
        &&& self.virtio_net_dev.backend.mac == mac && self.virtio_net_dev.backend.incoming@.len() == 0
        &&& self.virtio_net_dev.backend.incoming_head == 0 && self.virtio_net_dev.backend.outgoing@.len() == 0
        &&& self.virtio_net_dev.config == (VirtIONetConfig { mac, status: 1, max_virtqueue_pairs: 1, mtu: 1500 })
        &&& self.virtio_net_dev.gro_buffer@.len() == 0
        &&& self.virtio_net_dev.gro_frames_in == 0 && self.virtio_net_dev.gro_segments_out == 0
    }

    /// A bus with `ram_size` bytes of RAM and fresh devices (see
    /// `is_fresh`).
    pub fn new(ram_size: usize) -> (b: Bus)
        ensures
            b.is_fresh(ram_size as nat),
    {
        Bus {
            ram: Memory::new(ram_size),
            misaligned: MisalignedAccess::Emulate,
            clint: Clint::new(),
            uart: Uart::new(),
            plic: Plic::new(),
            virtio: VirtIOMmio::new(),
            virtio_net: VirtIOMmio::with_queues(2),
            virtio_block: VirtIOBlock::new(FileBackend::from_bytes(Vec::new())),
            virtio_net_dev: VirtIONet::new(QueueBackend::new([0x52, 0x54, 0x00, 0x12, 0x34, 0x56])),
        }
    }

    /// Replaces the disk with the image `data`.
    pub fn load_block_image(&mut self, data: Vec<u8>)
        ensures
            final(self).virtio_block.backend.data@ == data@,
            final(self).ram == old(self).ram,
    {
        self.virtio_block = VirtIOBlock::new(FileBackend::from_bytes(data));
    }

    /// Writes `data` byte by byte from `addr` on, as the CPU would; stops
    /// at the first byte that faults.
    pub fn load_external_image(&mut self, addr: u64, data: &[u8]) -> (r: Result<(), Trap>)
        requires
            addr + data@.len() <= u64::MAX,
        ensures
            final(self).ram.view().len() == old(self).ram.view().len(),
            image_written(*old(self), *final(self), addr, data@, r),
            (forall|i: int| 0 <= i < data@.len() ==> #[trigger] old(self).in_ram((addr + i) as u64)) ==> {
                &&& r is Ok
                &&& forall|i: int| 0 <= i < data@.len() ==> #[trigger] final(self).ram.view()[Bus::ram_off((addr + i) as u64) as int] == data@[i]
            },
    {
        let n = data.len();
        let mut i: usize = 0;
        let ghost mut bs: Seq<Bus> = seq![*self];
        let ghost mut rs: Seq<Result<(), Trap>> = Seq::empty();
        while i < n
            invariant
                n == data@.len(),
                i <= n,
                bs.len() == rs.len() + 1 && rs.len() == i,
                bs[0] == *old(self) && bs.last() == *self,
                forall|j: int|
                    #![trigger rs[j]]
                    0 <= j < rs.len() ==> Bus::write8_post(&bs[j], &bs[j + 1], (addr + j) as u64, data@[j], rs[j]),
                forall|j: int| #![trigger rs[j]] 0 <= j < rs.len() ==> rs[j] is Ok,
                addr + n <= u64::MAX,
                self.ram.view().len() == old(self).ram.view().len(),
                (forall|j: int| 0 <= j < n ==> #[trigger] old(self).in_ram((addr + j) as u64)) ==> forall|j: int|
                    0 <= j < i ==> #[trigger] self.ram.view()[Bus::ram_off((addr + j) as u64) as int] == data@[j],
            decreases n - i,
        {
            let a = addr + i as u64;
            proof {
                if forall|j: int| 0 <= j < n ==> #[trigger] old(self).in_ram((addr + j) as u64) {
                    assert(old(self).in_ram((addr + i) as u64));
                    assert(self.in_ram(a));
                }
            }
            let ghost before = *self;
            let w = self.write8(a, data[i]);
            proof {
                let bs2 = bs.push(*self);
                let rs2 = rs.push(w);
                assert forall|j: int|
                    #![trigger rs2[j]]
                    0 <= j < rs2.len() implies Bus::write8_post(&bs2[j], &bs2[j + 1], (addr + j) as u64, data@[j], rs2[j]) by {
                    if j < rs.len() {
                        assert(rs2[j] == rs[j]);
                    }
                }
                bs = bs2;
                rs = rs2;
            }
            if let Err(e) = w {
                proof {
                    assert(rs.last() == w);
                    assert(image_chain(bs, rs, addr, data@));
                }
                return Err(e);
            }
            proof {
                if forall|j: int| 0 <= j < n ==> #[trigger] old(self).in_ram((addr + j) as u64) {
                    assert(old(self).in_ram((addr + i) as u64));
                    assert forall|j: int| 0 <= j < i + 1 implies #[trigger] self.ram.view()[Bus::ram_off((addr + j) as u64) as int] == data@[j] by {
                        assert(old(self).in_ram((addr + j) as u64));
                        if j < i {
                            assert(Bus::ram_off((addr + j) as u64) != Bus::ram_off(a));
                        }
                    }
                }
            }
            i += 1;
        }
        proof {
            assert(image_chain(bs, rs, addr, data@));
        }
        Ok(())
    }

    /// The RAM offset of `addr`, or `trap` when `addr` is outside RAM.
    fn ram_offset(&self, addr: u64, trap: Trap) -> (r: Result<u64, Trap>)
        ensures
            r == if self.in_ram(addr) {
                Ok::<u64, Trap>(Bus::ram_off(addr))
            } else {
                Err(trap)
            },
    {
        if addr < RAM_BASE {
            return Err(trap);
        }
        let offset = addr - RAM_BASE;
        if offset >= self.ram.size() as u64 {
            return Err(trap);
        }
        Ok(offset)
    }

    fn virtio_offset(&self, addr: u64, base: u64) -> (r: Option<u64>)
        requires
            base + VIRTIO_SIZE <= u64::MAX,
        ensures
            r == if in_window(addr, base, VIRTIO_SIZE) {
                Some((addr - base) as u64)
            } else {
                None::<u64>
            },
    {
        if base <= addr && addr < base + VIRTIO_SIZE {
            Some(addr - base)
        } else {
            None
        }
    }

    fn virtio_block_read32(&self, offset: u64) -> (v: u32)
        ensures
            v == self.block_word(offset),
    {
        let dev = &self.virtio_block;
        let config = |off: u64| -> (w: u32)
            ensures
                w == dev.spec_config32(off),
            {
                dev.read_config32(off)
            };
        self.virtio.read32(dev.device_id(), dev.host_features(), config, offset)
    }

    fn virtio_net_read32(&self, offset: u64) -> (v: u32)
        ensures
            v == self.net_word(offset),
    {
        let dev = &self.virtio_net_dev;
        let config = |off: u64| -> (w: u32)
            ensures
                w == dev.config.spec_read32(off),
            {
                dev.read_config32(off)
            };
        self.virtio_net.read32(dev.device_id(), dev.host_features(), config, offset)
    }
}

impl Bus {
    /// A byte load. RAM answers first (refusing, in the trapping mode, an
    /// address whose low two bits are set); then the CLINT, the UART and
    /// the PLIC windows; a virtio window answers from its configuration
    /// space only; anything else is a load access fault.
    pub fn read8(&mut self, addr: u64) -> (r: Result<u8, Trap>)
        ensures
            Bus::read8_post(old(self), final(self), addr, r),

    {
        if addr >= RAM_BASE {
            if let Ok(offset) = self.ram_offset(addr, Trap::LoadAccessFault(addr)) {
                if self.misaligned == MisalignedAccess::Trap && addr & 3 != 0 {
                    return Err(Trap::LoadAddressMisaligned(addr));
                }
                return self.ram.read8(offset);
            }
        }
        if CLINT_BASE <= addr && addr < CLINT_BASE + CLINT_SIZE {
            return self.clint.read8(addr);
        }
        if UART_BASE <= addr && addr < UART_BASE + UART_SIZE {
            return self.uart.read8(addr);
        }
        if PLIC_BASE <= addr && addr < PLIC_BASE + PLIC_SIZE {
            return self.plic.read8(addr);
        }
        if let Some(off) = self.virtio_offset(addr, VIRTIO_BASE) {
            if off >= 0x100 {
                let val = self.virtio_block_read32(off & !3);
                return Ok((val >> lane_shift(addr)) as u8);
            }
            return Err(Trap::LoadAccessFault(addr));
        }
        if let Some(off) = self.virtio_offset(addr, VIRTIO_NET_BASE) {
            if off >= 0x100 {
                let val = self.virtio_net_read32(off & !3);
                return Ok((val >> lane_shift(addr)) as u8);
            }
            return Err(Trap::LoadAccessFault(addr));
        }
        let offset = self.ram_offset(addr, Trap::LoadAccessFault(addr))?;
        self.ram.read8(offset)
    }

    /// A halfword load: as `read8`, with the PLIC and virtio windows
    /// answering the addressed half of their word; elsewhere a fault.
    pub fn read16(&mut self, addr: u64) -> (r: Result<u16, Trap>)
        ensures
            Bus::read16_post(old(self), final(self), addr, r),

    {
        if addr >= RAM_BASE {
            if let Ok(offset) = self.ram_offset(addr, Trap::LoadAccessFault(addr)) {
                if self.misaligned == MisalignedAccess::Trap && addr & 3 != 0 {
                    return Err(Trap::LoadAddressMisaligned(addr));
                }
                return self.ram.read16(offset);
            }
        }
        if CLINT_BASE <= addr && addr < CLINT_BASE + CLINT_SIZE {
            return self.clint.read16(addr);
        }
        if UART_BASE <= addr && addr < UART_BASE + UART_SIZE {
            return self.uart.read16(addr);
        }
        if PLIC_BASE <= addr && addr < PLIC_BASE + PLIC_SIZE {
            return self.plic.read16(addr);
        }
        if let Some(off) = self.virtio_offset(addr, VIRTIO_BASE) {
            if off >= 0x100 {
                let val = self.virtio_block_read32(off & !3);
                return Ok((val >> lane_shift(addr)) as u16);
            }
            return Err(Trap::LoadAccessFault(addr));
        }
        if let Some(off) = self.virtio_offset(addr, VIRTIO_NET_BASE) {
            if off >= 0x100 {
                let val = self.virtio_net_read32(off & !3);
                return Ok((val >> lane_shift(addr)) as u16);
            }
            return Err(Trap::LoadAccessFault(addr));
        }
        if self.misaligned == MisalignedAccess::Emulate && addr & 3 != 0 {
            return self.read16_emulated(addr);
        }
        Err(Trap::LoadAccessFault(addr))
    }

    /// A word load: as `read16`, with whole transport registers from the
    /// virtio windows.
    pub fn read32(&mut self, addr: u64) -> (r: Result<u32, Trap>)
        ensures
            Bus::read32_post(old(self), final(self), addr, r),

    {
        if addr >= RAM_BASE {
            if let Ok(offset) = self.ram_offset(addr, Trap::LoadAccessFault(addr)) {
                if self.misaligned == MisalignedAccess::Trap && addr & 3 != 0 {
                    return Err(Trap::LoadAddressMisaligned(addr));
                }
                return self.ram.read32(offset);
            }
        }
        if CLINT_BASE <= addr && addr < CLINT_BASE + CLINT_SIZE {
            return self.clint.read32(addr);
        }
        if UART_BASE <= addr && addr < UART_BASE + UART_SIZE {
            return self.uart.read32(addr);
        }
        if PLIC_BASE <= addr && addr < PLIC_BASE + PLIC_SIZE {
            return self.plic.read32(addr);
        }
        if VIRTIO_BASE <= addr && addr < VIRTIO_BASE + VIRTIO_SIZE {
            return Ok(self.virtio_block_read32(addr - VIRTIO_BASE));
        }
        if VIRTIO_NET_BASE <= addr && addr < VIRTIO_NET_BASE + VIRTIO_SIZE {
            return Ok(self.virtio_net_read32(addr - VIRTIO_NET_BASE));
        }
        if self.misaligned == MisalignedAccess::Emulate && addr & 3 != 0 {
            return self.read32_emulated(addr);
        }
        Err(Trap::LoadAccessFault(addr))
    }

    /// A doubleword load: RAM and the CLINT, UART and PLIC windows answer;
    /// elsewhere a fault, except that in the splitting mode a misaligned
    /// address is read byte by byte (which only the virtio configuration
    /// spaces can answer).
    pub fn read64(&mut self, addr: u64) -> (r: Result<u64, Trap>)
        ensures
            Bus::read64_post(old(self), final(self), addr, r),

    {
        if addr >= RAM_BASE {
            if let Ok(offset) = self.ram_offset(addr, Trap::LoadAccessFault(addr)) {
                if self.misaligned == MisalignedAccess::Trap && addr & 3 != 0 {
                    return Err(Trap::LoadAddressMisaligned(addr));
                }
                return self.ram.read64(offset);
            }
        }
        if CLINT_BASE <= addr && addr < CLINT_BASE + CLINT_SIZE {
            return self.clint.read64(addr);
        }
        if UART_BASE <= addr && addr < UART_BASE + UART_SIZE {
            return self.uart.read64(addr);
        }
        if PLIC_BASE <= addr && addr < PLIC_BASE + PLIC_SIZE {
            return self.plic.read64(addr);
        }
        if self.misaligned == MisalignedAccess::Emulate && addr & 3 != 0 {
            return self.read64_emulated(addr);
        }
        Err(Trap::LoadAccessFault(addr))
    }

    fn read16_emulated(&mut self, addr: u64) -> (r: Result<u16, Trap>)
        requires
            !old(self).in_ram(addr),
            !in_device(addr),
            !in_virtio(addr),
        ensures
            *final(self) == *old(self),
            r == Err::<u16, Trap>(Trap::LoadAccessFault(addr)),
    {
        let lo = self.read8(addr)? as u16;
        let hi = self.read8(addr.wrapping_add(1))? as u16;
        Ok(lo | (hi << 8))
    }

    fn read32_emulated(&mut self, addr: u64) -> (r: Result<u32, Trap>)
        requires
            !old(self).in_ram(addr),
            !in_device(addr),
            !in_virtio(addr),
        ensures
            *final(self) == *old(self),
            r == Err::<u32, Trap>(Trap::LoadAccessFault(addr)),
    {
        let b0 = self.read8(addr)? as u32;
        let b1 = self.read8(addr.wrapping_add(1))? as u32;
        let b2 = self.read8(addr.wrapping_add(2))? as u32;
        let b3 = self.read8(addr.wrapping_add(3))? as u32;
        Ok(b0 | (b1 << 8) | (b2 << 16) | (b3 << 24))
    }

    fn read64_emulated(&mut self, addr: u64) -> (r: Result<u64, Trap>)
        requires
            !old(self).in_ram(addr),
            !in_device(addr),
        ensures
            *final(self) == *old(self),
            r is Ok ==> in_virtio(addr),
            r == old(self).virtio_bytes(addr, 8),
    {
        let mut value: u64 = 0;
        let mut i: u64 = 0;
        while i < 8
            invariant
                i <= 8,
                *self == *old(self),
                !old(self).in_ram(addr),
                !in_device(addr),
                i > 0 ==> in_virtio(addr),
                old(self).virtio_bytes(addr, i as nat) == Ok::<u64, Trap>(value),
            decreases 8 - i,
        {
            let a = addr.wrapping_add(i);
            proof {
                if i > 0 {
                    assert(a == addr + i);
                    assert(!self.in_ram(a));
                }
            }
            let b = match self.read8(a) {
                Ok(b) => b as u64,
                Err(e) => {
                    assert(self.virtio_bytes(addr, (i + 1) as nat) == Err::<u64, Trap>(e));
                    assert(forall|k: nat| i + 1 <= k <= 8 ==> #[trigger] self.virtio_bytes(addr, k) == Err::<u64, Trap>(e)) by {
                        lemma_virtio_bytes_fault_stays(*self, addr, (i + 1) as nat, e);
                    }
                    return Err(e);
                },
            };
            value = value | (b << (i * 8));
            i += 1;
        }
        Ok(value)
    }

    /// A byte store: the CLINT, UART and PLIC windows (the PLIC ignores
    /// byte stores), then RAM; anything else is a store access fault.
    pub fn write8(&mut self, addr: u64, value: u8) -> (r: Result<(), Trap>)
        ensures
            Bus::write8_post(old(self), final(self), addr, value, r),

    {
        if CLINT_BASE <= addr && addr < CLINT_BASE + CLINT_SIZE {
            return self.clint.write8(addr, value);
        }
        if UART_BASE <= addr && addr < UART_BASE + UART_SIZE {
            return self.uart.write8(addr, value);
        }
        if PLIC_BASE <= addr && addr < PLIC_BASE + PLIC_SIZE {
            return self.plic.write8(addr, value);
        }
        let offset = self.ram_offset(addr, Trap::StoreAccessFault(addr))?;
        self.ram.write8(offset, value)
    }

    /// The outcome of an `n`-byte RAM store of `v` at `addr` (inside RAM).
    pub open spec fn ram_stored(old: &Bus, new: &Bus, addr: u64, v: u64, n: nat, r: Result<(), Trap>) -> bool {
        let off = Bus::ram_off(addr);
        if old.refuses_misaligned_store(addr) {
            *new == *old && r == Err::<(), Trap>(Trap::StoreAddressMisaligned(addr))
        } else if in_bounds(off, n, old.ram.view().len()) {
            r is Ok && *new == Bus { ram: new.ram, ..*old } && new.ram.view() == spec_store_le(
                old.ram.view(),
                off as int,
                v,
                n,
            )
        } else {
            *new == Bus { ram: new.ram, ..*old } && new.ram.view() == old.ram.view() && r == Err::<(), Trap>(
                Trap::StoreAccessFault(off),
            )
        }
    }

    /// A halfword store: RAM (refusing, in the trapping mode, an odd
    /// address), the CLINT, UART and PLIC windows (the PLIC ignores it);
    /// anything else is a store access fault.
    pub fn write16(&mut self, addr: u64, value: u16) -> (r: Result<(), Trap>)
        ensures
            Bus::write16_post(old(self), final(self), addr, value, r),

    {
        if addr >= RAM_BASE {
            if let Ok(offset) = self.ram_offset(addr, Trap::StoreAccessFault(addr)) {
                if self.misaligned == MisalignedAccess::Trap && addr & 1 != 0 {
                    return Err(Trap::StoreAddressMisaligned(addr));
                }
                return self.ram.write16(offset, value);
            }
        }
        if CLINT_BASE <= addr && addr < CLINT_BASE + CLINT_SIZE {
            return self.clint.write16(addr, value);
        }
        if UART_BASE <= addr && addr < UART_BASE + UART_SIZE {
            return self.uart.write16(addr, value);
        }
        if PLIC_BASE <= addr && addr < PLIC_BASE + PLIC_SIZE {
            return self.plic.write16(addr, value);
        }
        if self.misaligned == MisalignedAccess::Emulate && addr & 1 != 0 {
            return self.write16_emulated(addr, value);
        }
        Err(Trap::StoreAccessFault(addr))
    }

    /// A word store: as `write16`; a store into a virtio window writes the
    /// transport register and serves the queue it may have notified.
    pub fn write32(&mut self, addr: u64, value: u32) -> (r: Result<(), Trap>)
        ensures
            Bus::write32_post(old(self), final(self), addr, value, r),

    {
        if addr >= RAM_BASE {
            if let Ok(offset) = self.ram_offset(addr, Trap::StoreAccessFault(addr)) {
                if self.misaligned == MisalignedAccess::Trap && addr & 1 != 0 {
                    return Err(Trap::StoreAddressMisaligned(addr));
                }
                return self.ram.write32(offset, value);
            }
        }
        if CLINT_BASE <= addr && addr < CLINT_BASE + CLINT_SIZE {
            return self.clint.write32(addr, value);
        }
        if UART_BASE <= addr && addr < UART_BASE + UART_SIZE {
            return self.uart.write32(addr, value);
        }
        if PLIC_BASE <= addr && addr < PLIC_BASE + PLIC_SIZE {
            return self.plic.write32(addr, value);
        }
        if VIRTIO_BASE <= addr && addr < VIRTIO_BASE + VIRTIO_SIZE {
            self.virtio.write32(addr - VIRTIO_BASE, value);
            self.drain_virtio_block()?;
            return Ok(());
        }
        if VIRTIO_NET_BASE <= addr && addr < VIRTIO_NET_BASE + VIRTIO_SIZE {
            self.virtio_net.write32(addr - VIRTIO_NET_BASE, value);
            self.drain_virtio_net_tx()?;
            return Ok(());
        }
        if self.misaligned == MisalignedAccess::Emulate && addr & 1 != 0 {
            return self.write32_emulated(addr, value);
        }
        Err(Trap::StoreAccessFault(addr))
    }

    /// A doubleword store: as `write16`.
    pub fn write64(&mut self, addr: u64, value: u64) -> (r: Result<(), Trap>)
        ensures
            Bus::write64_post(old(self), final(self), addr, value, r),

    {
        if addr >= RAM_BASE {
            if let Ok(offset) = self.ram_offset(addr, Trap::StoreAccessFault(addr)) {
                if self.misaligned == MisalignedAccess::Trap && addr & 1 != 0 {
                    return Err(Trap::StoreAddressMisaligned(addr));
                }
                return self.ram.write64(offset, value);
            }
        }
        if CLINT_BASE <= addr && addr < CLINT_BASE + CLINT_SIZE {
            return self.clint.write64(addr, value);
        }
        if UART_BASE <= addr && addr < UART_BASE + UART_SIZE {
            return self.uart.write64(addr, value);
        }
        if PLIC_BASE <= addr && addr < PLIC_BASE + PLIC_SIZE {
            return self.plic.write64(addr, value);
        }
        if self.misaligned == MisalignedAccess::Emulate && addr & 1 != 0 {
            return self.write64_emulated(addr, value);
        }
        Err(Trap::StoreAccessFault(addr))
    }

    fn write16_emulated(&mut self, addr: u64, value: u16) -> (r: Result<(), Trap>)
        requires
            !old(self).in_ram(addr),
            !in_device(addr),
        ensures
            *final(self) == *old(self),
            r == Err::<(), Trap>(Trap::StoreAccessFault(addr)),
    {
        self.write8(addr, value as u8)?;
        self.write8(addr.wrapping_add(1), (value >> 8) as u8)
    }

    fn write32_emulated(&mut self, addr: u64, value: u32) -> (r: Result<(), Trap>)
        requires
            !old(self).in_ram(addr),
            !in_device(addr),
        ensures
            *final(self) == *old(self),
            r == Err::<(), Trap>(Trap::StoreAccessFault(addr)),
    {
        self.write8(addr, value as u8)?;
        self.write8(addr.wrapping_add(1), (value >> 8) as u8)?;
        self.write8(addr.wrapping_add(2), (value >> 16) as u8)?;
        self.write8(addr.wrapping_add(3), (value >> 24) as u8)
    }

    fn write64_emulated(&mut self, addr: u64, value: u64) -> (r: Result<(), Trap>)
        requires
            !old(self).in_ram(addr),
            !in_device(addr),
        ensures
            *final(self) == *old(self),
            r == Err::<(), Trap>(Trap::StoreAccessFault(addr)),
    {
        self.write8(addr, value as u8)?;
        self.write8(addr.wrapping_add(1), (value >> 8) as u8)?;
        self.write8(addr.wrapping_add(2), (value >> 16) as u8)?;
        self.write8(addr.wrapping_add(3), (value >> 24) as u8)?;
        self.write8(addr.wrapping_add(4), (value >> 32) as u8)?;
        self.write8(addr.wrapping_add(5), (value >> 40) as u8)?;
        self.write8(addr.wrapping_add(6), (value >> 48) as u8)?;
        self.write8(addr.wrapping_add(7), (value >> 56) as u8)
    }

    /// Copies `bytes` into RAM from `addr` on.
    pub fn load(&mut self, addr: u64, bytes: &[u8]) -> (r: Result<(), Trap>)
        ensures
            !old(self).in_ram(addr) ==> r == Err::<(), Trap>(Trap::StoreAccessFault(addr)) && *final(self) == *old(self),
            old(self).in_ram(addr) ==> *final(self) == (Bus { ram: final(self).ram, ..*old(self) }) && {
                let off = Bus::ram_off(addr);
                &&& r is Ok <==> in_bounds(off, bytes@.len(), old(self).ram.view().len())
                &&& r is Ok ==> final(self).ram.view() == old(self).ram.view().subrange(0, off as int) + bytes@
                    + old(self).ram.view().subrange(off + bytes@.len(), old(self).ram.view().len() as int)
            },
    {
        let offset = self.ram_offset(addr, Trap::StoreAccessFault(addr))?;
        self.ram.load(offset, bytes)
    }

    /// Device reads of guest RAM: `buffer.len()` bytes from `addr` on.
    pub fn read_dma(&self, addr: u64, buffer: &mut [u8]) -> (r: Result<(), Trap>)
        ensures
            addr < RAM_BASE ==> r == Err::<(), Trap>(Trap::LoadAccessFault(addr)) && final(buffer)@ == old(buffer)@,
            addr >= RAM_BASE ==> {
                let off = (addr - RAM_BASE) as u64;
                &&& r is Ok <==> in_bounds(off, old(buffer)@.len(), self.ram.view().len())
                &&& r is Ok ==> final(buffer)@ == self.ram.view().subrange(off as int, off + old(buffer)@.len())
            },
    {
        if addr >= RAM_BASE {
            self.ram.read_bulk(addr - RAM_BASE, buffer)
        } else {
            Err(Trap::LoadAccessFault(addr))
        }
    }

    /// Device writes of guest RAM: `data` from `addr` on.
    pub fn write_dma(&mut self, addr: u64, data: &[u8]) -> (r: Result<(), Trap>)
        ensures
            addr < RAM_BASE ==> r == Err::<(), Trap>(Trap::StoreAccessFault(addr)) && *final(self) == *old(self),
            addr >= RAM_BASE ==> *final(self) == (Bus { ram: final(self).ram, ..*old(self) }) && {
                let off = (addr - RAM_BASE) as u64;
                &&& r is Ok <==> in_bounds(off, data@.len(), old(self).ram.view().len())
                &&& r is Ok ==> final(self).ram.view() == old(self).ram.view().subrange(0, off as int) + data@
                    + old(self).ram.view().subrange(off + data@.len(), old(self).ram.view().len() as int)
            },
    {
        if addr >= RAM_BASE {
            self.ram.load(addr - RAM_BASE, data)
        } else {
            Err(Trap::StoreAccessFault(addr))
        }
    }
}

/// Serving the queue that the driver of a virtio device notified, from
/// transport `t0`, device `d0`, guest RAM `m0` and PLIC `p0` to `t1`,
/// `d1`, `m1` and `p1`, with outcome `r` (see `drain_virtio_block`): the
/// notification is taken; a queue that does not exist, is not ready or
/// has no size (or the receive queue 0 when `skip_rx`) is left alone;
/// else it is served (see `drained`) with interrupt line `irq`, the
/// queue and the interrupt status of the transport taking their new
/// values.
pub open spec fn notified_drained<D: VirtIODevice>(
    t0: VirtIOMmio,
    d0: D,
    m0: Seq<u8>,
    p0: Plic,
    irq: u32,
    skip_rx: bool,
    t1: VirtIOMmio,
    d1: D,
    m1: Seq<u8>,
    p1: Plic,
    r: Result<(), Trap>,
) -> bool {
    match t0.queue_notify {
        None => r is Ok && t1 == t0 && d1 == d0 && m1 == m0 && p1 == p0,
        Some(qi) => {
            let q = t0.queues@[qi as int];
            if (skip_rx && qi == 0) || qi as int >= t0.queues@.len() || !q.ready || q.size == 0 {
                r is Ok && t1 == (VirtIOMmio { queue_notify: None, ..t0 }) && d1 == d0 && m1 == m0 && p1 == p0
            } else {
                &&& t1 == (VirtIOMmio {
                    queues: t1.queues,
                    interrupt_status: t1.interrupt_status,
                    queue_notify: None,
                    ..t0
                })
                &&& t1.queues@ == t0.queues@.update(qi as int, t1.queues@[qi as int])
                &&& exists|rr: Result<bool, Trap>|
                    #![trigger drained(d0, m0, q, p0, t0.interrupt_status, irq, qi, d1, m1, t1.queues@[qi as int], p1, t1.interrupt_status, rr)]
                    drained(d0, m0, q, p0, t0.interrupt_status, irq, qi, d1, m1, t1.queues@[qi as int], p1, t1.interrupt_status, rr)
                        && r == match rr {
                        Ok(_) => Ok::<(), Trap>(()),
                        Err(e) => Err(e),
                    }
            }
        },
    }
}

/// Serving the queue the driver of the block device notified, from bus `b0` to
/// `b1` with outcome `r` (see `notified_drained`); nothing else on the
/// bus changes.
pub open spec fn block_served(b0: Bus, b1: Bus, r: Result<(), Trap>) -> bool {
    &&& b1 == (Bus { virtio: b1.virtio, virtio_block: b1.virtio_block, ram: b1.ram, plic: b1.plic, ..b0 })
    &&& notified_drained(
        b0.virtio,
        b0.virtio_block,
        b0.ram.view(),
        b0.plic,
        VIRTIO_BLOCK_IRQ,
        false,
        b1.virtio,
        b1.virtio_block,
        b1.ram.view(),
        b1.plic,
        r,
    )
}

/// Serving the queue the driver of the network device (transmission) notified, from bus `b0` to
/// `b1` with outcome `r` (see `notified_drained`); nothing else on the
/// bus changes.
pub open spec fn net_tx_served(b0: Bus, b1: Bus, r: Result<(), Trap>) -> bool {
    &&& b1 == (Bus { virtio_net: b1.virtio_net, virtio_net_dev: b1.virtio_net_dev, ram: b1.ram, plic: b1.plic, ..b0 })
    &&& notified_drained(
        b0.virtio_net,
        b0.virtio_net_dev,
        b0.ram.view(),
        b0.plic,
        VIRTIO_NET_IRQ,
        true,
        b1.virtio_net,
        b1.virtio_net_dev,
        b1.ram.view(),
        b1.plic,
        r,
    )
}

/// Receiving for the network device (see `drain_virtio_net_rx`), from
/// bus `b0` to `b1` with outcome `r`: with no receive queue 0, or one of
/// no size, nothing happens. Otherwise the device receives into it (see
/// `rx_drained`); a fault is the outcome. When it delivered something,
/// the used index is read back and, if the driver wants to hear of it
/// (see `spec_should_interrupt`), status bit 0 is set and the network
/// interrupt raised; a fault reading either is the outcome.
pub open spec fn net_rx_drained(b0: Bus, b1: Bus, r: Result<(), Trap>) -> bool {
    if b0.virtio_net.queues@.len() == 0 || b0.virtio_net.queues@[0].size == 0 {
        r is Ok && b1 == b0
    } else {
        let q1 = b1.virtio_net.queues@[0];
        let m1 = b1.ram.view();
        let untouched = b1.virtio_net.interrupt_status == b0.virtio_net.interrupt_status && b1.plic == b0.plic;
        &&& b1 == (Bus {
            virtio_net: b1.virtio_net,
            virtio_net_dev: b1.virtio_net_dev,
            ram: b1.ram,
            plic: b1.plic,
            ..b0
        })
        &&& b1.virtio_net == (VirtIOMmio {
            queues: b1.virtio_net.queues,
            interrupt_status: b1.virtio_net.interrupt_status,
            ..b0.virtio_net
        })
        &&& b1.virtio_net.queues@ == b0.virtio_net.queues@.update(0, q1)
        &&& exists|dr: Result<bool, Trap>|
            #![trigger rx_drained(b0.virtio_net_dev, b1.virtio_net_dev, b0.virtio_net.driver_features, b0.ram.view(), b0.virtio_net.queues@[0], m1, q1, dr)]
            rx_drained(
                b0.virtio_net_dev,
                b1.virtio_net_dev,
                b0.virtio_net.driver_features,
                b0.ram.view(),
                b0.virtio_net.queues@[0],
                m1,
                q1,
                dr,
            ) && match dr {
                Err(e) => r == Err::<(), Trap>(e) && untouched,
                Ok(false) => r is Ok && untouched,
                Ok(true) => match spec_guest16(m1, q1.used_ring.wrapping_add(2)) {
                    Err(e) => r == Err::<(), Trap>(e) && untouched,
                    Ok(idx) => match spec_should_interrupt(m1, q1, idx) {
                        Err(e) => r == Err::<(), Trap>(e) && untouched,
                        Ok(false) => r is Ok && untouched,
                        Ok(true) => r is Ok && b1.virtio_net.interrupt_status == b0.virtio_net.interrupt_status | 1
                            && Plic::triggered(&b0.plic, &b1.plic, VIRTIO_NET_IRQ),
                    },
                },
            }
    }
}

/// All pending virtio work (see `drain_all_virtio`), from bus `b0` to
/// `b1` with outcome `r`: the block device's notified queue (see
/// `block_served`), then the network device's transmit queue (see
/// `net_tx_served`), then reception (see `net_rx_drained`); a fault ends
/// it and is the outcome.
pub open spec fn virtio_drained(b0: Bus, b1: Bus, r: Result<(), Trap>) -> bool {
    exists|ba: Bus, ra: Result<(), Trap>|
        #![trigger block_served(b0, ba, ra)]
        block_served(b0, ba, ra) && match ra {
            Err(e) => r == Err::<(), Trap>(e) && b1 == ba,
            Ok(_) => exists|bb: Bus, rb: Result<(), Trap>|
                #![trigger net_tx_served(ba, bb, rb)]
                net_tx_served(ba, bb, rb) && match rb {
                    Err(e) => r == Err::<(), Trap>(e) && b1 == bb,
                    Ok(_) => net_rx_drained(bb, b1, r),
                },
        }
}

/// Byte stores of an image in a row: store `j` writes `data[j]` at
/// `addr + j` (see `Bus::write8_post`) from bus `bs[j]` to `bs[j + 1]`
/// with outcome `rs[j]`; every store but the last succeeded.
pub open spec fn image_chain(bs: Seq<Bus>, rs: Seq<Result<(), Trap>>, addr: u64, data: Seq<u8>) -> bool {
    &&& bs.len() == rs.len() + 1
    &&& rs.len() <= data.len()
    &&& forall|j: int|
        #![trigger rs[j]]
        0 <= j < rs.len() ==> Bus::write8_post(&bs[j], &bs[j + 1], (addr + j) as u64, data[j], rs[j])
    &&& forall|j: int| #![trigger rs[j]] 0 <= j < rs.len() - 1 ==> rs[j] is Ok
}

/// Writing the image `data` from `addr` on (see `load_external_image`),
/// from bus `b0` to `b1` with outcome `r`: byte after byte (see
/// `image_chain`) until all are written or one faults, which is then the
/// outcome.
pub open spec fn image_written(b0: Bus, b1: Bus, addr: u64, data: Seq<u8>, r: Result<(), Trap>) -> bool {
    exists|bs: Seq<Bus>, rs: Seq<Result<(), Trap>>|
        #![trigger image_chain(bs, rs, addr, data)]
        {
            &&& image_chain(bs, rs, addr, data)
            &&& bs[0] == b0 && bs.last() == b1
            &&& if rs.len() > 0 && rs.last() is Err {
                r == rs.last()
            } else {
                rs.len() == data.len() && r == Ok::<(), Trap>(())
            }
        }
}

impl Bus {
    /// Serves the block device's notified queue, if any (a queue that does
    /// not exist, is not ready or has no size is left alone).
    fn drain_virtio_block(&mut self) -> (r: Result<(), Trap>)
        ensures
            final(self).ram.view().len() == old(self).ram.view().len(),
            block_served(*old(self), *final(self), r),
    {
        let ghost b0 = *self;
        if let Some(queue_idx) = self.virtio.take_queue_notify() {
            let idx = queue_idx as usize;
            if idx < self.virtio.queues.len() {
                let mut queue = self.virtio.queues[idx];
                if queue.ready && queue.size > 0 {
                    let mut status = self.virtio.interrupt_status;
                    let res = drain_queue(
                        &mut self.virtio_block,
                        &mut self.ram,
                        &mut self.plic,
                        &mut status,
                        VIRTIO_BLOCK_IRQ,
                        &mut queue,
                        queue_idx,
                    );
                    self.virtio.queues.set(idx, queue);
                    self.virtio.interrupt_status = status;
                    proof {
                        assert(self.virtio.queues@ =~= b0.virtio.queues@.update(idx as int, queue));
                        assert(drained(
                            b0.virtio_block,
                            b0.ram.view(),
                            b0.virtio.queues@[idx as int],
                            b0.plic,
                            b0.virtio.interrupt_status,
                            VIRTIO_BLOCK_IRQ,
                            queue_idx,
                            self.virtio_block,
                            self.ram.view(),
                            self.virtio.queues@[idx as int],
                            self.plic,
                            self.virtio.interrupt_status,
                            res,
                        ));
                    }
                    res?;
                }
            }
        }
        Ok(())
    }

    /// Serves the network device's notified transmit queue, if any (the
    /// receive queue 0 is never served on a notification).
    fn drain_virtio_net_tx(&mut self) -> (r: Result<(), Trap>)
        ensures
            final(self).ram.view().len() == old(self).ram.view().len(),
            net_tx_served(*old(self), *final(self), r),
    {
        let ghost b0 = *self;
        if let Some(queue_idx) = self.virtio_net.take_queue_notify() {
            let idx = queue_idx as usize;
            if queue_idx != 0 && idx < self.virtio_net.queues.len() {
                let mut queue = self.virtio_net.queues[idx];
                if queue.ready && queue.size > 0 {
                    let mut status = self.virtio_net.interrupt_status;
                    let res = drain_queue(
                        &mut self.virtio_net_dev,
                        &mut self.ram,
                        &mut self.plic,
                        &mut status,
                        VIRTIO_NET_IRQ,
                        &mut queue,
                        queue_idx,
                    );
                    self.virtio_net.queues.set(idx, queue);
                    self.virtio_net.interrupt_status = status;
                    proof {
                        assert(self.virtio_net.queues@ =~= b0.virtio_net.queues@.update(idx as int, queue));
                        assert(drained(
                            b0.virtio_net_dev,
                            b0.ram.view(),
                            b0.virtio_net.queues@[idx as int],
                            b0.plic,
                            b0.virtio_net.interrupt_status,
                            VIRTIO_NET_IRQ,
                            queue_idx,
                            self.virtio_net_dev,
                            self.ram.view(),
                            self.virtio_net.queues@[idx as int],
                            self.plic,
                            self.virtio_net.interrupt_status,
                            res,
                        ));
                    }
                    res?;
                }
            }
        }
        Ok(())
    }

    /// Delivers frames the network backend holds into the receive queue,
    /// then interrupts once if anything was delivered and the driver
    /// wants to hear of it.
    fn drain_virtio_net_rx(&mut self) -> (r: Result<(), Trap>)
        ensures
            final(self).ram.view().len() == old(self).ram.view().len(),
            net_rx_drained(*old(self), *final(self), r),
    {
        if self.virtio_net.queues.len() == 0 {
            return Ok(());
        }
        let mut queue = self.virtio_net.queues[0];
        if queue.size == 0 {
            return Ok(());
        }
        let ghost b0 = *self;
        let features = self.virtio_net.driver_features;
        let res = self.virtio_net_dev.drain_rx(&mut self.ram, features, &mut queue);
        self.virtio_net.queues.set(0, queue);
        proof {
            assert(self.virtio_net.queues@ =~= b0.virtio_net.queues@.update(0, queue));
            assert(rx_drained(
                b0.virtio_net_dev,
                self.virtio_net_dev,
                features,
                b0.ram.view(),
                b0.virtio_net.queues@[0],
                self.ram.view(),
                self.virtio_net.queues@[0],
                res,
            ));
        }
        let triggered = res?;
        if triggered {
            let new_used_idx = read_guest16(&self.ram, queue.used_ring.wrapping_add(2))?;
            if should_interrupt(&self.ram, &queue, new_used_idx)? {
                self.virtio_net.interrupt_status = self.virtio_net.interrupt_status | 0x1;
                self.plic.trigger_interrupt(VIRTIO_NET_IRQ);
            }
        }
        Ok(())
    }

    /// A byte typed on the console: the UART queues it and, when its
    /// receive interrupt is enabled, UART IRQ 10 is raised at the PLIC.
    pub fn receive_uart_byte(&mut self, byte: u8)
        ensures
            final(self).uart@ == (UartModel { rbr: old(self).uart@.rbr.push(byte), lsr: old(self).uart.lsr | 0x01, ..old(self).uart@ }),
            (old(self).uart.ier & 0x01) != 0 ==> Plic::triggered(&old(self).plic, &final(self).plic, 10),
            (old(self).uart.ier & 0x01) == 0 ==> final(self).plic == old(self).plic,
            *final(self) == (Bus { uart: final(self).uart, plic: final(self).plic, ..*old(self) }),
    {
        if self.uart.push_rx(byte) {
            self.plic.trigger_interrupt(10);
        }
    }

    /// Raises UART IRQ 10 at the PLIC while the UART has an interrupt to
    /// report.
    pub fn poll_uart_interrupt(&mut self)
        ensures
            old(self).uart.spec_interrupting() ==> Plic::triggered(&old(self).plic, &final(self).plic, 10),
            !old(self).uart.spec_interrupting() ==> final(self).plic == old(self).plic,
            *final(self) == (Bus { plic: final(self).plic, ..*old(self) }),
    {
        if self.uart.is_interrupting() {
            self.plic.trigger_interrupt(10);
        }
    }

    /// All pending virtio work: block requests, network transmission and
    /// network reception.
    pub fn drain_all_virtio(&mut self) -> (r: Result<(), Trap>)
        ensures
            final(self).ram.view().len() == old(self).ram.view().len(),
            final(self).clint == old(self).clint,
            final(self).uart == old(self).uart,
            final(self).misaligned == old(self).misaligned,
            virtio_drained(*old(self), *final(self), r),
    {
        self.drain_virtio_block()?;
        self.drain_virtio_net_tx()?;
        self.drain_virtio_net_rx()
    }
}


/// What the bus stores in RAM, a load of the same address then gives
/// back: a word or doubleword written successfully is read back unchanged
/// (unless loads of that address are refused as misaligned).
pub proof fn law_ram_read_after_write32(b0: Bus, b1: Bus, b2: Bus, addr: u64, v: u32, r: Result<u32, Trap>)
    requires
        b0.in_ram(addr),
        !b0.refuses_misaligned(addr),
        Bus::write32_post(&b0, &b1, addr, v, Ok(())),
        Bus::read32_post(&b1, &b2, addr, r),
    ensures
        r == Ok::<u32, Trap>(v),
{
    let off = Bus::ram_off(addr);
    law_read_after_write32(b0.ram.view(), off as int, v);
    lemma_store_le_frame(b0.ram.view(), off as int, v as u64, 4);
    assert(spec_le32(b1.ram.view(), off as int) == v);
}

/// As `law_ram_read_after_write32`, for doublewords.
pub proof fn law_ram_read_after_write64(b0: Bus, b1: Bus, b2: Bus, addr: u64, v: u64, r: Result<u64, Trap>)
    requires
        b0.in_ram(addr),
        !b0.refuses_misaligned(addr),
        Bus::write64_post(&b0, &b1, addr, v, Ok(())),
        Bus::read64_post(&b1, &b2, addr, r),
    ensures
        r == Ok::<u64, Trap>(v),
{
    let off = Bus::ram_off(addr);
    law_read_after_write64(b0.ram.view(), off as int, v);
    lemma_store_le_frame(b0.ram.view(), off as int, v, 8);
}

} // verus!
