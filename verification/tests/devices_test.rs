use glasshart_emulator::cpu::bus::{Bus, MisalignedAccess, RAM_BASE, VIRTIO_BASE, VIRTIO_NET_BASE};
use glasshart_emulator::cpu::memory::Memory;
use glasshart_emulator::devices::clint::{Clint, CLINT_BASE};
use glasshart_emulator::devices::plic::{Plic, PLIC_BASE};
use glasshart_emulator::devices::uart::{Uart, UART_BASE};
use glasshart_emulator::devices::Device;
use glasshart_emulator::trap::Trap;

#[test]
fn memory_is_little_endian() {
    let mut m = Memory::new(16);
    m.write32(0, 0xdead_beef).unwrap();
    assert_eq!(m.read8(0), Ok(0xef));
    assert_eq!(m.read8(3), Ok(0xde));
    assert_eq!(m.read16(2), Ok(0xdead));
    assert_eq!(m.read32(0), Ok(0xdead_beef));
}

#[test]
fn memory_refuses_out_of_bounds() {
    let mut m = Memory::new(16);
    assert_eq!(m.read64(9), Err(Trap::LoadAccessFault(9)));
    assert_eq!(m.write16(15, 1), Err(Trap::StoreAccessFault(15)));
    assert_eq!(m.load(10, &[1, 2, 3, 4, 5, 6, 7]), Err(Trap::StoreAccessFault(10)));
    assert_eq!(m.read32(12), Ok(0));
}

#[test]
fn memory_bulk_copies() {
    let mut m = Memory::new(8);
    m.load(2, &[1, 2, 3]).unwrap();
    let mut buf = [0u8; 4];
    m.read_bulk(1, &mut buf).unwrap();
    assert_eq!(buf, [0, 1, 2, 3]);
    assert_eq!(m.read64(0), Ok(0x0000_0003_0201_0000));
}

#[test]
fn uart_transmits_in_order() {
    let mut u = Uart::new();
    u.write8(UART_BASE, b'h').unwrap();
    u.write8(UART_BASE, b'i').unwrap();
    assert!(u.has_tx_output());
    assert_eq!(u.pop_tx(), Some(b'h'));
    assert_eq!(u.pop_tx(), Some(b'i'));
    assert_eq!(u.pop_tx(), None);
}

#[test]
fn uart_receives_in_order() {
    let mut u = Uart::new();
    u.push_rx(b'a');
    u.push_rx(b'b');
    assert_eq!(u.read8(UART_BASE + 5).unwrap() & 1, 1);
    assert_eq!(u.read8(UART_BASE), Ok(b'a'));
    assert_eq!(u.read8(UART_BASE), Ok(b'b'));
    assert_eq!(u.read8(UART_BASE + 5).unwrap() & 1, 0);
    assert_eq!(u.read8(UART_BASE), Ok(0));
}

#[test]
fn uart_divisor_latch() {
    let mut u = Uart::new();
    u.write8(UART_BASE + 3, 0x80).unwrap();
    u.write8(UART_BASE, 0x12).unwrap();
    assert_eq!(u.read8(UART_BASE), Ok(0x12));
    assert!(!u.has_tx_output());
}

#[test]
fn uart_outside_its_window() {
    let mut u = Uart::new();
    assert_eq!(u.read8(UART_BASE + 0x100), Err(Trap::LoadAccessFault(UART_BASE + 0x100)));
}

#[test]
fn clint_timer_registers() {
    let mut c = Clint::new();
    c.write64(CLINT_BASE + 0x4000, 0x1122_3344_5566_7788).unwrap();
    assert_eq!(c.read64(CLINT_BASE + 0x4000), Ok(0x1122_3344_5566_7788));
    assert_eq!(c.read8(CLINT_BASE + 0x4001), Ok(0x77));
    let before = c.read64(CLINT_BASE + 0xBFF8).unwrap();
    c.tick();
    assert_eq!(c.read64(CLINT_BASE + 0xBFF8), Ok(before.wrapping_add(1)));
}

#[test]
fn plic_claim_and_complete() {
    let mut p = Plic::new();
    // priority of IRQ 1, enable it for context 0, threshold 0
    p.write32(PLIC_BASE + 4, 1).unwrap();
    p.write32(PLIC_BASE + 0x2000, 1 << 1).unwrap();
    assert_eq!(p.evaluate_interrupt(), (false, false));
    p.trigger_interrupt(1);
    assert_eq!(p.evaluate_interrupt(), (true, false));
    assert_eq!(p.read32(PLIC_BASE + 0x200004), Ok(1));
    assert_eq!(p.evaluate_interrupt(), (false, false));
    assert_eq!(p.read32(PLIC_BASE + 0x200004), Ok(0));
}

#[test]
fn plic_threshold_masks() {
    let mut p = Plic::new();
    p.write32(PLIC_BASE + 4 * 3, 2).unwrap();
    p.write32(PLIC_BASE + 0x2080, 1 << 3).unwrap();
    p.write32(PLIC_BASE + 0x201000, 2).unwrap();
    p.trigger_interrupt(3);
    assert_eq!(p.evaluate_interrupt(), (false, false));
    p.write32(PLIC_BASE + 0x201000, 1).unwrap();
    assert_eq!(p.evaluate_interrupt(), (false, true));
}

#[test]
fn bus_routes_ram_and_devices() {
    let mut b = Bus::new(4096);
    b.write64(RAM_BASE + 8, 0x0102_0304_0506_0708).unwrap();
    assert_eq!(b.read32(RAM_BASE + 8), Ok(0x0506_0708));
    assert_eq!(b.read8(RAM_BASE + 15), Ok(0x01));
    b.write8(UART_BASE, b'x').unwrap();
    assert_eq!(b.uart.pop_tx(), Some(b'x'));
    assert_eq!(b.read32(0x100), Err(Trap::LoadAccessFault(0x100)));
    assert_eq!(b.write32(0x100, 1), Err(Trap::StoreAccessFault(0x100)));
}

#[test]
fn bus_misaligned_modes() {
    let mut b = Bus::new(4096);
    assert_eq!(b.read32(RAM_BASE + 2), Ok(0));
    b.misaligned = MisalignedAccess::Trap;
    assert_eq!(b.read32(RAM_BASE + 2), Err(Trap::LoadAddressMisaligned(RAM_BASE + 2)));
    assert_eq!(b.write16(RAM_BASE + 1, 1), Err(Trap::StoreAddressMisaligned(RAM_BASE + 1)));
}

#[test]
fn bus_ram_end_faults_with_offset() {
    let mut b = Bus::new(4096);
    assert_eq!(b.read32(RAM_BASE + 4094), Err(Trap::LoadAccessFault(4094)));
    assert_eq!(b.read32(RAM_BASE + 4096), Err(Trap::LoadAccessFault(RAM_BASE + 4096)));
}

#[test]
fn virtio_windows_identify_their_devices() {
    let mut b = Bus::new(4096);
    assert_eq!(b.read32(VIRTIO_BASE), Ok(0x7472_6976));
    assert_eq!(b.read32(VIRTIO_BASE + 8), Ok(2));
    assert_eq!(b.read32(VIRTIO_NET_BASE + 8), Ok(1));
    assert_eq!(b.read32(VIRTIO_NET_BASE + 0x108), Ok(1 | (1500 << 16)));
    assert_eq!(b.read8(VIRTIO_NET_BASE + 0x100), Ok(0x52));
    assert_eq!(b.read8(VIRTIO_BASE + 4), Err(Trap::LoadAccessFault(VIRTIO_BASE + 4)));
}

#[test]
fn block_capacity_follows_the_image() {
    let mut b = Bus::new(4096);
    b.load_block_image(vec![0u8; 4096]);
    assert_eq!(b.read32(VIRTIO_BASE + 0x100), Ok(8));
    assert_eq!(b.read32(VIRTIO_BASE + 0x114), Ok(512));
}

#[test]
fn dma_copies_ram() {
    let mut b = Bus::new(64);
    b.write_dma(RAM_BASE + 4, &[9, 8, 7]).unwrap();
    let mut buf = [0u8; 3];
    b.read_dma(RAM_BASE + 4, &mut buf).unwrap();
    assert_eq!(buf, [9, 8, 7]);
    assert_eq!(b.read_dma(0x10, &mut buf), Err(Trap::LoadAccessFault(0x10)));
    assert_eq!(b.write_dma(0x10, &buf), Err(Trap::StoreAccessFault(0x10)));
}

#[test]
fn external_image_is_written_bytewise() {
    let mut b = Bus::new(64);
    b.load_external_image(RAM_BASE + 1, &[1, 2, 3]).unwrap();
    assert_eq!(b.read32(RAM_BASE), Ok(0x0302_0100));
    assert_eq!(b.load(RAM_BASE + 62, &[1, 2, 3]), Err(Trap::StoreAccessFault(62)));
}

#[test]
fn bus_tick_advances_mtime() {
    let mut b = Bus::new(64);
    let t = b.clint.mtime;
    b.tick();
    assert_eq!(b.clint.mtime, t.wrapping_add(1));
}
