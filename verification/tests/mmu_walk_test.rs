use glasshart_emulator::cpu::{Cpu, PrivilegeMode};
use glasshart_emulator::mmu::access_type::AccessType;
use glasshart_emulator::mmu::tlb::Tlb;
use glasshart_emulator::mmu::Mmu;
use glasshart_emulator::trap::Trap;

const ROOT: u64 = 0x8010_0000;
const L1: u64 = 0x8010_1000;
const L0: u64 = 0x8010_2000;
const VA: u64 = 0x1234_5678;

/// A supervisor-mode hart with Sv39 on and one 4 KiB page mapped:
/// VA 0x1234_5000 -> PA 0x8020_3000, with leaf flags `leaf_flags`.
fn mapped_hart(leaf_flags: u64) -> Cpu {
    let mut cpu = Cpu::new();
    cpu.bus.write64(ROOT, ((L1 >> 12) << 10) | 1).unwrap();
    cpu.bus.write64(L1 + 0x91 * 8, ((L0 >> 12) << 10) | 1).unwrap();
    cpu.bus.write64(L0 + 0x145 * 8, (0x80203 << 10) | leaf_flags).unwrap();
    cpu.csr.satp = (8u64 << 60) | (ROOT >> 12);
    cpu.privilege_mode = PrivilegeMode::Supervisor;
    cpu
}

#[test]
fn sv39_walk_finds_the_page() {
    let mut cpu = mapped_hart(0xC7);
    assert_eq!(Mmu::translate(&mut cpu, VA, AccessType::Read), Ok(0x8020_3678));
    // The translation is now cached in the TLB slot of the page.
    let e = cpu.tlb.entries[Tlb::hash(VA >> 12)];
    assert!(e.valid);
    assert_eq!(e.vpn, VA >> 12);
    assert_eq!(e.ppn, 0x80203);
    assert_eq!(e.page_mask, 0xFFF);
    // A store through the same mapping works too.
    assert_eq!(Mmu::translate(&mut cpu, VA + 8, AccessType::Write), Ok(0x8020_3680));
}

#[test]
fn sv39_faults() {
    // Unmapped page.
    let mut cpu = mapped_hart(0xC7);
    assert_eq!(Mmu::translate(&mut cpu, 0x2000_0000, AccessType::Read), Err(Trap::LoadPageFault(0x2000_0000)));
    // A readable page that is not executable cannot be fetched from.
    assert_eq!(Mmu::translate(&mut cpu, VA, AccessType::Instruction), Err(Trap::InstructionPageFault(VA)));
    // Without the dirty bit a store faults.
    let mut cpu = mapped_hart(0x47);
    assert_eq!(Mmu::translate(&mut cpu, VA, AccessType::Write), Err(Trap::StorePageFault(VA)));
    // A non-canonical address faults at once.
    let bad = 0x0000_0040_0000_0000;
    assert_eq!(Mmu::translate(&mut cpu, bad, AccessType::Read), Err(Trap::LoadPageFault(bad)));
    // U-mode cannot reach a supervisor page.
    let mut cpu = mapped_hart(0xC7);
    cpu.privilege_mode = PrivilegeMode::User;
    assert_eq!(Mmu::translate(&mut cpu, VA, AccessType::Read), Err(Trap::LoadPageFault(VA)));
}

#[test]
fn machine_mode_is_untranslated() {
    let mut cpu = mapped_hart(0xC7);
    cpu.privilege_mode = PrivilegeMode::Machine;
    assert_eq!(Mmu::translate(&mut cpu, VA, AccessType::Read), Ok(VA));
}

#[test]
fn loads_go_through_the_mapping() {
    let mut cpu = mapped_hart(0xC7);
    cpu.bus.write32(0x8020_3678, 0xFEED_BEEF).unwrap();
    assert_eq!(Mmu::read32(&mut cpu, VA), Ok(0xFEED_BEEF));
    Mmu::write16(&mut cpu, VA, 0x1234).unwrap();
    assert_eq!(cpu.bus.read32(0x8020_3678), Ok(0xFEED_1234));
}

#[test]
fn page_crossing_accesses_go_byte_by_byte() {
    // The page after the mapped one is unmapped: the bytes on the mapped
    // page are reached, the first byte beyond it faults.
    let mut cpu = mapped_hart(0xC7);
    let edge = 0x1234_5FFE;
    assert_eq!(Mmu::read32(&mut cpu, edge), Err(Trap::LoadPageFault(0x1234_6000)));
    assert_eq!(Mmu::write32(&mut cpu, edge, 0xAABB_CCDD), Err(Trap::StorePageFault(0x1234_6000)));
    assert_eq!(cpu.bus.read16(0x8020_3FFE), Ok(0xCCDD));
    // Untranslated, a crossing load gives the little-endian value.
    let mut cpu = Cpu::new();
    Mmu::write64(&mut cpu, 0x8000_0FFC, 0x0102_0304_0506_0708).unwrap();
    assert_eq!(Mmu::read64(&mut cpu, 0x8000_0FFC), Ok(0x0102_0304_0506_0708));
    assert_eq!(Mmu::read16(&mut cpu, 0x8000_0FFF), Ok(0x0405));
    assert_eq!(cpu.bus.read32(0x8000_1000), Ok(0x0102_0304));
}

#[test]
fn a_root_table_outside_ram_is_read_through_the_bus() {
    // satp names a root table at physical address 0, where nothing
    // answers: the entry read faults as a load access fault.
    let mut cpu = Cpu::new();
    cpu.csr.satp = 8u64 << 60;
    cpu.privilege_mode = PrivilegeMode::Supervisor;
    assert_eq!(Mmu::translate(&mut cpu, 0x1000, AccessType::Read), Err(Trap::LoadAccessFault(0)));
}
