use glasshart_emulator::cpu::csr::{Csr, CSR_MHARTID, CSR_MSCRATCH, CSR_MSTATUS, CSR_SSTATUS, SSTATUS_MASK};
use glasshart_emulator::cpu::f_register::{FReg, FRegister, CANONICAL_NAN_F32};
use glasshart_emulator::cpu::register::{Reg, Register};
use glasshart_emulator::mmu::address::VirtualAddress;
use glasshart_emulator::mmu::pte::Pte;
use glasshart_emulator::mmu::satp::{Satp, SatpMode};
use glasshart_emulator::mmu::tlb::{Tlb, TlbEntry};
use glasshart_emulator::trap::Trap;

#[test]
fn register_zero_stays_zero() {
    let mut r = Register::new();
    r.write(Reg::new(0), 7);
    r.write(Reg::new(5), 9);
    assert_eq!(r.read(Reg::new(0)), 0);
    assert_eq!(r.read(Reg::new(5)), 9);
    assert_eq!(Reg::new(2).abi_name(), "sp");
    assert!(Reg::new(2).is_sp());
    assert!(Reg::new(0).is_zero());
}

#[test]
fn single_precision_values_are_nan_boxed() {
    let mut f = FRegister::new();
    f.write_f32_bits(FReg::new(1), 0x3f80_0000);
    assert_eq!(f.read_bits(FReg::new(1)), 0xffff_ffff_3f80_0000);
    assert_eq!(f.read_f32_bits(FReg::new(1)), 0x3f80_0000);
    assert!(f.is_nan_boxed(FReg::new(1)));
    // A double is not a boxed single: reading it as one gives the canonical NaN.
    f.write_f64_bits(FReg::new(2), 0x3ff0_0000_0000_0000);
    assert!(!f.is_nan_boxed(FReg::new(2)));
    assert_eq!(f.read_f32_bits(FReg::new(2)), CANONICAL_NAN_F32);
    assert_eq!(f.read_f32_raw_bits(FReg::new(2)), 0);
}

#[test]
fn csr_sstatus_is_a_view_of_mstatus() {
    let mut c = Csr::new();
    c.write(CSR_MSTATUS, u64::MAX).unwrap();
    assert_eq!(c.read(CSR_SSTATUS), Ok(SSTATUS_MASK));
    c.write(CSR_SSTATUS, 0).unwrap();
    assert_eq!(c.read(CSR_MSTATUS), Ok(!SSTATUS_MASK));
    c.write(CSR_MSCRATCH, 0x1234).unwrap();
    assert_eq!(c.read(CSR_MSCRATCH), Ok(0x1234));
}

#[test]
fn csr_information_registers_are_read_only() {
    let mut c = Csr::new();
    assert_eq!(c.read(CSR_MHARTID), Ok(0));
    assert_eq!(c.write(CSR_MHARTID, 1), Err(Trap::IllegalInstruction(0xF14)));
}

#[test]
fn pte_fields() {
    // ppn 0x12345, flags D A G U X W R V.
    let p = Pte::new((0x12345 << 10) | 0xFF);
    assert!(p.valid() && p.read() && p.write() && p.execute());
    assert!(p.user() && p.global() && p.accessed() && p.dirty());
    assert_eq!(p.ppn(), 0x12345);
    assert_eq!(p.ppn0(), 0x145);
    assert_eq!(p.ppn1(), 0x91);
    assert!(p.is_leaf());
    assert!(!p.is_invalid());
    // Write without read is reserved.
    assert!(Pte::new(0b101).is_invalid());
    assert!(Pte::new(0).is_invalid());
}

#[test]
fn satp_fields() {
    let s = Satp::new((8u64 << 60) | (0x55 << 44) | 0x80042);
    assert_eq!(s.mode(), SatpMode::Sv39);
    assert_eq!(s.asid(), 0x55);
    assert_eq!(s.ppn(), 0x80042);
    assert_eq!(Satp::new(0).mode(), SatpMode::Bare);
}

#[test]
fn virtual_address_fields() {
    let v = VirtualAddress::new(0x0000_003F_C0DE_1ABC);
    assert_eq!(v.page_offset(), 0xABC);
    assert_eq!(v.vpn0(), (0x3F_C0DE_1ABCu64 >> 12) as u16 & 0x1FF);
    assert_eq!(v.vpn1(), ((0x3F_C0DE_1ABCu64 >> 21) & 0x1FF) as u16);
    assert_eq!(v.vpn2(), ((0x3F_C0DE_1ABCu64 >> 30) & 0x1FF) as u16);
    assert!(v.is_canonical());
    assert!(!VirtualAddress::new(0x0000_0040_0000_0000).is_canonical());
    assert!(VirtualAddress::new(0xFFFF_FFC0_0000_0000).is_canonical());
}

#[test]
fn tlb_flushes() {
    let mut t = Tlb::new();
    let e = |vpn: u64, asid: u16, global: bool| TlbEntry {
        vpn,
        asid,
        is_global: global,
        valid: true,
        pte_bits: 0xCF,
        page_mask: 0,
        ppn: vpn,
    };
    t.entries[Tlb::hash(1)] = e(1, 1, false);
    t.entries[Tlb::hash(2)] = e(2, 2, false);
    t.entries[Tlb::hash(3)] = e(3, 1, true);
    t.flush_asid(1);
    assert!(!t.entries[1].valid);
    assert!(t.entries[2].valid);
    assert!(t.entries[3].valid);
    t.flush_page(2 << 12, 2, false);
    assert!(!t.entries[2].valid);
    assert!(t.entries[3].valid);
    t.flush_all();
    assert!(t.entries.iter().all(|x| !x.valid));
    assert_eq!(Tlb::hash(0x1234_5678), 0x678);
}
