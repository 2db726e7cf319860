use glasshart_emulator::cpu::f_register::FReg;
use glasshart_emulator::cpu::execute::rv64a::{amoadd_w, lr_d};
use glasshart_emulator::cpu::execute::csr_execute::csrrs;
use glasshart_emulator::cpu::execute::rv64d::{fclass_d, feq_d, fld, fmin_d, fsgnjn_d};
use glasshart_emulator::cpu::execute::rv64f::flw;
use glasshart_emulator::cpu::bus::RAM_BASE;
use glasshart_emulator::cpu::register::Reg;
use glasshart_emulator::cpu::csr::{Csr, CSR_CYCLE, CSR_FCSR, CSR_FFLAGS, CSR_FRM, CSR_STIMECMP, CSR_TIME};
use glasshart_emulator::cpu::execute::execute;
use glasshart_emulator::cpu::{Cpu, ExecFlow, PrivilegeMode};
use glasshart_emulator::decode::decode;
use glasshart_emulator::instruction::Instruction;
use glasshart_emulator::trap::Trap;

fn cpu_with_program(words: &[u32]) -> Cpu {
    let mut cpu = Cpu::new();
    for (i, w) in words.iter().enumerate() {
        cpu.bus.write32(RAM_BASE + 4 * i as u64, *w).unwrap();
    }
    cpu
}

fn x(cpu: &Cpu, i: u32) -> u64 {
    cpu.regs.read(Reg::new(i))
}

#[test]
fn decodes_addi() {
    let d = decode(0x0050_0093);
    assert_eq!(d.length, 4);
    assert_eq!(d.instruction, Instruction::Addi { rd: Reg::new(1), rs1: Reg::new(0), imm: 5 });
}

#[test]
fn decodes_compressed_li() {
    let d = decode(0x4505);
    assert_eq!(d.length, 2);
    assert_eq!(d.instruction, Instruction::Addi { rd: Reg::new(10), rs1: Reg::new(0), imm: 1 });
}

#[test]
fn undefined_word_decodes_to_undefined() {
    let d = decode(0xffff_ffff);
    assert_eq!(d.length, 4);
    assert_eq!(d.instruction, Instruction::Undefined { raw: 0xffff_ffff });
}

#[test]
fn new_cpu_starts_at_reset_vector() {
    let cpu = Cpu::new();
    assert_eq!(cpu.pc, 0x8000_0000);
    assert_eq!(cpu.privilege_mode, PrivilegeMode::Machine);
    assert_eq!(cpu.bus.ram.size(), 128 * 1024 * 1024);
    assert!(cpu.host_request.is_none());
}

#[test]
fn runs_a_small_program() {
    // addi x1, x0, 5; addi x2, x1, 7; add x3, x1, x2
    let mut cpu = cpu_with_program(&[0x0050_0093, 0x0070_8113, 0x0020_81b3]);
    for _ in 0..3 {
        cpu.step().unwrap();
    }
    assert_eq!(x(&cpu, 1), 5);
    assert_eq!(x(&cpu, 2), 12);
    assert_eq!(x(&cpu, 3), 17);
    assert_eq!(cpu.pc, RAM_BASE + 12);
    assert_eq!(cpu.clock, 3);
}

#[test]
fn run_batch_counts_instructions() {
    let mut cpu = cpu_with_program(&[0x0050_0093, 0x0070_8113, 0x0020_81b3]);
    let n = cpu.run_batch(3);
    assert_eq!(n, 3);
    assert_eq!(x(&cpu, 3), 17);
}

#[test]
fn writes_to_x0_are_dropped() {
    // addi x0, x0, 9
    let mut cpu = cpu_with_program(&[0x0090_0013]);
    cpu.step().unwrap();
    assert_eq!(x(&cpu, 0), 0);
}

#[test]
fn ecall_in_machine_mode_traps_to_mtvec() {
    let mut cpu = cpu_with_program(&[0x0000_0073]);
    cpu.csr.mtvec = 0x8000_1000;
    cpu.step().unwrap();
    assert_eq!(cpu.csr.mcause, 11);
    assert_eq!(cpu.csr.mepc, RAM_BASE);
    assert_eq!(cpu.pc, 0x8000_1000);
    assert_eq!(cpu.privilege_mode, PrivilegeMode::Machine);
}

#[test]
fn illegal_instruction_reports_its_bits() {
    let mut cpu = cpu_with_program(&[0xffff_ffff]);
    cpu.csr.mtvec = 0x8000_2000;
    cpu.step().unwrap();
    assert_eq!(cpu.csr.mcause, 2);
    assert_eq!(cpu.csr.mtval, 0xffff_ffff);
    assert_eq!(cpu.pc, 0x8000_2000);
}

#[test]
fn mret_returns_to_the_trapped_privilege() {
    // ecall at RAM_BASE from S-mode, handler at +0x100 is mret
    let mut cpu = cpu_with_program(&[0x0000_0073]);
    cpu.bus.write32(RAM_BASE + 0x100, 0x3020_0073).unwrap();
    cpu.csr.mtvec = RAM_BASE + 0x100;
    cpu.privilege_mode = PrivilegeMode::Supervisor;
    cpu.csr.mstatus = 0x8; // MIE set
    cpu.step().unwrap();
    assert_eq!(cpu.privilege_mode, PrivilegeMode::Machine);
    assert_eq!(cpu.csr.mcause, 9);
    assert_eq!(cpu.csr.mstatus & 0x8, 0);
    cpu.step().unwrap();
    assert_eq!(cpu.privilege_mode, PrivilegeMode::Supervisor);
    assert_eq!(cpu.pc, RAM_BASE);
    assert_eq!(cpu.csr.mstatus & 0x8, 0x8);
}

#[test]
fn division_by_zero_gives_all_ones() {
    // addi x1, x0, 7; div x3, x1, x0; rem x4, x1, x0
    let mut cpu = cpu_with_program(&[0x0070_0093, 0x0200_c1b3, 0x0200_e233]);
    for _ in 0..3 {
        cpu.step().unwrap();
    }
    assert_eq!(x(&cpu, 3), u64::MAX);
    assert_eq!(x(&cpu, 4), 7);
}

#[test]
fn signed_division_rounds_toward_zero() {
    // addi x1, x0, -7; addi x2, x0, 2; div x3, x1, x2; rem x4, x1, x2
    let mut cpu = cpu_with_program(&[0xff90_0093, 0x0020_0113, 0x0220_c1b3, 0x0220_e233]);
    for _ in 0..4 {
        cpu.step().unwrap();
    }
    assert_eq!(x(&cpu, 3) as i64, -3);
    assert_eq!(x(&cpu, 4) as i64, -1);
}

#[test]
fn load_and_store_through_ram() {
    // auipc x1, 1; addi x2, x0, -2; sd x2, 0(x1); lw x3, 0(x1); lwu x4, 0(x1)
    let mut cpu = cpu_with_program(&[0x0000_1097, 0xffe0_0113, 0x0020_b023, 0x0000_a183, 0x0000_e203]);
    for _ in 0..5 {
        cpu.step().unwrap();
    }
    assert_eq!(x(&cpu, 1), 0x8000_1000);
    assert_eq!(x(&cpu, 3), 0xffff_ffff_ffff_fffe);
    assert_eq!(x(&cpu, 4), 0xffff_fffe);
    assert_eq!(cpu.bus.read64(0x8000_1000), Ok(0xffff_ffff_ffff_fffe));
}

#[test]
fn lui_sign_extends() {
    // lui x1, 0x80001
    let mut cpu = cpu_with_program(&[0x8000_10b7]);
    cpu.step().unwrap();
    assert_eq!(x(&cpu, 1), 0xffff_ffff_8000_1000);
}

#[test]
fn branch_taken_and_not_taken() {
    // addi x1, x0, 1; beq x1, x0, 8; bne x1, x0, 8; addi x5,x0,1; addi x6,x0,1
    let mut cpu = cpu_with_program(&[0x0010_0093, 0x0000_8463, 0x0000_9463, 0x0010_0293, 0x0010_0313]);
    for _ in 0..4 {
        cpu.step().unwrap();
    }
    assert_eq!(x(&cpu, 5), 0);
    assert_eq!(x(&cpu, 6), 1);
    assert_eq!(cpu.pc, RAM_BASE + 20);
}

#[test]
fn jal_links_the_next_pc() {
    // jal x1, 8
    let mut cpu = cpu_with_program(&[0x0080_00ef]);
    cpu.step().unwrap();
    assert_eq!(x(&cpu, 1), RAM_BASE + 4);
    assert_eq!(cpu.pc, RAM_BASE + 8);
}

#[test]
fn csrrw_swaps_mscratch() {
    // addi x1, x0, 42; csrrw x2, mscratch, x1; csrrs x3, mscratch, x0
    let mut cpu = cpu_with_program(&[0x02a0_0093, 0x3400_9173, 0x3400_21f3]);
    for _ in 0..3 {
        cpu.step().unwrap();
    }
    assert_eq!(x(&cpu, 2), 0);
    assert_eq!(x(&cpu, 3), 42);
    assert_eq!(cpu.csr.mscratch, 42);
}

#[test]
fn user_mode_cannot_touch_machine_csrs() {
    // csrrs x3, mscratch, x0 from U-mode
    let mut cpu = cpu_with_program(&[0x3400_21f3]);
    cpu.privilege_mode = PrivilegeMode::User;
    cpu.csr.mtvec = RAM_BASE + 0x400;
    cpu.step().unwrap();
    assert_eq!(cpu.csr.mcause, 2);
    assert_eq!(cpu.privilege_mode, PrivilegeMode::Machine);
}

#[test]
fn lr_sc_pair_succeeds_once() {
    // auipc x1,1; lr.w x2,(x1); sc.w x3,x0,(x1); sc.w x4,x0,(x1)
    let mut cpu = cpu_with_program(&[0x0000_1097, 0x1000_a12f, 0x1800_a1af, 0x1800_a22f]);
    for _ in 0..4 {
        cpu.step().unwrap();
    }
    assert_eq!(x(&cpu, 3), 0);
    assert_eq!(x(&cpu, 4), 1);
    assert!(cpu.reservation.is_none());
}

#[test]
fn amoadd_returns_the_old_value() {
    // auipc x1,1; addi x2,x0,5; amoadd.w x3,x2,(x1); amoadd.w x4,x2,(x1)
    let mut cpu = cpu_with_program(&[0x0000_1097, 0x0050_0113, 0x0020_a1af, 0x0020_a22f]);
    for _ in 0..4 {
        cpu.step().unwrap();
    }
    assert_eq!(x(&cpu, 3), 0);
    assert_eq!(x(&cpu, 4), 5);
    assert_eq!(cpu.bus.read32(0x8000_1000), Ok(10));
}

#[test]
fn timer_interrupt_is_taken_when_enabled() {
    let mut cpu = cpu_with_program(&[0x0000_0013]);
    cpu.csr.mtvec = RAM_BASE + 0x200;
    cpu.csr.mstatus = 0x8;
    cpu.csr.mie = 1 << 7;
    cpu.csr.mip = 1 << 7;
    assert_eq!(cpu.pending_interrupt(), Some(7));
    cpu.step().unwrap();
    assert_eq!(cpu.csr.mcause, (1u64 << 63) | 7);
    assert_eq!(cpu.pc, RAM_BASE + 0x200);
    assert_eq!(cpu.csr.mepc, RAM_BASE);
}

#[test]
fn vectored_mode_offsets_interrupts() {
    let mut cpu = Cpu::new();
    cpu.csr.mtvec = 0x8000_0001;
    cpu.handle_interrupt(7).unwrap();
    assert_eq!(cpu.pc, 0x8000_0000 + 28);
}

#[test]
fn exception_codes() {
    assert_eq!(Cpu::exception_cause(&Trap::Breakpoint), 3);
    assert_eq!(Cpu::exception_cause(&Trap::StorePageFault(0)), 15);
    assert_eq!(Cpu::exception_cause(&Trap::EcallFromUMode), 8);
}

#[test]
fn reservations() {
    let mut cpu = Cpu::new();
    cpu.reserve_address(0x10);
    assert!(cpu.reservation_matches(0x10));
    assert!(!cpu.reservation_matches(0x18));
    cpu.clear_reservation();
    assert!(!cpu.reservation_matches(0x10));
}

#[test]
fn float_add_waits_for_the_host() {
    // fadd.s f1, f2, f3 (rm = dyn)
    let mut cpu = cpu_with_program(&[0x0031_70d3]);
    cpu.step().unwrap();
    assert!(cpu.host_request.is_some());
    assert_eq!(cpu.pc, RAM_BASE);
    let op = cpu.host_operation().unwrap();
    assert_eq!(op.a, 0x7fc0_0000);
    cpu.complete_host_request(0x3f80_0000, 0x1);
    assert!(cpu.host_request.is_none());
    assert_eq!(cpu.pc, RAM_BASE + 4);
    assert_eq!(cpu.f_regs.read_f32_bits(glasshart_emulator::cpu::f_register::FReg::new(1)), 0x3f80_0000);
    assert_eq!(cpu.csr.fflags, 1);
}

#[test]
fn sret_returns_to_the_trapped_privilege() {
    // ecall at RAM_BASE from U-mode, delegated to S-mode; the handler at +0x200 is sret.
    let mut cpu = cpu_with_program(&[0x0000_0073]);
    cpu.bus.write32(RAM_BASE + 0x200, 0x1020_0073).unwrap();
    cpu.csr.medeleg = 1 << 8;
    cpu.csr.stvec = RAM_BASE + 0x200;
    cpu.privilege_mode = PrivilegeMode::User;
    cpu.csr.mstatus = 0x2; // SIE set
    cpu.step().unwrap();
    assert_eq!(cpu.privilege_mode, PrivilegeMode::Supervisor);
    assert_eq!(cpu.csr.scause, 8);
    assert_eq!(cpu.csr.sepc, RAM_BASE);
    assert_eq!(cpu.csr.mstatus & 0x2, 0);
    assert_eq!(cpu.csr.mstatus & 0x100, 0);
    assert_eq!(cpu.pc, RAM_BASE + 0x200);
    cpu.step().unwrap();
    assert_eq!(cpu.privilege_mode, PrivilegeMode::User);
    assert_eq!(cpu.pc, RAM_BASE);
    assert_eq!(cpu.csr.mstatus & 0x2, 0x2);
}

#[test]
fn floating_point_csrs_stay_consistent() {
    let mut c = Csr::new();
    c.write(CSR_FFLAGS, 0x1F).unwrap();
    assert_eq!(c.read(CSR_FCSR), Ok(0x1F));
    c.write(CSR_FRM, 3).unwrap();
    assert_eq!(c.read(CSR_FCSR), Ok(0x7F));
    c.write(CSR_FCSR, 0x25).unwrap();
    assert_eq!(c.read(CSR_FRM), Ok(1));
    assert_eq!(c.read(CSR_FFLAGS), Ok(5));
}

#[test]
fn advancing_time_raises_timer_interrupts() {
    let mut cpu = Cpu::new();
    cpu.bus.clint.mtimecmp = 100;
    cpu.csr.write(CSR_STIMECMP, 50).unwrap();
    cpu.advance_time(40);
    assert_eq!(cpu.bus.clint.mtime, 40);
    assert_eq!(cpu.csr.time, 40);
    assert_eq!(cpu.csr.mip & 0xA0, 0);
    cpu.advance_time(20);
    assert_eq!(cpu.csr.mip & 0xA0, 0x20);
    cpu.advance_time(40);
    assert_eq!(cpu.csr.mip & 0xA0, 0xA0);
}

#[test]
fn execute_reports_the_instruction_effect() {
    let mut cpu = Cpu::new();
    cpu.regs.write(Reg::new(1), 10);
    cpu.regs.write(Reg::new(2), 10);
    // beq x1, x2, +16
    let d = decode(0x0020_8863);
    assert_eq!(execute(d, &mut cpu), Ok(ExecFlow::Jump(RAM_BASE + 16)));
    // bne x1, x2, +16 falls through.
    let d = decode(0x0020_9863);
    assert_eq!(execute(d, &mut cpu), Ok(ExecFlow::Next));
    // sub x3, x1, x2
    let d = decode(0x4020_81b3);
    assert_eq!(execute(d, &mut cpu), Ok(ExecFlow::Next));
    assert_eq!(x(&cpu, 3), 0);
}

#[test]
fn atomics_fault_outside_memory_and_leave_registers() {
    let mut cpu = Cpu::new();
    cpu.regs.write(Reg::new(1), 0x10);
    cpu.regs.write(Reg::new(2), 7);
    cpu.regs.write(Reg::new(3), 99);
    assert_eq!(amoadd_w(&mut cpu, Reg::new(3), Reg::new(1), Reg::new(2)), Err(Trap::LoadAccessFault(0x10)));
    assert_eq!(x(&cpu, 3), 99);
    assert_eq!(lr_d(&mut cpu, Reg::new(3), Reg::new(1)), Err(Trap::LoadAccessFault(0x10)));
    assert_eq!(x(&cpu, 3), 99);
    assert_eq!(cpu.reservation, None);
    // In RAM the old word comes back sign-extended and the sum is stored.
    cpu.bus.write32(RAM_BASE, 0xFFFF_FFFE).unwrap();
    cpu.regs.write(Reg::new(1), RAM_BASE);
    assert_eq!(amoadd_w(&mut cpu, Reg::new(3), Reg::new(1), Reg::new(2)), Ok(ExecFlow::Next));
    assert_eq!(x(&cpu, 3), 0xFFFF_FFFF_FFFF_FFFE);
    assert_eq!(cpu.bus.read32(RAM_BASE), Ok(5));
    assert_eq!(lr_d(&mut cpu, Reg::new(4), Reg::new(1)), Ok(ExecFlow::Next));
    assert_eq!(cpu.reservation, Some(RAM_BASE));
}

#[test]
fn float_loads_fault_outside_memory() {
    let mut cpu = Cpu::new();
    cpu.regs.write(Reg::new(1), 0x20);
    assert_eq!(flw(&mut cpu, FReg::new(1), Reg::new(1), 0), Err(Trap::LoadAccessFault(0x20)));
    assert_eq!(fld(&mut cpu, FReg::new(1), Reg::new(1), 8), Err(Trap::LoadAccessFault(0x28)));
    cpu.bus.write64(RAM_BASE + 8, 0x4000_0000_0000_0000).unwrap();
    cpu.regs.write(Reg::new(1), RAM_BASE);
    assert_eq!(fld(&mut cpu, FReg::new(2), Reg::new(1), 8), Ok(ExecFlow::Next));
    assert_eq!(cpu.f_regs.read_f64_bits(FReg::new(2)), 0x4000_0000_0000_0000);
}

#[test]
fn run_batch_stops_on_a_trap() {
    // addi x1, x0, 5; then an illegal word.
    let mut cpu = cpu_with_program(&[0x0050_0093, 0xffff_ffff, 0x0050_0093]);
    cpu.csr.mtvec = 0x8000_2000;
    let n = cpu.run_batch(10);
    assert_eq!(n, 1);
    assert_eq!(x(&cpu, 1), 5);
    assert_eq!(cpu.csr.mcause, 2);
    assert_eq!(cpu.csr.mepc, RAM_BASE + 4);
    assert_eq!(cpu.pc, 0x8000_2000);
    assert_eq!(cpu.clock, 2);
}

#[test]
fn a_fresh_hart_is_at_reset() {
    let cpu = Cpu::new();
    assert_eq!(cpu.pc, 0x8000_0000);
    assert_eq!(cpu.privilege_mode, PrivilegeMode::Machine);
    assert_eq!(cpu.csr.mepc, 0);
    assert_eq!(cpu.csr.mcause, 0);
    assert_eq!(cpu.csr.mhartid, 0);
    assert_eq!(cpu.csr.stimecmp(), 0);
    assert_eq!(cpu.csr.read(CSR_STIMECMP), Ok(0));
    assert_eq!(cpu.f_regs.read_f64_bits(FReg::new(3)), 0);
    assert_eq!(cpu.bus.ram.size(), 128 * 1024 * 1024);
    assert!(cpu.decode_cache.iter().all(|e| !e.valid));
}

#[test]
fn delegated_interrupt_from_user_mode_goes_to_supervisor() {
    let mut cpu = Cpu::new();
    cpu.privilege_mode = PrivilegeMode::User;
    cpu.pc = 0x1000;
    cpu.csr.mideleg = 1 << 5;
    cpu.csr.stvec = 0x8020_0001;
    cpu.csr.mstatus = 1 << 1;
    assert!(cpu.handle_interrupt(5).is_ok());
    assert_eq!(cpu.privilege_mode, PrivilegeMode::Supervisor);
    assert_eq!(cpu.pc, 0x8020_0014);
    assert_eq!(cpu.csr.sepc, 0x1000);
    assert_eq!(cpu.csr.scause, (1 << 63) | 5);
    assert_eq!(cpu.csr.stval, 0);
    assert_eq!(cpu.csr.mstatus, 1 << 5);
    assert_eq!(cpu.csr.mepc, 0);
    assert_eq!(cpu.csr.mcause, 0);
}

#[test]
fn reading_mhartid_gives_zero() {
    let mut cpu = Cpu::new();
    cpu.regs.write(Reg::new(5), 7);
    assert_eq!(csrrs(&mut cpu, Reg::new(5), Reg::new(0), 0xF14), Ok(ExecFlow::Next));
    assert_eq!(x(&cpu, 5), 0);
}

#[test]
fn double_compare_min_and_class_run_on_the_hart() {
    let mut cpu = Cpu::new();
    let (f1, f2, f3) = (FReg::new(1), FReg::new(2), FReg::new(3));
    // -0.0 and +0.0: equal, the minimum is -0.0.
    cpu.f_regs.write_f64_bits(f1, 0x8000_0000_0000_0000);
    cpu.f_regs.write_f64_bits(f2, 0);
    assert_eq!(fmin_d(&mut cpu, f3, f1, f2), Ok(ExecFlow::Next));
    assert_eq!(cpu.f_regs.read_f64_bits(f3), 0x8000_0000_0000_0000);
    assert_eq!(feq_d(&mut cpu, Reg::new(5), f1, f2), Ok(ExecFlow::Next));
    assert_eq!(x(&cpu, 5), 1);
    assert_eq!(cpu.csr.fflags, 0);
    // A signaling NaN: not equal, invalid raised, classed as signaling.
    cpu.f_regs.write_f64_bits(f1, 0x7ff0_0000_0000_0001);
    assert_eq!(feq_d(&mut cpu, Reg::new(5), f1, f2), Ok(ExecFlow::Next));
    assert_eq!(x(&cpu, 5), 0);
    assert_eq!(cpu.csr.fflags, 0x10);
    assert_eq!(fclass_d(&mut cpu, Reg::new(6), f1), Ok(ExecFlow::Next));
    assert_eq!(x(&cpu, 6), 1 << 8);
    // 1.0 with the sign of +0.0 flipped.
    cpu.f_regs.write_f64_bits(f1, 0x3ff0_0000_0000_0000);
    assert_eq!(fsgnjn_d(&mut cpu, f3, f1, f2), Ok(ExecFlow::Next));
    assert_eq!(cpu.f_regs.read_f64_bits(f3), 0xbff0_0000_0000_0000);
}

#[test]
fn writes_of_time_and_cycle_do_not_show_in_reads() {
    let mut c = Csr::new();
    c.time = 7;
    c.write(CSR_TIME, 99).unwrap();
    c.write(CSR_CYCLE, 42).unwrap();
    assert_eq!(c.read(CSR_TIME), Ok(7));
    assert_eq!(c.read(CSR_CYCLE), Ok(0));
    c.write(CSR_STIMECMP, 1234).unwrap();
    assert_eq!(c.read(CSR_STIMECMP), Ok(1234));
    assert_eq!(c.stimecmp(), 1234);
}
