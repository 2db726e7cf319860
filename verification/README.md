# GlassHart emulator

A RISC-V (RV64IMAFDC, Sv39) system emulator whose core is proved with Verus:
the hart (decode, execute, traps and interrupts, CSRs, the MMU and TLB), the
bus with RAM, CLINT, PLIC and a 16550 UART, and virtio-mmio block and network
devices (with TCP receive coalescing).

Layout:

- `src/` — the library, every function with its contract:
  - `cpu.rs` and `cpu/` — the hart: `Cpu::step` and `Cpu::run_batch` are
    specified clock by clock (`stepped`, `batch_clock`), `execute` instruction
    by instruction (`cpu/execute/semantics.rs`);
  - `decode.rs` and `decode/` — instruction decoding, as spec functions over
    the instruction bits, with the OP-FP and AMO decoders checked against
    their encoding tables (`decode/encoding.rs`);
  - `mmu.rs` and `mmu/` — Sv39 translation (`walked`, `translated`) and the
    TLB;
  - `devices/` — CLINT, PLIC, UART and the virtio devices.
- `tests/` — tests on concrete values.
- `app/` — the program: loads firmware, device tree, kernel and disk image,
  drives the terminal, keeps the timer on wall-clock time, and computes the
  floating-point arithmetic the hart hands over (`Cpu::host_request`) with
  Berkeley SoftFloat.
