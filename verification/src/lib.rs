pub mod cpu;
pub mod decode;
pub mod devices;
pub mod instruction;
pub mod mmu;
pub mod trap;
