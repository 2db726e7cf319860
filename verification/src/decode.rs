pub mod c_formats;
pub mod f_formats;
pub mod formats;
pub mod opcode;
pub mod rv32_64;
pub mod rv64fd;
pub mod compressed;
pub mod encoding;

use vstd::prelude::*;

use crate::cpu::register::Reg;

use crate::decode::compressed::{decode_compressed, spec_decode_compressed};
use crate::decode::rv32_64::{decode_normal, spec_decode_normal};
use crate::instruction::{DecodedInstruction, Instruction};

verus! {

/// What `decode` gives for an instruction word: when the low two bits of
/// the first halfword are not `11`, the halfword is a compressed
/// instruction of length 2; otherwise the whole word is a 4-byte one.
pub open spec fn spec_decode(raw: u32) -> DecodedInstruction {
    let first_half = raw as u16;
    if first_half & 0b11 != 0b11 {
        DecodedInstruction { instruction: spec_decode_compressed(first_half), length: 2 }
    } else {
        DecodedInstruction { instruction: spec_decode_normal(raw), length: 4 }
    }
}

/// Decodes the instruction at the start of `raw`.
pub fn decode(raw: u32) -> (d: DecodedInstruction)
    ensures
        d == spec_decode(raw),
        d.length == 2 || d.length == 4,
{
    let first_half = raw as u16;
    if first_half & 0b11 != 0b11 {
        DecodedInstruction { instruction: decode_compressed(first_half), length: 2 }
    } else {
        DecodedInstruction { instruction: decode_normal(raw), length: 4 }
    }
}

/// A compressed word of quadrant 1 with funct3 `100` and bits 11..10
/// `01` is C.SRAI: an arithmetic right shift of `x(8 + rd')` (bits 9..7)
/// by itself, by the 6-bit amount of bit 12 and bits 6..2, two bytes long.
pub proof fn law_c_srai_is_arithmetic_shift(raw: u32)
    requires
        (raw as u16) & 0b11 == 1,
        ((raw as u16) >> 13u16) & 0b111 == 0b100,
        (((raw as u16) as u32) >> 10u32) & 0b11 == 0b01,
    ensures
        ({
            let h = (raw as u16) as u32;
            let d = spec_decode(raw);
            &&& d.length == 2
            &&& d.instruction matches Instruction::Srai { rd, rs1, shamt } && rd == rs1 && rd == Reg::new(
                ((h >> 7u32) & 0b111) | 8,
            ) && shamt == (((h >> 12u32) & 1) << 5u32) | ((h >> 2u32) & 0b11111)
        }),
{
}

} // verus!
