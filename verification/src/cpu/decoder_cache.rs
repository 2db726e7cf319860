use vstd::prelude::*;

use crate::instruction::{DecodedInstruction, Instruction};

verus! {

/// One slot of the decoded-instruction cache.
#[derive(Clone, Copy, Debug, PartialEq, Eq, Structural)]
pub struct DecodeEntry {
    pub pc: u64,
    pub valid: bool,
    pub decoded: DecodedInstruction,
    pub length: u8,
}

impl Default for DecodeEntry {
    /// An empty slot.
    fn default() -> (e: Self)
        ensures
            !e.valid && e.pc == 0 && e.length == 0,
            e.decoded == (DecodedInstruction { instruction: Instruction::Undefined { raw: 0 }, length: 0 }),
    {
        DecodeEntry { pc: 0, valid: false, decoded: DecodedInstruction::default(), length: 0 }
    }
}

/// At most this many instructions make up a basic block.
pub const MAX_BLOCK_SIZE: usize = 32;

/// A run of pre-decoded instructions from `pc` on, valid while the
/// translation generation it was built in lasts.
#[derive(Clone, Copy, Debug)]
pub struct BasicBlock {
    pub pc: u64,
    pub generation: u64,
    pub count: u8,
    pub decoded: [DecodedInstruction; 32],
    pub lengths: [u8; 32],
}

impl Default for BasicBlock {
    /// An empty block.
    fn default() -> (b: Self)
        ensures
            b.pc == 0 && b.generation == 0 && b.count == 0,
            forall|i: int| 0 <= i < 32 ==> #[trigger] b.lengths@[i] == 0,
    {
        BasicBlock {
            pc: 0,
            generation: 0,
            count: 0,
            decoded: [DecodedInstruction::default(); 32],
            lengths: [0u8; 32],
        }
    }
}

} // verus!
