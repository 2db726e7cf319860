use vstd::prelude::*;

verus! {

/// Synchronous exceptions raised while fetching, decoding or executing an
/// instruction. The payload is the value that goes to `mtval`/`stval`.
#[derive(Debug, Clone, Copy, PartialEq, Eq, Structural)]
pub enum Trap {
    InstructionAccessFault(u64),
    IllegalInstruction(u32),
    LoadAccessFault(u64),
    LoadAddressMisaligned(u64),
    StoreAddressMisaligned(u64),
    InstructionAddressMisaligned(u64),
    StoreAccessFault(u64),
    InstructionPageFault(u64),
    LoadPageFault(u64),
    StorePageFault(u64),
    Breakpoint,
    EcallFromUMode,
    EcallFromSMode,
    EcallFromMMode,
}

} // verus!
