use vstd::prelude::*;

verus! {

/// The kind of memory access being translated.
#[derive(Debug, Clone, Copy, PartialEq, Eq, Structural)]
pub enum AccessType {
    Instruction,
    Read,
    Write,
}

} // verus!
