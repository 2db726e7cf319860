pub mod clint;
pub mod plic;
pub mod uart;
pub mod virtio;

use vstd::prelude::*;

verus! {

/// Something that advances with the machine clock.
pub trait Device {
    fn tick(&mut self);
}

} // verus!
