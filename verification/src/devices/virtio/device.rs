use vstd::prelude::*;

use crate::cpu::memory::Memory;
use crate::devices::virtio::descriptor::VirtqDesc;
use crate::trap::Trap;

verus! {

/// A virtio device behind the MMIO transport.
pub trait VirtIODevice {
    fn device_id(&self) -> u32;

    fn host_features(&self) -> u64;

    fn read_config32(&self, offset: u64) -> u32;

    /// Configuration writes; ignored unless a device says otherwise.
    fn write_config32(&mut self, offset: u64, value: u32) {
    }

    /// What handling `chain`, taken from queue `queue_idx`, does (see
    /// `process_descriptor_chain`): the device goes from `self` to
    /// `after`, guest RAM from `mem` to `mem_after`, and the outcome is
    /// `r`.
    spec fn chain_handled(
        &self,
        mem: Seq<u8>,
        chain: Seq<VirtqDesc>,
        queue_idx: u16,
        after: &Self,
        mem_after: Seq<u8>,
        r: Result<u32, Trap>,
    ) -> bool;

    /// Handles one descriptor chain taken from queue `queue_idx`; answers
    /// the number of bytes written into the chain. Guest RAM keeps its size.
    fn process_descriptor_chain(
        &mut self,
        mem: &mut Memory,
        chain: &Vec<VirtqDesc>,
        queue_idx: u16,
    ) -> (r: Result<u32, Trap>)
        requires
            old(mem).view().len() <= usize::MAX,
        ensures
            final(mem).view().len() == old(mem).view().len(),
            old(self).chain_handled(old(mem).view(), chain@, queue_idx, final(self), final(mem).view(), r),
    ;
}

} // verus!
