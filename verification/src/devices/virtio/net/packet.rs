use vstd::prelude::*;

use crate::devices::virtio::net::header::VirtioNetHdr;

verus! {

/// A frame with the virtio-net header that accompanies it.
pub struct NetworkPacket {
    pub header: VirtioNetHdr,
    pub data: Vec<u8>,
}

/// A copy of the bytes of `v`.
pub fn clone_bytes(v: &Vec<u8>) -> (r: Vec<u8>)
    ensures
        r@ == v@,
{
    let r = v.clone();
    assert(r@ =~= v@);
    r
}

} // verus!
