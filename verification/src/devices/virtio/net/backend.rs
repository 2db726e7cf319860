use vstd::prelude::*;

use crate::devices::virtio::net::packet::clone_bytes;

verus! {

/// Where a virtio-net device sends and receives Ethernet frames.
pub trait NetworkBackend {
    /// Hands a frame to the network; `Err` when it could not be sent.
    fn send(&mut self, packet: &[u8]) -> Result<(), ()>;

    /// The frames that arrived and wait to be received, oldest first.
    spec fn pending(&self) -> Seq<Seq<u8>>;

    /// The next frame waiting to be received, if any: the oldest pending
    /// one, which is then no longer pending.
    fn recv(&mut self) -> (r: Option<Vec<u8>>)
        ensures
            old(self).pending().len() == 0 ==> r is None && final(self).pending() == old(self).pending(),
            old(self).pending().len() > 0 ==> r is Some && r->Some_0@ == old(self).pending()[0]
                && final(self).pending() == old(self).pending().drop_first(),
    ;

    /// The MAC address of the backend.
    spec fn mac(&self) -> [u8; 6];

    /// The MAC address the device reports to the guest (see `mac`).
    fn mac_address(&self) -> (m: [u8; 6])
        ensures
            m == self.mac(),
    ;
}

/// A backend made of two frame queues: frames the host program pushes for
/// the guest to receive, and frames the guest sent, kept in order.
pub struct QueueBackend {
    pub mac: [u8; 6],
    pub incoming: Vec<Vec<u8>>,
    pub incoming_head: usize,
    pub outgoing: Vec<Vec<u8>>,
}

impl QueueBackend {
    pub fn new(mac: [u8; 6]) -> (b: QueueBackend)
        ensures
            b.mac == mac,
            b.incoming@.len() == 0,
            b.incoming_head == 0,
            b.outgoing@.len() == 0,
    {
        QueueBackend { mac, incoming: Vec::new(), incoming_head: 0, outgoing: Vec::new() }
    }

    /// Queues a frame for the guest.
    pub fn push_incoming(&mut self, frame: Vec<u8>)
        ensures
            final(self).incoming@ == old(self).incoming@.push(frame),
            final(self).incoming_head == old(self).incoming_head,
            final(self).outgoing@ == old(self).outgoing@,
            final(self).mac == old(self).mac,
    {
        self.incoming.push(frame);
    }

    /// Takes every frame the guest sent so far, oldest first.
    pub fn take_outgoing(&mut self) -> (frames: Vec<Vec<u8>>)
        ensures
            frames@ == old(self).outgoing@,
            final(self).outgoing@.len() == 0,
            final(self).incoming@ == old(self).incoming@,
            final(self).incoming_head == old(self).incoming_head,
            final(self).mac == old(self).mac,
    {
        let mut out: Vec<Vec<u8>> = Vec::new();
        std::mem::swap(&mut out, &mut self.outgoing);
        out
    }
}

impl NetworkBackend for QueueBackend {
    /// The pushed frames not received yet.
    open spec fn mac(&self) -> [u8; 6] {
        self.mac
    }

    open spec fn pending(&self) -> Seq<Seq<u8>> {
        if self.incoming_head < self.incoming@.len() {
            self.incoming@.subrange(self.incoming_head as int, self.incoming@.len() as int).map_values(
                |f: Vec<u8>| f@,
            )
        } else {
            Seq::empty()
        }
    }

    fn send(&mut self, packet: &[u8]) -> (r: Result<(), ()>)
        ensures
            r is Ok,
            final(self).outgoing@.len() == old(self).outgoing@.len() + 1,
            final(self).outgoing@.subrange(0, old(self).outgoing@.len() as int) == old(self).outgoing@,
            final(self).outgoing@.last()@ == packet@,
            final(self).incoming@ == old(self).incoming@,
            final(self).incoming_head == old(self).incoming_head,
            final(self).mac == old(self).mac,
    {
        let mut v: Vec<u8> = Vec::new();
        let n = packet.len();
        let mut i: usize = 0;
        while i < n
            invariant
                n == packet@.len(),
                i <= n,
                v@ == packet@.subrange(0, i as int),
            decreases n - i,
        {
            v.push(packet[i]);
            i += 1;
            assert(v@ =~= packet@.subrange(0, i as int));
        }
        assert(v@ =~= packet@);
        self.outgoing.push(v);
        Ok(())
    }

    /// Frames come out in the order they were pushed.
    fn recv(&mut self) -> (r: Option<Vec<u8>>)
        ensures
            old(self).incoming_head < old(self).incoming@.len() ==> r is Some && r->Some_0@ == old(
                self,
            ).incoming@[old(self).incoming_head as int]@ && final(self).incoming_head == old(self).incoming_head + 1,
            old(self).incoming_head >= old(self).incoming@.len() ==> r is None
                && final(self).incoming_head == old(self).incoming_head,
            final(self).incoming@ == old(self).incoming@,
            final(self).outgoing@ == old(self).outgoing@,
            final(self).mac == old(self).mac,
    {
        if self.incoming_head < self.incoming.len() {
            let f = clone_bytes(&self.incoming[self.incoming_head]);
            self.incoming_head += 1;
            proof {
                let old_p = old(self).pending();
                assert(old_p[0] == old(self).incoming@[old(self).incoming_head as int]@);
                assert(self.pending() =~= old_p.drop_first());
            }
            Some(f)
        } else {
            None
        }
    }

    fn mac_address(&self) -> (m: [u8; 6])
        ensures
            m == self.mac,
    {
        self.mac
    }
}

} // verus!
