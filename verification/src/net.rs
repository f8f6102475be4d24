use vstd::prelude::*;

verus! {

/// A record that can be written to the wire as bytes.
pub trait WoWPacket: Sized {
    /// The bytes the record is written as, in wire order.
    spec fn wire(&self) -> Seq<u8>;

    /// Writes the record as its wire bytes.
    fn encode_to_vec(&self) -> (r: Vec<u8>)
        ensures
            r@ == self.wire(),
    ;
}

/// Something that can carry a record to the remote side of a connection.
pub trait Session {
    /// Whether the carrier is in a fit state to take work.
    spec fn sess_wf(&self) -> bool;

    /// Submits one record for sending; returns whether it was accepted.
    fn send_packet<T: WoWPacket>(&mut self, pkt: &T) -> (accepted: bool)
        requires
            old(self).sess_wf(),
        ensures
            final(self).sess_wf(),
    ;
}

} // verus!
