//! What a segment carries, as contracts see it.

use crate::multiaddr::protocol::{Form, Protocol};
use vstd::prelude::*;

verus! {

/// The payload of a segment.
pub enum Payload {
    /// Nothing.
    Empty,
    /// A port.
    Port(u16),
    /// Bytes: an address, a name, a destination, a peer identity on the
    /// wire.
    Bytes(Seq<u8>),
    /// A hash and a port.
    HashPort(Seq<u8>, u16),
    /// Text: a path, a peer identity as it was written.
    Text(Seq<char>),
}

/// A segment: a protocol and the payload it carries.
pub struct SegmentView {
    pub protocol: Protocol,
    pub payload: Payload,
}

/// The payload is one that a protocol of the given shape carries.
pub open spec fn fits(form: Form, payload: Payload) -> bool {
    match form {
        Form::Marker => payload is Empty,
        Form::Port => payload is Port,
        Form::Ip4 => payload matches Payload::Bytes(b) && b.len() == 4,
        Form::Ip6 => payload matches Payload::Bytes(b) && b.len() == 16,
        Form::Name => payload is Bytes,
        Form::Onion => payload matches Payload::HashPort(h, _) && h.len() == 10,
        Form::Onion3 => payload matches Payload::HashPort(h, _) && h.len() == 35,
        Form::Garlic32 => payload is Bytes,
        Form::Garlic64 => payload is Bytes,
        Form::Peer => payload is Bytes || payload is Text,
        Form::Path => payload is Text,
    }
}

impl SegmentView {
    /// The payload is one that the protocol carries.
    pub open spec fn wf(self) -> bool {
        fits(self.protocol.spec_form(), self.payload)
    }
}

} // verus!
