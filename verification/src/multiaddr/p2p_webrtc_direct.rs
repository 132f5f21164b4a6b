//! WebRTC without a signalling server: a protocol without a payload.

use crate::error::{fails_with, Error, ErrorKind};
use crate::multiaddr::payload::Payload;
use crate::multiaddr::protocol::{Form, Protocol};
use crate::multiaddr::text_form::{into_text, segment_text, start_text, text_outcome, text_parse};
use crate::multiaddr::wire::{bytes_outcome, segment_wire, tag, wire_parse};
use crate::text::views;
use vstd::prelude::*;

verus! {

/// WebRTC without a signalling server.
#[derive(Clone, Debug, PartialEq, Eq)]
pub struct P2pWebRtcDirect;

impl View for P2pWebRtcDirect {
    type V = Payload;

    open spec fn view(&self) -> Payload {
        Payload::Empty
    }
}

impl P2pWebRtcDirect {
    /// Takes none of `parts` and hands all of them back. Never fails.
    pub fn from_text<'a, 'b>(parts: &'a [&'b [u8]]) -> (r: Result<
        (P2pWebRtcDirect, &'a [&'b [u8]]),
        Error,
    >)
        ensures
            match text_parse(Form::Marker, views(parts@)) {
                Some((p, n)) => r matches Ok((v, rest)) && v@ == p && rest@ == parts@.skip(
                    n as int,
                ),
                None => fails_with(r, ErrorKind::BadAddr),
            },
    {
        Ok((P2pWebRtcDirect, parts))
    }

    /// The segment in text: `/p2p-webrtc-direct`.
    pub fn to_text(&self) -> (r: Result<String, Error>)
        ensures
            text_outcome(r, segment_text(Protocol::P2pWebRtcDirect, self@)),
    {
        into_text(start_text(Protocol::P2pWebRtcDirect), "p2p-webrtc-direct")
    }

    /// Takes nothing off the front of `data` and hands all of it back. Never
    /// fails.
    pub fn decode(data: &[u8]) -> (r: Result<(P2pWebRtcDirect, &[u8]), Error>)
        ensures
            match wire_parse(Form::Marker, data@) {
                Some((p, n)) => r matches Ok((v, rest)) && v@ == p && rest@ == data@.skip(n as int),
                None => fails_with(r, ErrorKind::DecodeError),
            },
    {
        Ok((P2pWebRtcDirect, data))
    }

    /// The segment on the wire: the number of the protocol.
    pub fn encode(&self) -> (r: Result<Vec<u8>, Error>)
        ensures
            bytes_outcome(r, segment_wire(Protocol::P2pWebRtcDirect, self@)),
    {
        Ok(tag(Protocol::P2pWebRtcDirect))
    }
}

} // verus!
