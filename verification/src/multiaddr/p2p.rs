//! Peer identities.
//!
//! An identity read from text is kept as it was written, one read off the
//! wire as the bytes it came as; each is turned into the other only when
//! the other is asked for.

use crate::error::{fails_with, Error, ErrorKind};
use crate::multiaddr::payload::Payload;
use crate::multiaddr::peer::{bytes_to_text, peer_bytes, peer_text, text_to_bytes};
use crate::multiaddr::protocol::{Form, Protocol};
use crate::multiaddr::text_form::{
    bad_addr, into_text, segment_text, skip_tokens, text_outcome, text_parse, token_text,
};
use crate::multiaddr::wire::{
    bytes_outcome, push_prefixed, read_prefixed, segment_wire, tag, truncated, wire_parse,
};
use crate::text::{string_bytes, string_from_utf8, views};
use vstd::prelude::*;
use vstd::slice::*;
use vstd::string::*;
use vstd::utf8::*;

verus! {

/// A peer identity, in the form it was met in.
#[derive(Clone, Debug, PartialEq, Eq)]
pub enum PeerId {
    /// As text.
    Text(String),
    /// As bytes.
    Binr(Vec<u8>),
}

impl View for PeerId {
    type V = Payload;

    open spec fn view(&self) -> Payload {
        match self {
            PeerId::Text(t) => Payload::Text(t@),
            PeerId::Binr(b) => Payload::Bytes(b@),
        }
    }
}

impl PeerId {
    /// The identity as text: itself where it is text, else what its bytes
    /// are written as.
    pub fn to_text(&self) -> (r: Result<PeerId, Error>)
        ensures
            match self@ {
                Payload::Bytes(b) => match peer_text(b) {
                    Ok(t) => r matches Ok(id) && id@ == Payload::Text(t),
                    Err(k) => fails_with(r, k),
                },
                _ => r matches Ok(id) && id@ == self@,
            },
    {
        match self {
            PeerId::Text(t) => Ok(PeerId::Text(t.clone())),
            PeerId::Binr(b) => match bytes_to_text(b.as_slice()) {
                Ok(t) => Ok(PeerId::Text(t)),
                Err(e) => Err(e),
            },
        }
    }

    /// The identity as bytes: itself where it is bytes, else what its text
    /// travels as.
    pub fn to_bytes(&self) -> (r: Result<PeerId, Error>)
        ensures
            match self@ {
                Payload::Text(t) => match peer_bytes(t) {
                    Ok(b) => r matches Ok(id) && id@ == Payload::Bytes(b),
                    Err(k) => fails_with(r, k),
                },
                _ => r matches Ok(id) && id@ == self@,
            },
    {
        match self {
            PeerId::Binr(b) => Ok(PeerId::Binr(slice_to_vec(b.as_slice()))),
            PeerId::Text(t) => match text_to_bytes(t.as_str()) {
                Ok(b) => Ok(PeerId::Binr(b)),
                Err(e) => Err(e),
            },
        }
    }
}

/// The identity of a peer.
#[derive(Clone, Debug, PartialEq, Eq)]
pub struct P2p {
    peer_id: PeerId,
}

impl View for P2p {
    type V = Payload;

    closed spec fn view(&self) -> Payload {
        self.peer_id@
    }
}

impl P2p {
    /// The segment for the given identity.
    pub fn from_peer_id(peer_id: PeerId) -> (v: P2p)
        ensures
            v@ == peer_id@,
    {
        P2p { peer_id }
    }

    /// The view is text or bytes.
    pub proof fn lemma_view(&self)
        ensures
            self@ is Text || self@ is Bytes,
    {
    }

    /// Takes the first of `parts` for the identity, as it is written, and
    /// hands back the rest. Whether the text is an identity shows only when
    /// its bytes are asked for. `BadAddr` where there is no token or it is
    /// not UTF-8.
    pub fn from_text<'a, 'b>(parts: &'a [&'b [u8]]) -> (r: Result<(P2p, &'a [&'b [u8]]), Error>)
        ensures
            match text_parse(Form::Peer, views(parts@)) {
                Some((p, n)) => r matches Ok((v, rest)) && v@ == p && rest@ == parts@.skip(
                    n as int,
                ),
                None => fails_with(r, ErrorKind::BadAddr),
            },
    {
        if parts.len() == 0 {
            return Err(bad_addr("p2p", "no peer identity"));
        }
        match string_from_utf8(slice_to_vec(parts[0])) {
            Some(text) => Ok((P2p { peer_id: PeerId::Text(text) }, skip_tokens(parts, 1))),
            None => Err(bad_addr("p2p", "not UTF-8")),
        }
    }

    /// The segment in text: `/p2p/` and the identity as text. Fails as the
    /// passage from bytes to text does.
    pub fn to_text(&self) -> (r: Result<String, Error>)
        ensures
            text_outcome(r, segment_text(Protocol::P2p, self@)),
    {
        match self.to_peer_id() {
            Ok(text) => into_text(token_text(Protocol::P2p, string_bytes(&text)), "p2p"),
            Err(e) => Err(e),
        }
    }

    /// Reads the identity from the front of `data`, as the bytes it came
    /// as, and hands back the rest. `DecodeError` where `data` does not hold
    /// a length and so many bytes behind it.
    pub fn decode(data: &[u8]) -> (r: Result<(P2p, &[u8]), Error>)
        ensures
            match wire_parse(Form::Peer, data@) {
                Some((p, n)) => r matches Ok((v, rest)) && v@ == p && rest@ == data@.skip(n as int),
                None => fails_with(r, ErrorKind::DecodeError),
            },
    {
        match read_prefixed(data) {
            Some((head, rest)) => Ok((P2p { peer_id: PeerId::Binr(slice_to_vec(head)) }, rest)),
            None => Err(truncated("p2p")),
        }
    }

    /// The segment on the wire: the number of the protocol, the length of
    /// the identity, the identity as bytes. Fails as the passage from text
    /// to bytes does.
    pub fn encode(&self) -> (r: Result<Vec<u8>, Error>)
        ensures
            bytes_outcome(r, segment_wire(Protocol::P2p, self@)),
    {
        let mut out = tag(Protocol::P2p);
        match &self.peer_id {
            PeerId::Binr(b) => {
                push_prefixed(&mut out, b.as_slice());
                Ok(out)
            },
            PeerId::Text(t) => match text_to_bytes(t.as_str()) {
                Ok(b) => {
                    push_prefixed(&mut out, b.as_slice());
                    Ok(out)
                },
                Err(e) => Err(e),
            },
        }
    }

    /// The identity as text.
    pub fn to_peer_id(&self) -> (r: Result<String, Error>)
        ensures
            match self@ {
                Payload::Text(t) => r matches Ok(s) && s@ == t,
                Payload::Bytes(b) => match peer_text(b) {
                    Ok(t) => r matches Ok(s) && s@ == t,
                    Err(k) => fails_with(r, k),
                },
                _ => false,
            },
    {
        match &self.peer_id {
            PeerId::Text(t) => Ok(t.clone()),
            PeerId::Binr(b) => bytes_to_text(b.as_slice()),
        }
    }
}

} // verus!
