//! Tor hidden services, version 3: a hash of thirty-five bytes and a port,
//! written as the hash in base32, a colon, and the port in decimal.

use crate::error::{fails_with, Error, ErrorKind};
use crate::multiaddr::onion::{label_port, onion_text, parse_label_port, parse_onion};
use crate::multiaddr::payload::Payload;
use crate::multiaddr::protocol::{Form, Protocol};
use crate::multiaddr::text_form::{
    bad_addr, into_text, segment_text, skip_tokens, text_outcome, text_parse, token_text,
};
use crate::multiaddr::wire::{
    bytes_outcome, push_port, read_fixed, read_port, segment_wire, tag, truncated, wire_parse,
};
use crate::text::{append, views};
use vstd::prelude::*;
use vstd::slice::*;

verus! {

/// Thirty-five bytes out of a buffer that holds as many.
fn hash_of(h: &[u8]) -> (hash: [u8; 35])
    requires
        h@.len() == 35,
    ensures
        hash@ == h@,
{
    let mut hash = [0u8; 35];
    let mut i: usize = 0;
    while i < 35
        invariant
            i <= 35,
            h@.len() == 35,
            forall|k: int| 0 <= k < i ==> hash@[k] == h@[k],
        decreases 35 - i,
    {
        hash[i] = h[i];
        i = i + 1;
    }
    hash
}

/// The hash and the port of a service of version 3 that `addr` spells.
pub fn parse_onion3_addr(addr: &[u8]) -> (r: Option<(Vec<u8>, u16)>)
    ensures
        match parse_onion(addr@, 56, 35) {
            Some((hash, port)) => r matches Some((h, p)) && h@ == hash && p == port,
            None => r is None,
        },
{
    parse_label_port(addr, 56, 35)
}

/// The hash and the port of a service of version 3 in text.
pub fn to_onion3_text(hash: &[u8; 35], port: u16) -> (out: Vec<u8>)
    ensures
        out@ == onion_text(hash@, port),
{
    label_port(hash.as_slice(), port)
}

/// A hidden service of Tor, version 3.
#[derive(Clone, Debug, PartialEq, Eq)]
pub struct Onion3 {
    hash: [u8; 35],
    port: u16,
}

impl View for Onion3 {
    type V = Payload;

    closed spec fn view(&self) -> Payload {
        Payload::HashPort(self.hash@, self.port)
    }
}

impl Onion3 {
    /// The view is a hash of thirty-five bytes and a port.
    pub proof fn lemma_view(&self)
        ensures
            self@ matches Payload::HashPort(h, _) && h.len() == 35,
    {
    }

    /// The hash.
    pub fn to_hash(&self) -> (hash: [u8; 35])
        ensures
            self@ matches Payload::HashPort(h, _) && h == hash@,
    {
        self.hash
    }

    /// The port.
    pub fn to_port(&self) -> (port: u16)
        ensures
            self@ matches Payload::HashPort(_, p) && p == port,
    {
        self.port
    }

    /// Reads the service from the first of `parts` and hands back the rest.
    /// `BadAddr` where there is no token, its label is not fifty-six bytes of
    /// base32 for thirty-five, or its port is not a number from 1 to 65535.
    pub fn from_text<'a, 'b>(parts: &'a [&'b [u8]]) -> (r: Result<(Onion3, &'a [&'b [u8]]), Error>)
        ensures
            match text_parse(Form::Onion3, views(parts@)) {
                Some((p, n)) => r matches Ok((v, rest)) && v@ == p && rest@ == parts@.skip(
                    n as int,
                ),
                None => fails_with(r, ErrorKind::BadAddr),
            },
    {
        if parts.len() == 0 {
            return Err(bad_addr("onion3", "no address"));
        }
        match parse_onion3_addr(parts[0]) {
            Some((h, port)) => {
                let hash = hash_of(h.as_slice());
                Ok((Onion3 { hash, port }, skip_tokens(parts, 1)))
            },
            None => Err(bad_addr("onion3", "not a label and a port")),
        }
    }

    /// The segment in text: `/onion3/`, the hash in base32, a colon and the
    /// port.
    pub fn to_text(&self) -> (r: Result<String, Error>)
        ensures
            text_outcome(r, segment_text(Protocol::Onion3, self@)),
    {
        let token = to_onion3_text(&self.hash, self.port);
        into_text(token_text(Protocol::Onion3, token.as_slice()), "onion3")
    }

    /// Reads the service from the front of `data` and hands back the rest.
    /// `DecodeError` where `data` has fewer than thirty-seven bytes.
    pub fn decode(data: &[u8]) -> (r: Result<(Onion3, &[u8]), Error>)
        ensures
            match wire_parse(Form::Onion3, data@) {
                Some((p, n)) => r matches Ok((v, rest)) && v@ == p && rest@ == data@.skip(n as int),
                None => fails_with(r, ErrorKind::DecodeError),
            },
    {
        let (h, rest) = match read_fixed(data, 35) {
            Some(pair) => pair,
            None => {
                return Err(truncated("onion3"));
            },
        };
        let (port, rest) = match read_port(rest) {
            Some(pair) => pair,
            None => {
                return Err(truncated("onion3"));
            },
        };
        let hash = hash_of(h);
        Ok((Onion3 { hash, port }, rest))
    }

    /// The segment on the wire: the number of the protocol, the hash, the
    /// port.
    pub fn encode(&self) -> (r: Result<Vec<u8>, Error>)
        ensures
            bytes_outcome(r, segment_wire(Protocol::Onion3, self@)),
    {
        let mut out = tag(Protocol::Onion3);
        let ghost head = out@;
        append(&mut out, self.hash.as_slice());
        push_port(&mut out, self.port);
        assert(out@ =~= head + (self.hash@ + crate::multiaddr::wire::port_bytes(self.port)));
        Ok(out)
    }
}

} // verus!
