//! Tor hidden services, version 2: a hash of ten bytes and a port, written
//! as the hash in base32, a colon, and the port in decimal.

use crate::encoding::{base32_data, base32_decode, base32_encode, base32_text};
use crate::error::{fails_with, Error, ErrorKind};
use crate::multiaddr::payload::Payload;
use crate::multiaddr::protocol::{Form, Protocol};
use crate::multiaddr::text_form::{
    bad_addr, into_text, segment_text, skip_tokens, text_outcome, text_parse, token_text,
};
use crate::multiaddr::wire::{
    bytes_outcome, push_port, read_fixed, read_port, segment_wire, tag, truncated, wire_parse,
};
use crate::text::{
    append, decimal, parse_decimal, parse_u16, push_decimal, split, split_bytes, to_uppercase,
    uppercase, views,
};
use vstd::prelude::*;
use vstd::slice::*;

verus! {

/// The colon.
pub const COLON: u8 = 0x3a;

/// The hash and the port that `t` spells: a label of `label_len` bytes that
/// reads, in upper case, as base32 for `hash_len` bytes; a colon; a port in
/// decimal that is not zero. What follows a second colon is not looked at.
pub open spec fn parse_onion(t: Seq<u8>, label_len: nat, hash_len: nat) -> Option<(Seq<u8>, u16)> {
    let f = split(t, COLON);
    if f.len() >= 2 && f[0].len() == label_len {
        match (base32_data(uppercase(f[0])), parse_decimal(f[1], 0xffff)) {
            (Some(hash), Some(port)) => if hash.len() == hash_len && port >= 1 {
                Some((hash, port as u16))
            } else {
                None
            },
            _ => None,
        }
    } else {
        None
    }
}

/// A hash and a port in text.
pub open spec fn onion_text(hash: Seq<u8>, port: u16) -> Seq<u8> {
    base32_text(hash) + seq![COLON] + decimal(port as nat)
}

/// The hash and the port that `t` spells.
pub(crate) fn parse_label_port(t: &[u8], label_len: usize, hash_len: usize) -> (r: Option<
    (Vec<u8>, u16),
>)
    requires
        label_len <= 64,
    ensures
        match parse_onion(t@, label_len as nat, hash_len as nat) {
            Some((hash, port)) => r matches Some((h, p)) && h@ == hash && p == port,
            None => r is None,
        },
{
    let fields = split_bytes(t, COLON);
    if fields.len() < 2 {
        return None;
    }
    let label = fields[0];
    if label.len() != label_len {
        return None;
    }
    let upper = to_uppercase(label);
    let hash = base32_decode(upper.as_slice());
    let port = parse_u16(fields[1]);
    match (hash, port) {
        (Some(h), Some(p)) => if h.len() == hash_len && p >= 1 {
            Some((h, p))
        } else {
            None
        },
        _ => None,
    }
}

/// A hash and a port in text.
pub(crate) fn label_port(hash: &[u8], port: u16) -> (out: Vec<u8>)
    requires
        hash@.len() <= 64,
    ensures
        out@ == onion_text(hash@, port),
{
    let mut out = base32_encode(hash);
    out.push(COLON);
    push_decimal(&mut out, port);
    out
}

/// The hash and the port of a service of version 2 that `addr` spells.
pub fn parse_onion_addr(addr: &[u8]) -> (r: Option<(Vec<u8>, u16)>)
    ensures
        match parse_onion(addr@, 16, 10) {
            Some((hash, port)) => r matches Some((h, p)) && h@ == hash && p == port,
            None => r is None,
        },
{
    parse_label_port(addr, 16, 10)
}

/// The hash and the port of a service of version 2 in text.
pub fn to_onion_text(hash: &[u8; 10], port: u16) -> (out: Vec<u8>)
    ensures
        out@ == onion_text(hash@, port),
{
    label_port(hash.as_slice(), port)
}

/// A hidden service of Tor, version 2.
#[derive(Clone, Debug, PartialEq, Eq)]
pub struct Onion {
    hash: [u8; 10],
    port: u16,
}

impl View for Onion {
    type V = Payload;

    closed spec fn view(&self) -> Payload {
        Payload::HashPort(self.hash@, self.port)
    }
}

impl Onion {
    /// The view is a hash of ten bytes and a port.
    pub proof fn lemma_view(&self)
        ensures
            self@ matches Payload::HashPort(h, _) && h.len() == 10,
    {
    }

    /// The hash.
    pub fn to_hash(&self) -> (hash: [u8; 10])
        ensures
            self@ matches Payload::HashPort(h, _) && h == hash@,
    {
        self.hash
    }

    /// The port.
    pub fn to_port(&self) -> (port: u16)
        ensures
            self@ matches Payload::HashPort(_, p) && p == port,
    {
        self.port
    }

    /// Reads the service from the first of `parts` and hands back the rest.
    /// `BadAddr` where there is no token, its label is not sixteen bytes of
    /// base32 for ten, or its port is not a number from 1 to 65535.
    pub fn from_text<'a, 'b>(parts: &'a [&'b [u8]]) -> (r: Result<(Onion, &'a [&'b [u8]]), Error>)
        ensures
            match text_parse(Form::Onion, views(parts@)) {
                Some((p, n)) => r matches Ok((v, rest)) && v@ == p && rest@ == parts@.skip(
                    n as int,
                ),
                None => fails_with(r, ErrorKind::BadAddr),
            },
    {
        if parts.len() == 0 {
            return Err(bad_addr("onion", "no address"));
        }
        match parse_onion_addr(parts[0]) {
            Some((h, port)) => {
                let hash = [h[0], h[1], h[2], h[3], h[4], h[5], h[6], h[7], h[8], h[9]];
                assert(hash@ =~= h@);
                Ok((Onion { hash, port }, skip_tokens(parts, 1)))
            },
            None => Err(bad_addr("onion", "not a label and a port")),
        }
    }

    /// The segment in text: `/onion/`, the hash in base32, a colon and the
    /// port.
    pub fn to_text(&self) -> (r: Result<String, Error>)
        ensures
            text_outcome(r, segment_text(Protocol::Onion, self@)),
    {
        let token = to_onion_text(&self.hash, self.port);
        into_text(token_text(Protocol::Onion, token.as_slice()), "onion")
    }

    /// Reads the service from the front of `data` and hands back the rest.
    /// `DecodeError` where `data` has fewer than twelve bytes.
    pub fn decode(data: &[u8]) -> (r: Result<(Onion, &[u8]), Error>)
        ensures
            match wire_parse(Form::Onion, data@) {
                Some((p, n)) => r matches Ok((v, rest)) && v@ == p && rest@ == data@.skip(n as int),
                None => fails_with(r, ErrorKind::DecodeError),
            },
    {
        let (h, rest) = match read_fixed(data, 10) {
            Some(pair) => pair,
            None => {
                return Err(truncated("onion"));
            },
        };
        let (port, rest) = match read_port(rest) {
            Some(pair) => pair,
            None => {
                return Err(truncated("onion"));
            },
        };
        let hash = [h[0], h[1], h[2], h[3], h[4], h[5], h[6], h[7], h[8], h[9]];
        assert(hash@ =~= data@.take(10));
        Ok((Onion { hash, port }, rest))
    }

    /// The segment on the wire: the number of the protocol, the hash, the
    /// port.
    pub fn encode(&self) -> (r: Result<Vec<u8>, Error>)
        ensures
            bytes_outcome(r, segment_wire(Protocol::Onion, self@)),
    {
        let mut out = tag(Protocol::Onion);
        let ghost head = out@;
        append(&mut out, self.hash.as_slice());
        push_port(&mut out, self.port);
        assert(out@ =~= head + (self.hash@ + crate::multiaddr::wire::port_bytes(self.port)));
        Ok(out)
    }
}

} // verus!
