//! Datagram congestion control protocol: a port.

use crate::error::{fails_with, Error, ErrorKind};
use crate::multiaddr::payload::Payload;
use crate::multiaddr::protocol::{Form, Protocol};
use crate::multiaddr::text_form::{
    bad_addr, into_text, segment_text, skip_tokens, text_outcome, text_parse, token_text,
};
use crate::multiaddr::wire::{
    bytes_outcome, push_port, read_port, segment_wire, tag, truncated, wire_parse,
};
use crate::text::{parse_u16, push_decimal, views};
use vstd::prelude::*;

verus! {

/// A port, for the datagram congestion control protocol.
#[derive(Clone, Debug, PartialEq, Eq)]
pub struct Dccp {
    port: u16,
}

impl View for Dccp {
    type V = Payload;

    closed spec fn view(&self) -> Payload {
        Payload::Port(self.port)
    }
}

impl Dccp {
    /// The segment for the given port.
    pub fn from_port(port: u16) -> (v: Dccp)
        ensures
            v@ == Payload::Port(port),
    {
        Dccp { port }
    }

    /// The port.
    pub fn to_port(&self) -> (port: u16)
        ensures
            self@ == Payload::Port(port),
    {
        self.port
    }

    /// The view is a port.
    pub proof fn lemma_view(&self)
        ensures
            self@ is Port,
    {
    }

    /// Reads the port from the first of `parts` and hands back the rest.
    /// `BadAddr` where there is no token or it is not a number up to 65535
    /// in decimal.
    pub fn from_text<'a, 'b>(parts: &'a [&'b [u8]]) -> (r: Result<(Dccp, &'a [&'b [u8]]), Error>)
        ensures
            match text_parse(Form::Port, views(parts@)) {
                Some((p, n)) => r matches Ok((v, rest)) && v@ == p && rest@ == parts@.skip(
                    n as int,
                ),
                None => fails_with(r, ErrorKind::BadAddr),
            },
    {
        if parts.len() == 0 {
            return Err(bad_addr("dccp", "no port"));
        }
        match parse_u16(parts[0]) {
            Some(port) => Ok((Dccp { port }, skip_tokens(parts, 1))),
            None => Err(bad_addr("dccp", "not a port")),
        }
    }

    /// The segment in text: `/dccp/` and the port in decimal.
    pub fn to_text(&self) -> (r: Result<String, Error>)
        ensures
            text_outcome(r, segment_text(Protocol::Dccp, self@)),
    {
        let mut token: Vec<u8> = Vec::new();
        push_decimal(&mut token, self.port);
        into_text(token_text(Protocol::Dccp, token.as_slice()), "dccp")
    }

    /// Reads the port from the front of `data` and hands back the rest.
    /// `DecodeError` where `data` has fewer than two bytes.
    pub fn decode(data: &[u8]) -> (r: Result<(Dccp, &[u8]), Error>)
        ensures
            match wire_parse(Form::Port, data@) {
                Some((p, n)) => r matches Ok((v, rest)) && v@ == p && rest@ == data@.skip(n as int),
                None => fails_with(r, ErrorKind::DecodeError),
            },
    {
        match read_port(data) {
            Some((port, rest)) => Ok((Dccp { port }, rest)),
            None => Err(truncated("dccp")),
        }
    }

    /// The segment on the wire: the number of the protocol, then the port,
    /// high byte first.
    pub fn encode(&self) -> (r: Result<Vec<u8>, Error>)
        ensures
            bytes_outcome(r, segment_wire(Protocol::Dccp, self@)),
    {
        let mut out = tag(Protocol::Dccp);
        push_port(&mut out, self.port);
        Ok(out)
    }
}

} // verus!
