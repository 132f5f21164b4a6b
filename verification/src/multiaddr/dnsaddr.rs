//! Domain name whose records hold whole addresses: a name.

use crate::error::{fails_with, Error, ErrorKind};
use crate::multiaddr::payload::Payload;
use crate::multiaddr::protocol::{Form, Protocol};
use crate::multiaddr::text_form::{
    bad_addr, into_text, segment_text, skip_tokens, text_outcome, text_parse, token_text,
};
use crate::multiaddr::wire::{
    bytes_outcome, push_prefixed, read_prefixed, segment_wire, tag, truncated, wire_parse,
};
use crate::text::{str_from_utf8, views};
use vstd::prelude::*;
use vstd::slice::*;
use vstd::utf8::*;

verus! {

/// A domain name whose records hold whole addresses.
#[derive(Clone, Debug, PartialEq, Eq)]
pub struct Dnsaddr {
    addr: Vec<u8>,
}

impl View for Dnsaddr {
    type V = Payload;

    closed spec fn view(&self) -> Payload {
        Payload::Bytes(self.addr@)
    }
}

impl Dnsaddr {
    /// The segment for the given name.
    pub fn from_bytes(name: &[u8]) -> (v: Dnsaddr)
        ensures
            v@ == Payload::Bytes(name@),
    {
        Dnsaddr { addr: slice_to_vec(name) }
    }

    /// The bytes of the name.
    pub fn as_bytes(&self) -> (b: &[u8])
        ensures
            self@ == Payload::Bytes(b@),
    {
        self.addr.as_slice()
    }

    /// The name as text. `DecodeError` where its bytes are not UTF-8.
    pub fn as_str(&self) -> (r: Result<&str, Error>)
        ensures
            self@ matches Payload::Bytes(b) && if valid_utf8(b) {
                r matches Ok(s) && s@ == decode_utf8(b)
            } else {
                fails_with(r, ErrorKind::DecodeError)
            },
    {
        match str_from_utf8(self.addr.as_slice()) {
            Some(s) => Ok(s),
            None => Err(Error::new(ErrorKind::DecodeError, "dnsaddr", "not UTF-8")),
        }
    }

    /// The view is the bytes of the name.
    pub proof fn lemma_view(&self)
        ensures
            self@ is Bytes,
    {
    }

    /// Takes the first of `parts` for the name and hands back the rest.
    /// `BadAddr` where there is no token.
    pub fn from_text<'a, 'b>(parts: &'a [&'b [u8]]) -> (r: Result<(Dnsaddr, &'a [&'b [u8]]), Error>)
        ensures
            match text_parse(Form::Name, views(parts@)) {
                Some((p, n)) => r matches Ok((v, rest)) && v@ == p && rest@ == parts@.skip(
                    n as int,
                ),
                None => fails_with(r, ErrorKind::BadAddr),
            },
    {
        if parts.len() == 0 {
            return Err(bad_addr("dnsaddr", "no name"));
        }
        Ok((Dnsaddr { addr: slice_to_vec(parts[0]) }, skip_tokens(parts, 1)))
    }

    /// The segment in text: `/dnsaddr/` and the name. `DecodeError` where the
    /// bytes of the name are not UTF-8.
    pub fn to_text(&self) -> (r: Result<String, Error>)
        ensures
            text_outcome(r, segment_text(Protocol::Dnsaddr, self@)),
    {
        into_text(token_text(Protocol::Dnsaddr, self.addr.as_slice()), "dnsaddr")
    }

    /// Reads the name from the front of `data` and hands back the rest.
    /// `DecodeError` where `data` does not hold a length and so many bytes
    /// behind it.
    pub fn decode(data: &[u8]) -> (r: Result<(Dnsaddr, &[u8]), Error>)
        ensures
            match wire_parse(Form::Name, data@) {
                Some((p, n)) => r matches Ok((v, rest)) && v@ == p && rest@ == data@.skip(n as int),
                None => fails_with(r, ErrorKind::DecodeError),
            },
    {
        match read_prefixed(data) {
            Some((head, rest)) => Ok((Dnsaddr { addr: slice_to_vec(head) }, rest)),
            None => Err(truncated("dnsaddr")),
        }
    }

    /// The segment on the wire: the number of the protocol, the length of
    /// the name, the name.
    pub fn encode(&self) -> (r: Result<Vec<u8>, Error>)
        ensures
            bytes_outcome(r, segment_wire(Protocol::Dnsaddr, self@)),
    {
        let mut out = tag(Protocol::Dnsaddr);
        push_prefixed(&mut out, self.addr.as_slice());
        Ok(out)
    }
}

} // verus!
