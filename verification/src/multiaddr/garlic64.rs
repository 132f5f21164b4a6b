//! I2P destinations written in base64 over the I2P alphabet.

use crate::encoding::{encode_limit, padded_data, padded_decode, padded_encode, padded_text};
use crate::error::{fails_with, Error, ErrorKind};
use crate::multiaddr::payload::Payload;
use crate::multiaddr::protocol::{Form, Protocol};
use crate::multiaddr::text_form::{
    bad_addr, into_text, segment_text, skip_tokens, text_outcome, text_parse, token_text,
};
use crate::multiaddr::wire::{
    bytes_outcome, push_prefixed, read_prefixed, segment_wire, tag, truncated, wire_parse,
};
use crate::text::views;
use vstd::prelude::*;
use vstd::slice::*;

verus! {

/// The shortest address.
pub const SHORTEST: usize = 516;

/// The longest address.
pub const LONGEST: usize = 616;

/// The alphabet of I2P's base64: that of RFC 4648 with `-` and `~` for its
/// last two signs.
pub const GARLIC64_SYMBOLS: &'static str =
    "ABCDEFGHIJKLMNOPQRSTUVWXYZabcdefghijklmnopqrstuvwxyz0123456789-~";

/// The bytes that `t` spells. An address is between 516 and 616 bytes long,
/// depending on the certificate in it.
pub open spec fn garlic64_data(t: Seq<u8>) -> Option<Seq<u8>> {
    if SHORTEST <= t.len() <= LONGEST {
        padded_data(GARLIC64_SYMBOLS@, '=', t)
    } else {
        None
    }
}

/// The text for the bytes of a destination. `EncodeError` where there are
/// more bytes than the encoder takes.
pub open spec fn garlic64_text(b: Seq<u8>) -> Result<Seq<u8>, ErrorKind> {
    if b.len() <= encode_limit() {
        match padded_text(GARLIC64_SYMBOLS@, '=', b) {
            Some(t) => Ok(t),
            None => Err(ErrorKind::EncodeError),
        }
    } else {
        Err(ErrorKind::EncodeError)
    }
}

/// The bytes that `addr` spells.
pub fn parse_garlic64(addr: &[u8]) -> (r: Option<Vec<u8>>)
    ensures
        match garlic64_data(addr@) {
            Some(b) => r matches Some(v) && v@ == b,
            None => r is None,
        },
{
    if addr.len() < SHORTEST || addr.len() > LONGEST {
        return None;
    }
    padded_decode(GARLIC64_SYMBOLS, '=', addr)
}

/// The text for the bytes of a destination.
pub fn to_garlic64(b: &[u8]) -> (r: Result<Vec<u8>, Error>)
    ensures
        bytes_outcome(r, garlic64_text(b@)),
{
    if b.len() > usize::MAX / 512 {
        return Err(Error::new(ErrorKind::EncodeError, "garlic64", "too long to encode"));
    }
    match padded_encode(GARLIC64_SYMBOLS, '=', b) {
        Some(t) => Ok(t),
        None => Err(Error::new(ErrorKind::EncodeError, "garlic64", "no such encoding")),
    }
}

/// An I2P destination that is written in base64.
#[derive(Clone, Debug, PartialEq, Eq)]
pub struct Garlic64 {
    addr: Vec<u8>,
}

impl View for Garlic64 {
    type V = Payload;

    closed spec fn view(&self) -> Payload {
        Payload::Bytes(self.addr@)
    }
}

impl Garlic64 {
    /// The view is the bytes of the destination.
    pub proof fn lemma_view(&self)
        ensures
            self@ is Bytes,
    {
    }

    /// The bytes of the destination.
    pub fn as_bytes(&self) -> (b: &[u8])
        ensures
            self@ == Payload::Bytes(b@),
    {
        self.addr.as_slice()
    }

    /// Reads the destination from the first of `parts` and hands back the
    /// rest. `BadAddr` where there is no token, it is shorter than 516 bytes
    /// or longer than 616, or it is not base64.
    pub fn from_text<'a, 'b>(parts: &'a [&'b [u8]]) -> (r: Result<
        (Garlic64, &'a [&'b [u8]]),
        Error,
    >)
        ensures
            match text_parse(Form::Garlic64, views(parts@)) {
                Some((p, n)) => r matches Ok((v, rest)) && v@ == p && rest@ == parts@.skip(
                    n as int,
                ),
                None => fails_with(r, ErrorKind::BadAddr),
            },
    {
        if parts.len() == 0 {
            return Err(bad_addr("garlic64", "no address"));
        }
        match parse_garlic64(parts[0]) {
            Some(addr) => Ok((Garlic64 { addr }, skip_tokens(parts, 1))),
            None => Err(bad_addr("garlic64", "not an address in base64")),
        }
    }

    /// The segment in text: `/garlic64/` and the destination in base64.
    pub fn to_text(&self) -> (r: Result<String, Error>)
        ensures
            text_outcome(r, segment_text(Protocol::Garlic64, self@)),
    {
        match to_garlic64(self.addr.as_slice()) {
            Ok(token) => into_text(token_text(Protocol::Garlic64, token.as_slice()), "garlic64"),
            Err(e) => Err(e),
        }
    }

    /// Reads the destination from the front of `data` and hands back the
    /// rest. `DecodeError` where `data` does not hold a length and so many
    /// bytes behind it.
    pub fn decode(data: &[u8]) -> (r: Result<(Garlic64, &[u8]), Error>)
        ensures
            match wire_parse(Form::Garlic64, data@) {
                Some((p, n)) => r matches Ok((v, rest)) && v@ == p && rest@ == data@.skip(n as int),
                None => fails_with(r, ErrorKind::DecodeError),
            },
    {
        match read_prefixed(data) {
            Some((head, rest)) => Ok((Garlic64 { addr: slice_to_vec(head) }, rest)),
            None => Err(truncated("garlic64")),
        }
    }

    /// The segment on the wire: the number of the protocol, the length of
    /// the destination, the destination.
    pub fn encode(&self) -> (r: Result<Vec<u8>, Error>)
        ensures
            bytes_outcome(r, segment_wire(Protocol::Garlic64, self@)),
    {
        let mut out = tag(Protocol::Garlic64);
        push_prefixed(&mut out, self.addr.as_slice());
        Ok(out)
    }
}

} // verus!
