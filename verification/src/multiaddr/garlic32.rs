//! I2P destinations written in base32 over the I2P alphabet.

use crate::encoding::{
    decode_limit, encode_limit, padded_data, padded_decode, padded_encode, padded_text,
};
use crate::error::{fails_with, Error, ErrorKind};
use crate::multiaddr::payload::Payload;
use crate::multiaddr::protocol::{Form, Protocol};
use crate::multiaddr::text_form::{
    bad_addr, into_text, segment_text, skip_tokens, text_outcome, text_parse, token_text,
};
use crate::multiaddr::wire::{
    bytes_outcome, push_prefixed, read_prefixed, segment_wire, tag, truncated, wire_parse,
};
use crate::text::{append, views};
use vstd::prelude::*;
use vstd::slice::*;

verus! {

/// The sign that fills a last group of base32 or base64.
pub const PAD: u8 = 0x3d;

/// The alphabet of I2P's base32.
pub const GARLIC32_SYMBOLS: &'static str = "abcdefghijklmnopqrstuvwxyz234567";

/// So many signs of padding.
pub open spec fn padding(n: nat) -> Seq<u8> {
    Seq::new(n, |i: int| PAD)
}

/// `t` with padding behind it up to the next multiple of eight: eight
/// signs where the length is a multiple of eight already.
pub open spec fn padded(t: Seq<u8>) -> Seq<u8> {
    t + padding((8 - t.len() % 8) as nat)
}

/// The bytes that `t` spells. An address is 52 bytes long, or 55 and more
/// (one that names an encrypted lease set); it is padded before it is read.
pub open spec fn garlic32_data(t: Seq<u8>) -> Option<Seq<u8>> {
    if (t.len() == 52 || t.len() >= 55) && t.len() + 8 <= decode_limit() {
        padded_data(GARLIC32_SYMBOLS@, '=', padded(t))
    } else {
        None
    }
}

/// The text for the bytes of a destination, padding included.
/// `EncodeError` where there are more bytes than the encoder takes.
pub open spec fn garlic32_text(b: Seq<u8>) -> Result<Seq<u8>, ErrorKind> {
    if b.len() <= encode_limit() {
        match padded_text(GARLIC32_SYMBOLS@, '=', b) {
            Some(t) => Ok(t),
            None => Err(ErrorKind::EncodeError),
        }
    } else {
        Err(ErrorKind::EncodeError)
    }
}

/// The bytes that `addr` spells.
pub fn parse_garlic32(addr: &[u8]) -> (r: Option<Vec<u8>>)
    ensures
        match garlic32_data(addr@) {
            Some(b) => r matches Some(v) && v@ == b,
            None => r is None,
        },
{
    let n = addr.len();
    if n < 55 && n != 52 {
        return None;
    }
    if n > usize::MAX / 8 - 8 {
        return None;
    }
    let mut text: Vec<u8> = Vec::new();
    append(&mut text, addr);
    let count: usize = 8 - n % 8;
    let mut i: usize = 0;
    while i < count
        invariant
            i <= count <= 8,
            n <= usize::MAX / 8 - 8,
            addr@.len() == n,
            text@ == addr@ + padding(i as nat),
        decreases count - i,
    {
        text.push(PAD);
        i = i + 1;
    }
    padded_decode(GARLIC32_SYMBOLS, '=', text.as_slice())
}

/// The text for the bytes of a destination.
pub fn to_garlic32(b: &[u8]) -> (r: Result<Vec<u8>, Error>)
    ensures
        bytes_outcome(r, garlic32_text(b@)),
{
    if b.len() > usize::MAX / 512 {
        return Err(Error::new(ErrorKind::EncodeError, "garlic32", "too long to encode"));
    }
    match padded_encode(GARLIC32_SYMBOLS, '=', b) {
        Some(t) => Ok(t),
        None => Err(Error::new(ErrorKind::EncodeError, "garlic32", "no such encoding")),
    }
}

/// An I2P destination that is written in base32.
#[derive(Clone, Debug, PartialEq, Eq)]
pub struct Garlic32 {
    addr: Vec<u8>,
}

impl View for Garlic32 {
    type V = Payload;

    closed spec fn view(&self) -> Payload {
        Payload::Bytes(self.addr@)
    }
}

impl Garlic32 {
    /// The view is the bytes of the destination.
    pub proof fn lemma_view(&self)
        ensures
            self@ is Bytes,
    {
    }

    /// The bytes of the destination.
    pub fn as_bytes(&self) -> (b: &[u8])
        ensures
            self@ == Payload::Bytes(b@),
    {
        self.addr.as_slice()
    }

    /// Reads the destination from the first of `parts` and hands back the
    /// rest. `BadAddr` where there is no token, it has a length that no
    /// address has, or it is not base32.
    pub fn from_text<'a, 'b>(parts: &'a [&'b [u8]]) -> (r: Result<
        (Garlic32, &'a [&'b [u8]]),
        Error,
    >)
        ensures
            match text_parse(Form::Garlic32, views(parts@)) {
                Some((p, n)) => r matches Ok((v, rest)) && v@ == p && rest@ == parts@.skip(
                    n as int,
                ),
                None => fails_with(r, ErrorKind::BadAddr),
            },
    {
        if parts.len() == 0 {
            return Err(bad_addr("garlic32", "no address"));
        }
        match parse_garlic32(parts[0]) {
            Some(addr) => Ok((Garlic32 { addr }, skip_tokens(parts, 1))),
            None => Err(bad_addr("garlic32", "not an address in base32")),
        }
    }

    /// The segment in text: `/garlic32/` and the destination in base32.
    pub fn to_text(&self) -> (r: Result<String, Error>)
        ensures
            text_outcome(r, segment_text(Protocol::Garlic32, self@)),
    {
        match to_garlic32(self.addr.as_slice()) {
            Ok(token) => into_text(token_text(Protocol::Garlic32, token.as_slice()), "garlic32"),
            Err(e) => Err(e),
        }
    }

    /// Reads the destination from the front of `data` and hands back the
    /// rest. `DecodeError` where `data` does not hold a length and so many
    /// bytes behind it.
    pub fn decode(data: &[u8]) -> (r: Result<(Garlic32, &[u8]), Error>)
        ensures
            match wire_parse(Form::Garlic32, data@) {
                Some((p, n)) => r matches Ok((v, rest)) && v@ == p && rest@ == data@.skip(n as int),
                None => fails_with(r, ErrorKind::DecodeError),
            },
    {
        match read_prefixed(data) {
            Some((head, rest)) => Ok((Garlic32 { addr: slice_to_vec(head) }, rest)),
            None => Err(truncated("garlic32")),
        }
    }

    /// The segment on the wire: the number of the protocol, the length of
    /// the destination, the destination.
    pub fn encode(&self) -> (r: Result<Vec<u8>, Error>)
        ensures
            bytes_outcome(r, segment_wire(Protocol::Garlic32, self@)),
    {
        let mut out = tag(Protocol::Garlic32);
        push_prefixed(&mut out, self.addr.as_slice());
        Ok(out)
    }
}

} // verus!
