//! Payloads in text.
//!
//! A segment is written as a slash, the protocol's name, and whatever the
//! protocol's payload is written as: nothing, or a slash and one token, or,
//! for a path, the path.

use crate::error::{fails_with, Error, ErrorKind};
use crate::multiaddr::garlic32::{garlic32_text, garlic32_data};
use crate::multiaddr::garlic64::{garlic64_text, garlic64_data};
use crate::multiaddr::ip4::{ip4_text, parse_ip4};
use crate::multiaddr::ip6::{ip6_text, parse_ip6};
use crate::multiaddr::onion::{onion_text, parse_onion};
use crate::multiaddr::payload::Payload;
use crate::multiaddr::peer::peer_text;
use crate::multiaddr::protocol::{Form, Protocol};
use crate::text::{append, decimal, parse_decimal, slashed, string_from_utf8, views};
use vstd::prelude::*;
use vstd::slice::*;
use vstd::string::*;
use vstd::utf8::*;

verus! {

/// The slash.
pub const SLASH: u8 = 0x2f;

/// The payload that one token spells for a protocol of the given shape.
pub open spec fn token_parse(form: Form, token: Seq<u8>) -> Option<Payload> {
    match form {
        Form::Port => match parse_decimal(token, 0xffff) {
            Some(port) => Some(Payload::Port(port as u16)),
            None => None,
        },
        Form::Ip4 => match parse_ip4(token) {
            Some(b) => Some(Payload::Bytes(b)),
            None => None,
        },
        Form::Ip6 => match parse_ip6(token) {
            Some(b) => Some(Payload::Bytes(b)),
            None => None,
        },
        Form::Name => Some(Payload::Bytes(token)),
        Form::Onion => match parse_onion(token, 16, 10) {
            Some((hash, port)) => Some(Payload::HashPort(hash, port)),
            None => None,
        },
        Form::Onion3 => match parse_onion(token, 56, 35) {
            Some((hash, port)) => Some(Payload::HashPort(hash, port)),
            None => None,
        },
        Form::Garlic32 => match garlic32_data(token) {
            Some(b) => Some(Payload::Bytes(b)),
            None => None,
        },
        Form::Garlic64 => match garlic64_data(token) {
            Some(b) => Some(Payload::Bytes(b)),
            None => None,
        },
        Form::Peer => if valid_utf8(token) {
            Some(Payload::Text(decode_utf8(token)))
        } else {
            None
        },
        Form::Marker => None,
        Form::Path => None,
    }
}

/// The payload that the tokens after a protocol's name spell, and how many
/// of them it takes: none for a marker, all there are (and at least one)
/// for a path, one for every other shape.
pub open spec fn text_parse(form: Form, tokens: Seq<Seq<u8>>) -> Option<(Payload, nat)> {
    match form {
        Form::Marker => Some((Payload::Empty, 0)),
        Form::Path => if tokens.len() > 0 && valid_utf8(slashed(tokens)) {
            Some((Payload::Text(decode_utf8(slashed(tokens))), tokens.len()))
        } else {
            None
        },
        _ => if tokens.len() > 0 {
            match token_parse(form, tokens[0]) {
                Some(p) => Some((p, 1)),
                None => None,
            }
        } else {
            None
        },
    }
}

/// The one token that a payload is written as.
pub open spec fn token_render(form: Form, payload: Payload) -> Result<Seq<u8>, ErrorKind> {
    match (form, payload) {
        (Form::Port, Payload::Port(port)) => Ok(decimal(port as nat)),
        (Form::Ip4, Payload::Bytes(b)) => Ok(ip4_text(b)),
        (Form::Ip6, Payload::Bytes(b)) => Ok(ip6_text(b)),
        (Form::Name, Payload::Bytes(b)) => Ok(b),
        (Form::Onion, Payload::HashPort(h, port)) => Ok(onion_text(h, port)),
        (Form::Onion3, Payload::HashPort(h, port)) => Ok(onion_text(h, port)),
        (Form::Garlic32, Payload::Bytes(b)) => garlic32_text(b),
        (Form::Garlic64, Payload::Bytes(b)) => garlic64_text(b),
        (Form::Peer, Payload::Text(t)) => Ok(encode_utf8(t)),
        (Form::Peer, Payload::Bytes(b)) => match peer_text(b) {
            Ok(t) => Ok(encode_utf8(t)),
            Err(k) => Err(k),
        },
        _ => Err(ErrorKind::Invalid),
    }
}

/// What a payload is written as behind the protocol's name. A payload that
/// the shape does not carry is `Invalid`.
pub open spec fn text_render(form: Form, payload: Payload) -> Result<Seq<u8>, ErrorKind> {
    match (form, payload) {
        (Form::Marker, Payload::Empty) => Ok(Seq::empty()),
        (Form::Path, Payload::Text(t)) => Ok(encode_utf8(t)),
        _ => match token_render(form, payload) {
            Ok(t) => Ok(seq![SLASH] + t),
            Err(k) => Err(k),
        },
    }
}

/// What a segment is written as.
pub open spec fn segment_text(protocol: Protocol, payload: Payload) -> Result<
    Seq<u8>,
    ErrorKind,
> {
    match text_render(protocol.spec_form(), payload) {
        Ok(t) => Ok(seq![SLASH] + protocol.spec_name() + t),
        Err(k) => Err(k),
    }
}

/// `r` is the outcome that `expected` calls for: the string whose bytes are
/// expected, a `DecodeError` where the expected bytes are no string, or the
/// failure expected.
pub open spec fn text_outcome(
    r: Result<String, Error>,
    expected: Result<Seq<u8>, ErrorKind>,
) -> bool {
    match expected {
        Ok(t) => if valid_utf8(t) {
            r matches Ok(s) && s@ == decode_utf8(t)
        } else {
            fails_with(r, ErrorKind::DecodeError)
        },
        Err(k) => fails_with(r, k),
    }
}

/// A `BadAddr` raised by the parser of the protocol called `place`.
pub fn bad_addr(place: &str, message: &str) -> (e: Error)
    ensures
        e.spec_kind() == ErrorKind::BadAddr,
        e.spec_place() == place@,
        e.spec_message() == message@,
{
    Error::new(ErrorKind::BadAddr, place, message)
}

/// The tokens from the `n`-th on.
pub(crate) fn skip_tokens<'a, 'b>(parts: &'a [&'b [u8]], n: usize) -> (rest: &'a [&'b [u8]])
    requires
        n <= parts@.len(),
    ensures
        rest@ == parts@.skip(n as int),
        views(rest@) == views(parts@).skip(n as int),
{
    let rest = slice_subrange(parts, n, parts.len());
    rest
}

/// The slash and the name that a segment of the protocol starts with.
pub fn start_text(protocol: Protocol) -> (out: Vec<u8>)
    ensures
        out@ == seq![SLASH] + protocol.spec_name(),
{
    let mut out: Vec<u8> = Vec::new();
    out.push(SLASH);
    append(&mut out, protocol.name().as_bytes());
    out
}

/// The slash, the name and the one token that a segment is written as.
pub fn token_text(protocol: Protocol, token: &[u8]) -> (out: Vec<u8>)
    ensures
        out@ == seq![SLASH] + protocol.spec_name() + (seq![SLASH] + token@),
{
    let mut out = start_text(protocol);
    out.push(SLASH);
    append(&mut out, token);
    out
}

/// The string that `bytes` encode; a `DecodeError` where they encode none.
pub fn into_text(bytes: Vec<u8>, place: &str) -> (r: Result<String, Error>)
    ensures
        text_outcome(r, Ok(bytes@)),
{
    match string_from_utf8(bytes) {
        Some(s) => Ok(s),
        None => Err(Error::new(ErrorKind::DecodeError, place, "not UTF-8")),
    }
}

} // verus!
