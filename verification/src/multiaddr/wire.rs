//! Payloads on the wire.
//!
//! A port is two bytes, high byte first. An address or a hash is its bytes
//! and nothing else. Everything of variable length stands behind its length
//! as a varint.

use crate::error::{fails_with, Error, ErrorKind};
use crate::multiaddr::payload::Payload;
use crate::multiaddr::peer::peer_bytes;
use crate::multiaddr::protocol::{Form, Protocol};
use crate::text::append;
use crate::varint::{
    lemma_read_bounds, read_u128, span_u128, take_u128, varint, write_u128, Reading, LIMIT_U128,
};
use vstd::prelude::*;
use vstd::slice::*;
use vstd::utf8::*;

verus! {

/// The port that two bytes spell, high byte first.
pub open spec fn port_of(hi: u8, lo: u8) -> u16 {
    (hi * 256 + lo) as u16
}

/// The two bytes of a port, high byte first.
pub open spec fn port_bytes(port: u16) -> Seq<u8> {
    seq![(port / 256) as u8, (port % 256) as u8]
}

/// `bytes` behind their length.
pub open spec fn prefixed(bytes: Seq<u8>) -> Seq<u8> {
    varint(bytes.len()) + bytes
}

/// The bytes that stand behind a length at the front of `data`, and how
/// many bytes length and bytes take together. `None` where there is no
/// length to read or it runs past the end.
pub open spec fn take_prefixed(data: Seq<u8>) -> Option<(Seq<u8>, nat)> {
    match read_u128(data) {
        Reading::Value(len, n) => if n + len <= data.len() {
            Some((data.subrange(n as int, (n + len) as int), n + len))
        } else {
            None
        },
        _ => None,
    }
}

/// The payload that stands at the front of `data` for a protocol of the
/// given shape, and how many bytes it takes. `None` where `data` ends too
/// soon, or a path is not UTF-8.
pub open spec fn wire_parse(form: Form, data: Seq<u8>) -> Option<(Payload, nat)> {
    match form {
        Form::Marker => Some((Payload::Empty, 0)),
        Form::Port => if data.len() >= 2 {
            Some((Payload::Port(port_of(data[0], data[1])), 2))
        } else {
            None
        },
        Form::Ip4 => if data.len() >= 4 {
            Some((Payload::Bytes(data.take(4)), 4))
        } else {
            None
        },
        Form::Ip6 => if data.len() >= 16 {
            Some((Payload::Bytes(data.take(16)), 16))
        } else {
            None
        },
        Form::Onion => if data.len() >= 12 {
            Some((Payload::HashPort(data.take(10), port_of(data[10], data[11])), 12))
        } else {
            None
        },
        Form::Onion3 => if data.len() >= 37 {
            Some((Payload::HashPort(data.take(35), port_of(data[35], data[36])), 37))
        } else {
            None
        },
        Form::Name | Form::Garlic32 | Form::Garlic64 | Form::Peer => match take_prefixed(data) {
            Some((bytes, n)) => Some((Payload::Bytes(bytes), n)),
            None => None,
        },
        Form::Path => match take_prefixed(data) {
            Some((bytes, n)) => if valid_utf8(bytes) {
                Some((Payload::Text(decode_utf8(bytes)), n))
            } else {
                None
            },
            None => None,
        },
    }
}

/// The bytes that a payload travels as, for a protocol of the given shape.
/// A peer identity held as text is turned into bytes first, and fails as
/// that does. A payload that the shape does not carry is `Invalid`.
pub open spec fn wire_render(form: Form, payload: Payload) -> Result<Seq<u8>, ErrorKind> {
    match (form, payload) {
        (Form::Marker, Payload::Empty) => Ok(Seq::empty()),
        (Form::Port, Payload::Port(port)) => Ok(port_bytes(port)),
        (Form::Ip4, Payload::Bytes(b)) => Ok(b),
        (Form::Ip6, Payload::Bytes(b)) => Ok(b),
        (Form::Onion, Payload::HashPort(h, port)) => Ok(h + port_bytes(port)),
        (Form::Onion3, Payload::HashPort(h, port)) => Ok(h + port_bytes(port)),
        (Form::Name, Payload::Bytes(b)) => Ok(prefixed(b)),
        (Form::Garlic32, Payload::Bytes(b)) => Ok(prefixed(b)),
        (Form::Garlic64, Payload::Bytes(b)) => Ok(prefixed(b)),
        (Form::Peer, Payload::Bytes(b)) => Ok(prefixed(b)),
        (Form::Peer, Payload::Text(t)) => match peer_bytes(t) {
            Ok(b) => Ok(prefixed(b)),
            Err(k) => Err(k),
        },
        (Form::Path, Payload::Text(t)) => Ok(prefixed(encode_utf8(t))),
        _ => Err(ErrorKind::Invalid),
    }
}

/// The bytes that a segment travels as: the number of its protocol as a
/// varint, then its payload.
pub open spec fn segment_wire(protocol: Protocol, payload: Payload) -> Result<
    Seq<u8>,
    ErrorKind,
> {
    match wire_render(protocol.spec_form(), payload) {
        Ok(b) => Ok(varint(protocol.spec_code() as nat) + b),
        Err(k) => Err(k),
    }
}

/// `r` is the outcome that `expected` calls for.
pub open spec fn bytes_outcome(
    r: Result<Vec<u8>, Error>,
    expected: Result<Seq<u8>, ErrorKind>,
) -> bool {
    match expected {
        Ok(b) => r matches Ok(v) && v@ == b,
        Err(k) => fails_with(r, k),
    }
}

/// A `DecodeError` raised by the decoder of the protocol called `place`.
pub fn truncated(place: &str) -> (e: Error)
    ensures
        e.spec_kind() == ErrorKind::DecodeError,
        e.spec_place() == place@,
{
    Error::new(ErrorKind::DecodeError, place, "insufficient bytes")
}

/// The first `n` bytes of `data` and the rest, where there are that many.
pub fn read_fixed(data: &[u8], n: usize) -> (r: Option<(&[u8], &[u8])>)
    ensures
        match r {
            Some((head, rest)) => n <= data@.len() && head@ == data@.take(n as int) && rest@
                == data@.skip(n as int),
            None => data@.len() < n,
        },
{
    if data.len() < n {
        None
    } else {
        Some((slice_subrange(data, 0, n), slice_subrange(data, n, data.len())))
    }
}

/// The port at the front of `data`, and the rest.
pub fn read_port(data: &[u8]) -> (r: Option<(u16, &[u8])>)
    ensures
        match r {
            Some((port, rest)) => data@.len() >= 2 && port == port_of(data@[0], data@[1]) && rest@
                == data@.skip(2),
            None => data@.len() < 2,
        },
{
    if data.len() < 2 {
        None
    } else {
        let hi: u16 = data[0] as u16;
        let lo: u16 = data[1] as u16;
        Some((hi * 256 + lo, slice_subrange(data, 2, data.len())))
    }
}

/// The bytes behind the length at the front of `data`, and the rest.
pub fn read_prefixed(data: &[u8]) -> (r: Option<(&[u8], &[u8])>)
    ensures
        match take_prefixed(data@) {
            Some((bytes, n)) => r matches Some((head, rest)) && head@ == bytes && rest@
                == data@.skip(n as int),
            None => r is None,
        },
{
    match take_u128(data) {
        Some((len, rest)) => {
            proof {
                lemma_read_bounds(data@, LIMIT_U128 as nat, span_u128());
            }
            if len > rest.len() as u128 {
                None
            } else {
                let n: usize = len as usize;
                let head = slice_subrange(rest, 0, n);
                let tail = slice_subrange(rest, n, rest.len());
                Some((head, tail))
            }
        },
        None => None,
    }
}

/// Writes a port at the end of `out`.
pub fn push_port(out: &mut Vec<u8>, port: u16)
    ensures
        final(out)@ == old(out)@ + port_bytes(port),
{
    out.push((port / 256) as u8);
    out.push((port % 256) as u8);
}

/// Writes `bytes` behind their length at the end of `out`.
pub fn push_prefixed(out: &mut Vec<u8>, bytes: &[u8])
    ensures
        final(out)@ == old(out)@ + prefixed(bytes@),
{
    let len = write_u128(bytes.len() as u128);
    append(out, len.as_slice());
    append(out, bytes);
}

/// The number of a protocol as it stands in front of a payload.
pub fn tag(protocol: Protocol) -> (out: Vec<u8>)
    ensures
        out@ == varint(protocol.spec_code() as nat),
{
    write_u128(protocol.code())
}

/// The two bytes of a port give the port back.
pub proof fn lemma_port_bytes(port: u16)
    ensures
        port_of(port_bytes(port)[0], port_bytes(port)[1]) == port,
{
}

/// What stands behind its length is found again behind its length,
/// whatever follows.
pub proof fn lemma_take_prefixed(bytes: Seq<u8>, rest: Seq<u8>)
    requires
        bytes.len() <= u128::MAX,
    ensures
        take_prefixed(prefixed(bytes) + rest) == Some((bytes, prefixed(bytes).len())),
{
    let len = bytes.len() as u128;
    crate::varint::lemma_read_u128_varint(len, bytes + rest);
    let head = varint(len as nat);
    assert(prefixed(bytes) + rest =~= head + (bytes + rest));
}

} // verus!
