//! Peer identities: the text they are written as, the bytes they travel as,
//! and the passage between the two.

use crate::encoding::{base58_data, base58_decode, base58_encode, base58_limit, base58_text};
use crate::error::{fails_with, Error, ErrorKind};
use crate::multibase::{decode, spec_decode};
use crate::multicodec::{Multicodec, CID_V1, LIBP2P_KEY};
use crate::multihash::{rewrite, Multihash};
use crate::varint::{read_u128, Reading};
use vstd::prelude::*;
use vstd::string::*;
use vstd::utf8::*;

verus! {

/// The text is written the old way, in bare base58: it starts with `Qm`, or
/// with `1` and has more to it.
pub open spec fn is_legacy(text: Seq<char>) -> bool {
    text.len() >= 2 && ((text[0] == 'Q' && text[1] == 'm') || text[0] == '1')
}

/// The record behind the two wrappers of a peer identity written the new
/// way: the number of a version 1 content identifier, the number of a
/// libp2p key, then the record of a digest. A buffer that runs out within
/// the wrappers is a `DecodeError`, a wrapper with another number is
/// `Invalid`.
pub open spec fn unwrap_key(b: Seq<u8>) -> Result<Seq<u8>, ErrorKind> {
    match read_u128(b) {
        Reading::Value(outer, n) => if outer != CID_V1 {
            Err(ErrorKind::Invalid)
        } else {
            match read_u128(b.skip(n as int)) {
                Reading::Value(inner, m) => if inner != LIBP2P_KEY {
                    Err(ErrorKind::Invalid)
                } else {
                    Ok(b.skip((n + m) as int))
                },
                _ => Err(ErrorKind::DecodeError),
            }
        },
        _ => Err(ErrorKind::DecodeError),
    }
}

/// The bytes that a peer identity written as `text` travels as.
///
/// Text written the old way is read as base58 and must hold the record of a
/// digest. Any other text is read in the base that its first character
/// announces and must hold such a record behind the two wrappers. Text that
/// cannot be read is `BadInput`.
pub open spec fn peer_bytes(text: Seq<char>) -> Result<Seq<u8>, ErrorKind> {
    if is_legacy(text) {
        match base58_data(encode_utf8(text)) {
            Some(b) => rewrite(b),
            None => Err(ErrorKind::BadInput),
        }
    } else {
        match spec_decode(text) {
            Some((_, b)) => match unwrap_key(b) {
                Ok(inner) => rewrite(inner),
                Err(k) => Err(k),
            },
            None => Err(ErrorKind::BadInput),
        }
    }
}

/// The text that a peer identity travelling as `bytes` is written as: the
/// record of its digest in base58. `EncodeError` where the record is longer
/// than the encoder takes.
pub open spec fn peer_text(bytes: Seq<u8>) -> Result<Seq<char>, ErrorKind> {
    match rewrite(bytes) {
        Ok(r) => if r.len() <= base58_limit() {
            Ok(base58_text(r))
        } else {
            Err(ErrorKind::EncodeError)
        },
        Err(k) => Err(k),
    }
}

/// The record at the front of `bytes`, written out afresh.
pub fn rewritten(bytes: &[u8]) -> (r: Result<Vec<u8>, Error>)
    ensures
        match rewrite(bytes@) {
            Ok(out) => r matches Ok(v) && v@ == out,
            Err(k) => fails_with(r, k),
        },
{
    match Multihash::decode(bytes) {
        Ok((mh, _)) => mh.encode(),
        Err(e) => Err(e),
    }
}

/// What is behind the two wrappers at the front of `bytes`.
pub fn unwrapped(bytes: &[u8]) -> (r: Result<&[u8], Error>)
    ensures
        match unwrap_key(bytes@) {
            Ok(inner) => r matches Ok(s) && s@ == inner,
            Err(k) => fails_with(r, k),
        },
{
    let (outer, rest) = match Multicodec::decode(bytes) {
        Ok(pair) => pair,
        Err(e) => {
            return Err(e);
        },
    };
    if outer.to_code() != CID_V1 {
        return Err(Error::new(ErrorKind::Invalid, "p2p", "not a version 1 identifier"));
    }
    let (inner, rest2) = match Multicodec::decode(rest) {
        Ok(pair) => pair,
        Err(e) => {
            return Err(e);
        },
    };
    if inner.to_code() != LIBP2P_KEY {
        return Err(Error::new(ErrorKind::Invalid, "p2p", "not a libp2p key"));
    }
    proof {
        crate::varint::lemma_read_bounds(
            bytes@,
            crate::varint::LIMIT_U128 as nat,
            crate::varint::span_u128(),
        );
        crate::varint::lemma_read_bounds(
            rest@,
            crate::varint::LIMIT_U128 as nat,
            crate::varint::span_u128(),
        );
        let n = bytes@.len() - rest@.len();
        let m = rest@.len() - rest2@.len();
    }
    Ok(rest2)
}

/// The bytes that a peer identity written as `text` travels as.
pub fn text_to_bytes(text: &str) -> (r: Result<Vec<u8>, Error>)
    ensures
        match peer_bytes(text@) {
            Ok(out) => r matches Ok(v) && v@ == out,
            Err(k) => fails_with(r, k),
        },
{
    let bytes = text.as_bytes();
    let legacy = legacy_marks(text);
    if legacy {
        match base58_decode(bytes) {
            Some(raw) => rewritten(raw.as_slice()),
            None => Err(Error::new(ErrorKind::BadInput, "p2p", "not base58")),
        }
    } else {
        match decode(text) {
            Some((_, raw)) => match unwrapped(raw.as_slice()) {
                Ok(inner) => rewritten(inner),
                Err(e) => Err(e),
            },
            None => Err(Error::new(ErrorKind::BadInput, "p2p", "not text in a known base")),
        }
    }
}

/// Whether `text` is written the old way.
pub fn legacy_marks(text: &str) -> (r: bool)
    ensures
        r == is_legacy(text@),
{
    let mut chars = text.chars();
    let first = chars.next();
    let second = chars.next();
    match (first, second) {
        (Some(a), Some(b)) => (a == 'Q' && b == 'm') || a == '1',
        _ => false,
    }
}

/// The text that a peer identity travelling as `bytes` is written as.
pub fn bytes_to_text(bytes: &[u8]) -> (r: Result<String, Error>)
    ensures
        match peer_text(bytes@) {
            Ok(out) => r matches Ok(s) && s@ == out,
            Err(k) => fails_with(r, k),
        },
{
    match rewritten(bytes) {
        Ok(record) => {
            if record.len() > usize::MAX / 2 {
                return Err(Error::new(ErrorKind::EncodeError, "p2p", "too long to encode"));
            }
            Ok(base58_encode(record.as_slice()))
        },
        Err(e) => Err(e),
    }
}

} // verus!
