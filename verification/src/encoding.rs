//! Binary-to-text encodings that the address formats lean on: base32 and
//! base64 with a chosen alphabet, and base58.
//!
//! The conversions are the work of the `data-encoding` and `bs58` crates.
//! What they produce is a function of the input alone but takes pages to
//! state, so each result is given a name here, and this crate's contracts
//! speak of the names.

use vstd::prelude::*;
use vstd::string::*;

verus! {

/// Text that padded base32 over the RFC 4648 alphabet makes of `data`.
pub uninterp spec fn base32_text(data: Seq<u8>) -> Seq<u8>;

/// Bytes that padded base32 over the RFC 4648 alphabet reads from `text`,
/// if it reads any.
pub uninterp spec fn base32_data(text: Seq<u8>) -> Option<Seq<u8>>;

/// Text that the encoding over `symbols`, padded with `pad`, makes of
/// `data`, if `symbols` and `pad` make an encoding at all.
pub uninterp spec fn padded_text(symbols: Seq<char>, pad: char, data: Seq<u8>) -> Option<Seq<u8>>;

/// Bytes that the encoding over `symbols`, padded with `pad`, reads from
/// `text`, if it reads any.
pub uninterp spec fn padded_data(symbols: Seq<char>, pad: char, text: Seq<u8>) -> Option<Seq<u8>>;

/// Text that base58 over the Bitcoin alphabet makes of `data`.
pub uninterp spec fn base58_text(data: Seq<u8>) -> Seq<char>;

/// Bytes that base58 over the Bitcoin alphabet reads from `text`, if it
/// reads any.
pub uninterp spec fn base58_data(text: Seq<u8>) -> Option<Seq<u8>>;

/// The longest input that the encoders of `data-encoding` take.
pub open spec fn encode_limit() -> nat {
    (usize::MAX / 512) as nat
}

/// The longest input that the decoders of `data-encoding` take.
pub open spec fn decode_limit() -> nat {
    (usize::MAX / 8) as nat
}

/// The longest input that the base58 encoder takes.
pub open spec fn base58_limit() -> nat {
    (usize::MAX / 2) as nat
}

/// `data_encoding::BASE32.encode`. The crate documents that decoding the
/// result gives the input back, and that it may panic on inputs longer than
/// `usize::MAX / 512`.
#[verifier::external_body]
pub(crate) fn base32_encode(data: &[u8]) -> (out: Vec<u8>)
    requires
        data@.len() <= encode_limit(),
    ensures
        out@ == base32_text(data@),
        base32_data(out@) == Some(data@),
{
    data_encoding::BASE32.encode(data).into_bytes()
}

/// `data_encoding::BASE32.decode`, an error of any kind coming back as
/// `None`. The crate may panic on inputs longer than `usize::MAX / 8`.
#[verifier::external_body]
pub(crate) fn base32_decode(text: &[u8]) -> (out: Option<Vec<u8>>)
    requires
        text@.len() <= decode_limit(),
    ensures
        match out {
            Some(v) => base32_data(text@) == Some(v@),
            None => base32_data(text@) is None,
        },
{
    data_encoding::BASE32.decode(text).ok()
}

/// `data_encoding::Encoding::encode` on the encoding that
/// `data_encoding::Specification::encoding` builds from `symbols` with `pad`
/// for padding and every other setting left as the crate has it. `None`
/// where the crate refuses the specification.
#[verifier::external_body]
pub(crate) fn padded_encode(symbols: &str, pad: char, data: &[u8]) -> (out: Option<Vec<u8>>)
    requires
        data@.len() <= encode_limit(),
    ensures
        match out {
            Some(v) => padded_text(symbols@, pad, data@) == Some(v@) && padded_data(
                symbols@,
                pad,
                v@,
            ) == Some(data@),
            None => padded_text(symbols@, pad, data@) is None,
        },
{
    let mut spec = data_encoding::Specification::new();
    spec.symbols.push_str(symbols);
    spec.padding = Some(pad);
    match spec.encoding() {
        Ok(enc) => Some(enc.encode(data).into_bytes()),
        Err(_) => None,
    }
}

/// `data_encoding::Encoding::decode` on the encoding that `padded_encode`
/// builds. `None` where the crate refuses the specification or the text.
#[verifier::external_body]
pub(crate) fn padded_decode(symbols: &str, pad: char, text: &[u8]) -> (out: Option<Vec<u8>>)
    requires
        text@.len() <= decode_limit(),
    ensures
        match out {
            Some(v) => padded_data(symbols@, pad, text@) == Some(v@),
            None => padded_data(symbols@, pad, text@) is None,
        },
{
    let mut spec = data_encoding::Specification::new();
    spec.symbols.push_str(symbols);
    spec.padding = Some(pad);
    match spec.encoding() {
        Ok(enc) => enc.decode(text).ok(),
        Err(_) => None,
    }
}

/// `bs58::encode(..).into_string()`. The crate sizes its buffer at one and
/// a half times the input, which must therefore fit in `usize`.
#[verifier::external_body]
pub(crate) fn base58_encode(data: &[u8]) -> (out: String)
    requires
        data@.len() <= base58_limit(),
    ensures
        out@ == base58_text(data@),
{
    bs58::encode(data).into_string()
}

/// `bs58::decode(..).into_vec()`, an error of any kind coming back as
/// `None`.
#[verifier::external_body]
pub(crate) fn base58_decode(text: &[u8]) -> (out: Option<Vec<u8>>)
    ensures
        match out {
            Some(v) => base58_data(text@) == Some(v@),
            None => base58_data(text@) is None,
        },
{
    bs58::decode(text).into_vec().ok()
}

} // verus!
