//! Text that says in its first character which base the rest is written
//! in.
//!
//! The conversions are the work of the `multibase` crate. What it makes of
//! an input is a function of that input alone but takes pages to state, so
//! the two results are given names here.

use crate::encoding::{decode_limit, encode_limit};
use crate::error::{fails_with, Error, ErrorKind};
use crate::text::is_utf8;
use vstd::prelude::*;
use vstd::slice::*;
use vstd::string::*;
use vstd::utf8::*;

verus! {

/// A base that text can be written in.
#[derive(Clone, Copy, Debug, PartialEq, Eq, Structural)]
pub enum Base {
    /// 8-bit binary, text and data being the same bytes.
    Identity,
    /// Binary digits.
    Base2,
    /// Octal digits.
    Base8,
    /// Decimal digits.
    Base10,
    /// Hexadecimal digits, lower case.
    Base16Lower,
    /// Hexadecimal digits, upper case.
    Base16Upper,
    /// RFC 4648 base32, lower case, no padding.
    Base32Lower,
    /// RFC 4648 base32, upper case, no padding.
    Base32Upper,
    /// RFC 4648 base32, lower case, padded.
    Base32PadLower,
    /// RFC 4648 base32, upper case, padded.
    Base32PadUpper,
    /// RFC 4648 base32hex, lower case, no padding.
    Base32HexLower,
    /// RFC 4648 base32hex, upper case, no padding.
    Base32HexUpper,
    /// RFC 4648 base32hex, lower case, padded.
    Base32HexPadLower,
    /// RFC 4648 base32hex, upper case, padded.
    Base32HexPadUpper,
    /// z-base-32.
    Base32Z,
    /// Base36, lower case.
    Base36Lower,
    /// Base36, upper case.
    Base36Upper,
    /// RFC 9285 base45.
    Base45,
    /// Base58 over the Flickr alphabet.
    Base58Flickr,
    /// Base58 over the Bitcoin alphabet.
    Base58Btc,
    /// RFC 4648 base64, no padding.
    Base64,
    /// RFC 4648 base64, padded.
    Base64Pad,
    /// RFC 4648 URL-safe base64, no padding.
    Base64Url,
    /// RFC 4648 URL-safe base64, padded.
    Base64UrlPad,
    /// One emoji for each byte.
    Base256Emoji,
}

impl Base {
    /// The character that announces the base.
    pub open spec fn spec_code(self) -> char {
        match self {
            Base::Identity => '\0',
            Base::Base2 => '0',
            Base::Base8 => '7',
            Base::Base10 => '9',
            Base::Base16Lower => 'f',
            Base::Base16Upper => 'F',
            Base::Base32Lower => 'b',
            Base::Base32Upper => 'B',
            Base::Base32PadLower => 'c',
            Base::Base32PadUpper => 'C',
            Base::Base32HexLower => 'v',
            Base::Base32HexUpper => 'V',
            Base::Base32HexPadLower => 't',
            Base::Base32HexPadUpper => 'T',
            Base::Base32Z => 'h',
            Base::Base36Lower => 'k',
            Base::Base36Upper => 'K',
            Base::Base45 => 'R',
            Base::Base58Flickr => 'Z',
            Base::Base58Btc => 'z',
            Base::Base64 => 'm',
            Base::Base64Pad => 'M',
            Base::Base64Url => 'u',
            Base::Base64UrlPad => 'U',
            Base::Base256Emoji => '\u{1f680}',
        }
    }

    /// The base that a character announces.
    pub open spec fn spec_from_code(ch: char) -> Option<Base> {
        if ch == '\0' {
            Some(Base::Identity)
        } else if ch == '0' {
            Some(Base::Base2)
        } else if ch == '7' {
            Some(Base::Base8)
        } else if ch == '9' {
            Some(Base::Base10)
        } else if ch == 'f' {
            Some(Base::Base16Lower)
        } else if ch == 'F' {
            Some(Base::Base16Upper)
        } else if ch == 'b' {
            Some(Base::Base32Lower)
        } else if ch == 'B' {
            Some(Base::Base32Upper)
        } else if ch == 'c' {
            Some(Base::Base32PadLower)
        } else if ch == 'C' {
            Some(Base::Base32PadUpper)
        } else if ch == 'v' {
            Some(Base::Base32HexLower)
        } else if ch == 'V' {
            Some(Base::Base32HexUpper)
        } else if ch == 't' {
            Some(Base::Base32HexPadLower)
        } else if ch == 'T' {
            Some(Base::Base32HexPadUpper)
        } else if ch == 'h' {
            Some(Base::Base32Z)
        } else if ch == 'k' {
            Some(Base::Base36Lower)
        } else if ch == 'K' {
            Some(Base::Base36Upper)
        } else if ch == 'R' {
            Some(Base::Base45)
        } else if ch == 'Z' {
            Some(Base::Base58Flickr)
        } else if ch == 'z' {
            Some(Base::Base58Btc)
        } else if ch == 'm' {
            Some(Base::Base64)
        } else if ch == 'M' {
            Some(Base::Base64Pad)
        } else if ch == 'u' {
            Some(Base::Base64Url)
        } else if ch == 'U' {
            Some(Base::Base64UrlPad)
        } else if ch == '\u{1f680}' {
            Some(Base::Base256Emoji)
        } else {
            None
        }
    }

    /// The name the base goes by.
    pub open spec fn spec_name(self) -> Seq<char> {
        match self {
            Base::Identity => "identity"@,
            Base::Base2 => "base2"@,
            Base::Base8 => "base8"@,
            Base::Base10 => "base10"@,
            Base::Base16Lower => "base16"@,
            Base::Base16Upper => "base16upper"@,
            Base::Base32Lower => "base32"@,
            Base::Base32Upper => "base32upper"@,
            Base::Base32PadLower => "base32pad"@,
            Base::Base32PadUpper => "base32padupper"@,
            Base::Base32HexLower => "base32hex"@,
            Base::Base32HexUpper => "base32hexupper"@,
            Base::Base32HexPadLower => "base32hexpad"@,
            Base::Base32HexPadUpper => "base32hexpadupper"@,
            Base::Base32Z => "base32z"@,
            Base::Base36Lower => "base36"@,
            Base::Base36Upper => "base36upper"@,
            Base::Base45 => "base45"@,
            Base::Base58Flickr => "base58flickr"@,
            Base::Base58Btc => "base58btc"@,
            Base::Base64 => "base64"@,
            Base::Base64Pad => "base64pad"@,
            Base::Base64Url => "base64url"@,
            Base::Base64UrlPad => "base64urlpad"@,
            Base::Base256Emoji => "base256emoji"@,
        }
    }

    /// The character that announces the base.
    #[verifier::when_used_as_spec(spec_code)]
    pub fn code(self) -> (ch: char)
        ensures
            ch == self.spec_code(),
    {
        match self {
            Base::Identity => '\0',
            Base::Base2 => '0',
            Base::Base8 => '7',
            Base::Base10 => '9',
            Base::Base16Lower => 'f',
            Base::Base16Upper => 'F',
            Base::Base32Lower => 'b',
            Base::Base32Upper => 'B',
            Base::Base32PadLower => 'c',
            Base::Base32PadUpper => 'C',
            Base::Base32HexLower => 'v',
            Base::Base32HexUpper => 'V',
            Base::Base32HexPadLower => 't',
            Base::Base32HexPadUpper => 'T',
            Base::Base32Z => 'h',
            Base::Base36Lower => 'k',
            Base::Base36Upper => 'K',
            Base::Base45 => 'R',
            Base::Base58Flickr => 'Z',
            Base::Base58Btc => 'z',
            Base::Base64 => 'm',
            Base::Base64Pad => 'M',
            Base::Base64Url => 'u',
            Base::Base64UrlPad => 'U',
            Base::Base256Emoji => '\u{1f680}',
        }
    }

    /// The base that a character announces.
    pub fn from_code(ch: char) -> (r: Option<Base>)
        ensures
            r == Base::spec_from_code(ch),
    {
        if ch == '\0' {
            Some(Base::Identity)
        } else if ch == '0' {
            Some(Base::Base2)
        } else if ch == '7' {
            Some(Base::Base8)
        } else if ch == '9' {
            Some(Base::Base10)
        } else if ch == 'f' {
            Some(Base::Base16Lower)
        } else if ch == 'F' {
            Some(Base::Base16Upper)
        } else if ch == 'b' {
            Some(Base::Base32Lower)
        } else if ch == 'B' {
            Some(Base::Base32Upper)
        } else if ch == 'c' {
            Some(Base::Base32PadLower)
        } else if ch == 'C' {
            Some(Base::Base32PadUpper)
        } else if ch == 'v' {
            Some(Base::Base32HexLower)
        } else if ch == 'V' {
            Some(Base::Base32HexUpper)
        } else if ch == 't' {
            Some(Base::Base32HexPadLower)
        } else if ch == 'T' {
            Some(Base::Base32HexPadUpper)
        } else if ch == 'h' {
            Some(Base::Base32Z)
        } else if ch == 'k' {
            Some(Base::Base36Lower)
        } else if ch == 'K' {
            Some(Base::Base36Upper)
        } else if ch == 'R' {
            Some(Base::Base45)
        } else if ch == 'Z' {
            Some(Base::Base58Flickr)
        } else if ch == 'z' {
            Some(Base::Base58Btc)
        } else if ch == 'm' {
            Some(Base::Base64)
        } else if ch == 'M' {
            Some(Base::Base64Pad)
        } else if ch == 'u' {
            Some(Base::Base64Url)
        } else if ch == 'U' {
            Some(Base::Base64UrlPad)
        } else if ch == '\u{1f680}' {
            Some(Base::Base256Emoji)
        } else {
            None
        }
    }

    /// The name the base goes by.
    pub fn name(self) -> (s: &'static str)
        ensures
            s@ == self.spec_name(),
    {
        match self {
            Base::Identity => "identity",
            Base::Base2 => "base2",
            Base::Base8 => "base8",
            Base::Base10 => "base10",
            Base::Base16Lower => "base16",
            Base::Base16Upper => "base16upper",
            Base::Base32Lower => "base32",
            Base::Base32Upper => "base32upper",
            Base::Base32PadLower => "base32pad",
            Base::Base32PadUpper => "base32padupper",
            Base::Base32HexLower => "base32hex",
            Base::Base32HexUpper => "base32hexupper",
            Base::Base32HexPadLower => "base32hexpad",
            Base::Base32HexPadUpper => "base32hexpadupper",
            Base::Base32Z => "base32z",
            Base::Base36Lower => "base36",
            Base::Base36Upper => "base36upper",
            Base::Base45 => "base45",
            Base::Base58Flickr => "base58flickr",
            Base::Base58Btc => "base58btc",
            Base::Base64 => "base64",
            Base::Base64Pad => "base64pad",
            Base::Base64Url => "base64url",
            Base::Base64UrlPad => "base64urlpad",
            Base::Base256Emoji => "base256emoji",
        }
    }
}

/// A character announces a base.
pub open spec fn known_base(ch: char) -> bool {
    Base::spec_from_code(ch) is Some
}

/// Every base is found again by its character.
pub proof fn lemma_base_code(base: Base)
    ensures
        Base::spec_from_code(base.spec_code()) == Some(base),
{
}

/// The text for `data` in the base that `code` announces, `code` included.
pub uninterp spec fn multibase_text(code: char, data: Seq<u8>) -> Seq<char>;

/// The character that `text` starts with and the data that the rest of it
/// spells in the base that the character announces, if it spells any.
pub uninterp spec fn multibase_data(text: Seq<char>) -> Option<(char, Seq<u8>)>;

/// The bases in the order of their characters' first appearance in the
/// table of bases.
pub fn bases() -> (all: Vec<Base>)
    ensures
        all@.len() == 25,
        forall|b: Base| all@.contains(b),
{
    let mut all: Vec<Base> = Vec::new();
    all.push(Base::Identity);
    all.push(Base::Base2);
    all.push(Base::Base8);
    all.push(Base::Base10);
    all.push(Base::Base16Lower);
    all.push(Base::Base16Upper);
    all.push(Base::Base32Lower);
    all.push(Base::Base32Upper);
    all.push(Base::Base32PadLower);
    all.push(Base::Base32PadUpper);
    all.push(Base::Base32HexLower);
    all.push(Base::Base32HexUpper);
    all.push(Base::Base32HexPadLower);
    all.push(Base::Base32HexPadUpper);
    all.push(Base::Base32Z);
    all.push(Base::Base36Lower);
    all.push(Base::Base36Upper);
    all.push(Base::Base45);
    all.push(Base::Base58Flickr);
    all.push(Base::Base58Btc);
    all.push(Base::Base64);
    all.push(Base::Base64Pad);
    all.push(Base::Base64Url);
    all.push(Base::Base64UrlPad);
    all.push(Base::Base256Emoji);
    proof {
        assert forall|b: Base| all@.contains(b) by {
            match b {
                Base::Identity => {
                    assert(all@[0] == b);
                },
                Base::Base2 => {
                    assert(all@[1] == b);
                },
                Base::Base8 => {
                    assert(all@[2] == b);
                },
                Base::Base10 => {
                    assert(all@[3] == b);
                },
                Base::Base16Lower => {
                    assert(all@[4] == b);
                },
                Base::Base16Upper => {
                    assert(all@[5] == b);
                },
                Base::Base32Lower => {
                    assert(all@[6] == b);
                },
                Base::Base32Upper => {
                    assert(all@[7] == b);
                },
                Base::Base32PadLower => {
                    assert(all@[8] == b);
                },
                Base::Base32PadUpper => {
                    assert(all@[9] == b);
                },
                Base::Base32HexLower => {
                    assert(all@[10] == b);
                },
                Base::Base32HexUpper => {
                    assert(all@[11] == b);
                },
                Base::Base32HexPadLower => {
                    assert(all@[12] == b);
                },
                Base::Base32HexPadUpper => {
                    assert(all@[13] == b);
                },
                Base::Base32Z => {
                    assert(all@[14] == b);
                },
                Base::Base36Lower => {
                    assert(all@[15] == b);
                },
                Base::Base36Upper => {
                    assert(all@[16] == b);
                },
                Base::Base45 => {
                    assert(all@[17] == b);
                },
                Base::Base58Flickr => {
                    assert(all@[18] == b);
                },
                Base::Base58Btc => {
                    assert(all@[19] == b);
                },
                Base::Base64 => {
                    assert(all@[20] == b);
                },
                Base::Base64Pad => {
                    assert(all@[21] == b);
                },
                Base::Base64Url => {
                    assert(all@[22] == b);
                },
                Base::Base64UrlPad => {
                    assert(all@[23] == b);
                },
                Base::Base256Emoji => {
                    assert(all@[24] == b);
                },
            }
        }
    }
    all
}

/// Data may be written in the base that `code` announces: it is not too
/// long for the encoders, and where text and data are the same bytes, the
/// bytes are text.
pub open spec fn encodable(code: char, data: Seq<u8>) -> bool {
    data.len() <= encode_limit() && (code == '\0' ==> valid_utf8(data))
}

/// `multibase::encode`, on the base that `multibase::Base::from_code` gives
/// for `code`; nothing where it gives none. The crate puts `code` in front
/// of what the base makes of the data; it panics where the base is the
/// identity and the data is not UTF-8, and the encoders behind it may panic
/// on more than `usize::MAX / 512` bytes.
#[verifier::external_body]
fn encode_in(code: char, data: &[u8]) -> (r: Option<String>)
    requires
        encodable(code, data@),
    ensures
        match r {
            Some(text) => known_base(code) && text@ == multibase_text(code, data@) && text@.len()
                >= 1 && text@[0] == code,
            None => !known_base(code),
        },
{
    match multibase::Base::from_code(code) {
        Ok(base) => Some(multibase::encode(base, data)),
        Err(_) => None,
    }
}

/// `multibase::decode`, the base coming back as its character
/// (`multibase::Base::code`) and an error of any kind as `None`. The crate
/// takes the first character of the text for the base and fails on one that
/// announces none; the decoders behind it may panic on more than
/// `usize::MAX / 8` bytes.
#[verifier::external_body]
fn decode_any(text: &str) -> (r: Option<(char, Vec<u8>)>)
    requires
        text.spec_bytes().len() <= decode_limit(),
    ensures
        match r {
            Some((code, data)) => multibase_data(text@) == Some((code, data@)) && known_base(code)
                && text@.len() >= 1 && text@[0] == code,
            None => multibase_data(text@) is None,
        },
{
    match multibase::decode(text) {
        Ok((base, data)) => Some((base.code(), data)),
        Err(_) => None,
    }
}

/// Data and the base it is, or is to be, written in.
#[derive(Clone, Debug, PartialEq, Eq)]
pub struct Multibase {
    base: Base,
    data: Option<Vec<u8>>,
}

/// A `Multibase` as contracts see it.
pub struct MultibaseView {
    pub base: Base,
    pub data: Option<Seq<u8>>,
}

impl View for Multibase {
    type V = MultibaseView;

    closed spec fn view(&self) -> MultibaseView {
        MultibaseView {
            base: self.base,
            data: match self.data {
                Some(d) => Some(d@),
                None => None,
            },
        }
    }
}

impl Multibase {
    /// `data`, to be written in `base`. Never fails.
    pub fn with_base(base: Base, data: &[u8]) -> (r: Result<Multibase, Error>)
        ensures
            r matches Ok(mb) && mb@ == (MultibaseView { base, data: Some(data@) }),
    {
        Ok(Multibase { base, data: Some(slice_to_vec(data)) })
    }

    /// `data`, to be written in the base that `ch` announces. `BadInput`
    /// where `ch` announces none.
    pub fn with_char(ch: char, data: &[u8]) -> (r: Result<Multibase, Error>)
        ensures
            match Base::spec_from_code(ch) {
                Some(base) => r matches Ok(mb) && mb@ == (MultibaseView {
                    base,
                    data: Some(data@),
                }),
                None => fails_with(r, ErrorKind::BadInput),
            },
    {
        match Base::from_code(ch) {
            Some(base) => Ok(Multibase { base, data: Some(slice_to_vec(data)) }),
            None => Err(Error::new(ErrorKind::BadInput, "multibase", "no base has this character")),
        }
    }

    /// The data written in its base, behind the base's character; the empty
    /// string where there is no data. `EncodeError` where the data cannot be
    /// written in the base.
    pub fn to_text(&self) -> (r: Result<String, Error>)
        ensures
            match self@.data {
                Some(data) => if encodable(self@.base.spec_code(), data) {
                    r matches Ok(s) && s@ == multibase_text(self@.base.spec_code(), data)
                } else {
                    fails_with(r, ErrorKind::EncodeError)
                },
                None => r matches Ok(s) && s@.len() == 0,
            },
    {
        match &self.data {
            Some(data) => encode(self.base, data.as_slice()),
            None => Ok(String::new()),
        }
    }

    /// The data that `text` spells and the base it spells it in. `BadInput`
    /// where the text is empty, its first character announces no base, or
    /// the rest is not written in that base.
    pub fn from_text(text: &str) -> (r: Result<Multibase, Error>)
        ensures
            match spec_decode(text@) {
                Some((base, data)) => r matches Ok(mb) && mb@ == (MultibaseView {
                    base,
                    data: Some(data),
                }),
                None => fails_with(r, ErrorKind::BadInput),
            },
    {
        match decode(text) {
            Some((base, data)) => Ok(Multibase { base, data: Some(data) }),
            None => Err(Error::new(ErrorKind::BadInput, "multibase", "not text in a known base")),
        }
    }

    /// The base.
    pub fn to_base(&self) -> (base: Base)
        ensures
            base == self@.base,
    {
        self.base
    }

    /// The data, if there is any.
    pub fn to_bytes(&self) -> (r: Option<Vec<u8>>)
        ensures
            match self@.data {
                Some(d) => r matches Some(out) && out@ == d,
                None => r is None,
            },
    {
        match &self.data {
            Some(d) => Some(slice_to_vec(d.as_slice())),
            None => None,
        }
    }
}

/// The base and the data that `text` spells, if it is short enough for the
/// decoders and spells any.
pub open spec fn spec_decode(text: Seq<char>) -> Option<(Base, Seq<u8>)> {
    if encode_utf8(text).len() <= decode_limit() {
        match multibase_data(text) {
            Some((code, data)) => match Base::spec_from_code(code) {
                Some(base) => Some((base, data)),
                None => None,
            },
            None => None,
        }
    } else {
        None
    }
}

/// The base and the data that `text` spells.
pub fn decode(text: &str) -> (r: Option<(Base, Vec<u8>)>)
    ensures
        match spec_decode(text@) {
            Some((base, data)) => r matches Some((b, d)) && b == base && d@ == data,
            None => r is None,
        },
{
    if text.as_bytes().len() > usize::MAX / 8 {
        return None;
    }
    match decode_any(text) {
        Some((code, data)) => match Base::from_code(code) {
            Some(base) => Some((base, data)),
            None => None,
        },
        None => None,
    }
}

/// `data` written in `base`, behind the base's character. `EncodeError`
/// where the data is not `encodable`.
pub fn encode(base: Base, data: &[u8]) -> (r: Result<String, Error>)
    ensures
        if encodable(base.spec_code(), data@) {
            r matches Ok(s) && s@ == multibase_text(base.spec_code(), data@) && s@.len() >= 1
        } else {
            fails_with(r, ErrorKind::EncodeError)
        },
{
    if data.len() > usize::MAX / 512 {
        return Err(Error::new(ErrorKind::EncodeError, "multibase", "too long to encode"));
    }
    let code = base.code();
    if code == '\0' && !is_utf8(data) {
        return Err(Error::new(ErrorKind::EncodeError, "multibase", "not text"));
    }
    proof {
        lemma_base_code(base);
    }
    match encode_in(code, data) {
        Some(text) => Ok(text),
        None => Err(Error::new(ErrorKind::EncodeError, "multibase", "no such base")),
    }
}

} // verus!
