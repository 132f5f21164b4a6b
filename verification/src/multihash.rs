//! Hash digests that say which function made them: the number of the hash
//! function, the length of the digest, and the digest, one after the other.

use crate::digest::{digest_of, spec_digest_of, Algo};
use crate::encoding::encode_limit;
use crate::error::{fails_with, Error, ErrorKind};
use crate::multibase::{encode, multibase_text, Base};
use crate::multicodec::{label_of, Multicodec};
use crate::text::{
    as_chars, decimal, lemma_ascii_is_utf8, lemma_decimal_ascii, push_number, string_from_utf8,
};
use crate::varint::{
    read_u128, read_usize, take_usize, varint, write_u128, write_usize, Reading,
};
use vstd::prelude::*;
use vstd::slice::*;
use vstd::string::*;

verus! {

/// The hash functions a digest may come from.
pub open spec fn supported(code: u128) -> bool {
    Algo::spec_from_code(code) is Some
}

/// The record of a digest: the number of its hash function and the length
/// of the digest, each as a varint, then the digest.
pub open spec fn record(code: u128, digest: Seq<u8>) -> Seq<u8> {
    varint(code as nat) + varint(digest.len()) + digest
}

/// What stands at the front of `b`, read as a record: the number of the
/// hash function, the digest, and how many bytes the record took.
///
/// A buffer without a varint at its front is a `DecodeError`. A missing or
/// malformed length, or a length that runs past the buffer, is a `BadInput`.
/// A hash function this crate does not know is `NotImplemented`.
pub open spec fn parse_record(b: Seq<u8>) -> Result<(u128, Seq<u8>, nat), ErrorKind> {
    match read_u128(b) {
        Reading::Value(code, n) => match read_usize(b.skip(n as int)) {
            Reading::Value(len, m) => if n + m + len <= b.len() {
                if supported(code as u128) {
                    Ok(
                        (
                            code as u128,
                            b.subrange((n + m) as int, (n + m + len) as int),
                            n + m + len,
                        ),
                    )
                } else {
                    Err(ErrorKind::NotImplemented)
                }
            } else {
                Err(ErrorKind::BadInput)
            },
            _ => Err(ErrorKind::BadInput),
        },
        _ => Err(ErrorKind::DecodeError),
    }
}

/// Reading undoes writing: the record of a digest of a hash function that
/// this crate knows is read again, whatever follows it, and reading stops
/// where the record ends.
pub proof fn law_record_round_trip(code: u128, digest: Seq<u8>, rest: Seq<u8>)
    requires
        supported(code),
        digest.len() <= usize::MAX,
    ensures
        parse_record(record(code, digest) + rest) == Ok::<(u128, Seq<u8>, nat), ErrorKind>(
            (code, digest, record(code, digest).len()),
        ),
        rewrite(record(code, digest) + rest) == Ok::<Seq<u8>, ErrorKind>(record(code, digest)),
{
    let head = varint(code as nat);
    let len = varint(digest.len());
    let b = record(code, digest) + rest;
    assert(b =~= head + (len + digest + rest));
    crate::varint::lemma_read_u128_varint(code, len + digest + rest);
    assert(b.skip(head.len() as int) =~= len + (digest + rest));
    crate::varint::lemma_read_usize_varint(digest.len() as usize, digest + rest);
    let at = (head.len() + len.len()) as int;
    assert(b.subrange(at, at + digest.len()) =~= digest);
}

/// The record at the front of `b`, written out afresh.
pub open spec fn rewrite(b: Seq<u8>) -> Result<Seq<u8>, ErrorKind> {
    match parse_record(b) {
        Ok((code, digest, _)) => Ok(record(code, digest)),
        Err(k) => Err(k),
    }
}

/// A hash function at work: the bytes it has been fed since it last
/// produced a digest, and the digest once there is one.
#[derive(Clone, Debug, PartialEq, Eq)]
pub struct Hasher {
    algo: Algo,
    input: Vec<u8>,
    digest: Option<Vec<u8>>,
}

/// A `Hasher` as contracts see it.
pub struct HasherView {
    pub algo: Algo,
    pub input: Seq<u8>,
    pub digest: Option<Seq<u8>>,
}

impl View for Hasher {
    type V = HasherView;

    closed spec fn view(&self) -> HasherView {
        HasherView {
            algo: self.algo,
            input: self.input@,
            digest: match self.digest {
                Some(d) => Some(d@),
                None => None,
            },
        }
    }
}

impl Hasher {
    /// A hasher for the function with the given number, with nothing fed to
    /// it yet. `None` where the number names no function this crate knows.
    pub fn from_code(code: u128) -> (r: Option<Hasher>)
        ensures
            match Algo::spec_from_code(code) {
                Some(a) => r matches Some(h) && h@ == (HasherView {
                    algo: a,
                    input: Seq::empty(),
                    digest: None,
                }),
                None => r is None,
            },
    {
        match Algo::from_code(code) {
            Some(algo) => Some(Hasher { algo, input: Vec::new(), digest: None }),
            None => None,
        }
    }

    /// A hasher that holds a digest made elsewhere. `None` where the number
    /// names no function this crate knows.
    pub fn decode(code: u128, digest: &[u8]) -> (r: Option<Hasher>)
        ensures
            match Algo::spec_from_code(code) {
                Some(a) => r matches Some(h) && h@ == (HasherView {
                    algo: a,
                    input: Seq::empty(),
                    digest: Some(digest@),
                }),
                None => r is None,
            },
    {
        match Algo::from_code(code) {
            Some(algo) => Some(
                Hasher { algo, input: Vec::new(), digest: Some(slice_to_vec(digest)) },
            ),
            None => None,
        }
    }

    /// Feeds `bytes` to the function. `Invalid`, and no change, once there is
    /// a digest.
    pub fn write(&mut self, bytes: &[u8]) -> (r: Result<(), Error>)
        ensures
            match old(self)@.digest {
                None => r is Ok && final(self)@ == (HasherView {
                    input: old(self)@.input + bytes@,
                    ..old(self)@
                }),
                Some(_) => fails_with(r, ErrorKind::Invalid) && final(self)@ == old(self)@,
            },
    {
        match &self.digest {
            None => {
                crate::text::append(&mut self.input, bytes);
                Ok(())
            },
            Some(_) => Err(Error::new(ErrorKind::Invalid, "multihash", "finalized")),
        }
    }

    /// Makes the digest of what was fed, and forgets what was fed. `Invalid`,
    /// and no change, where there is a digest already; `NotImplemented`, and
    /// no change, where the function has no digest of a length of its own.
    pub fn finish(&mut self) -> (r: Result<(), Error>)
        ensures
            match old(self)@.digest {
                None => match spec_digest_of(old(self)@.algo, old(self)@.input) {
                    Some(d) => r is Ok && final(self)@ == (HasherView {
                        input: Seq::empty(),
                        digest: Some(d),
                        ..old(self)@
                    }),
                    None => fails_with(r, ErrorKind::NotImplemented) && final(self)@ == old(
                        self,
                    )@,
                },
                Some(_) => fails_with(r, ErrorKind::Invalid) && final(self)@ == old(self)@,
            },
    {
        match &self.digest {
            None => match digest_of(self.algo, self.input.as_slice()) {
                Some(d) => {
                    self.digest = Some(d);
                    self.input = Vec::new();
                    Ok(())
                },
                None => Err(
                    Error::new(ErrorKind::NotImplemented, "multihash", "no digest of this kind"),
                ),
            },
            Some(_) => Err(Error::new(ErrorKind::Invalid, "multihash", "double finalize")),
        }
    }

    /// Drops the digest, so that the hasher can be fed again.
    pub fn reset(&mut self) -> (r: Result<(), Error>)
        ensures
            r is Ok,
            final(self)@ == (HasherView { digest: None, ..old(self)@ }),
    {
        self.digest = None;
        Ok(())
    }

    /// The digest. `Invalid` where there is none yet.
    pub fn as_digest(&self) -> (r: Result<&[u8], Error>)
        ensures
            match self@.digest {
                Some(d) => r matches Ok(s) && s@ == d,
                None => fails_with(r, ErrorKind::Invalid),
            },
    {
        match &self.digest {
            Some(d) => Ok(d.as_slice()),
            None => Err(Error::new(ErrorKind::Invalid, "multihash", "no digest")),
        }
    }
}

/// A digest and the number of the function that made it, or the bytes of a
/// record that nobody has looked into yet.
#[derive(Clone, Debug, PartialEq, Eq)]
pub struct Multihash {
    inner: Inner,
}

#[derive(Clone, Debug, PartialEq, Eq)]
enum Inner {
    Binary(Vec<u8>),
    Hashed(Multicodec, Hasher),
}

/// A `Multihash` as contracts see it.
pub enum MultihashView {
    /// The bytes of a record, unread.
    Binary(Seq<u8>),
    /// The number of a hash function and the hasher for it.
    Hashed(u128, HasherView),
}

impl View for Multihash {
    type V = MultihashView;

    closed spec fn view(&self) -> MultihashView {
        match self.inner {
            Inner::Binary(data) => MultihashView::Binary(data@),
            Inner::Hashed(codec, hasher) => MultihashView::Hashed(codec@, hasher@),
        }
    }
}

/// A finished value: the function's number and its digest, nothing pending.
pub open spec fn finished(code: u128, digest: Seq<u8>) -> MultihashView {
    match Algo::spec_from_code(code) {
        Some(a) => MultihashView::Hashed(
            code,
            HasherView { algo: a, input: Seq::empty(), digest: Some(digest) },
        ),
        None => arbitrary(),
    }
}

/// The function's number and the digest that a value stands for. A value
/// still in bytes stands for what its bytes parse to; a hasher without a
/// digest stands for nothing and is `Invalid`.
pub open spec fn parts(v: MultihashView) -> Result<(u128, Seq<u8>), ErrorKind> {
    match v {
        MultihashView::Binary(data) => match parse_record(data) {
            Ok((code, digest, _)) => Ok((code, digest)),
            Err(k) => Err(k),
        },
        MultihashView::Hashed(code, h) => match h.digest {
            Some(d) => Ok((code, d)),
            None => Err(ErrorKind::Invalid),
        },
    }
}

/// What a value that stands for no digest is printed as.
pub open spec fn unprintable() -> Seq<char> {
    "xxx-xxx-xxx..."@
}

/// What a value is printed as: the name of the hash function, the length
/// of the digest in bits, and the digest in hexadecimal, with a dash
/// between each two.
pub open spec fn pretty(v: MultihashView) -> Seq<char> {
    match parts(v) {
        Ok((code, d)) => if d.len() <= encode_limit() {
            label_of(code) + "-"@ + as_chars(decimal(d.len() * 8)) + "-"@ + multibase_text(
                'f',
                d,
            ).skip(1)
        } else {
            unprintable()
        },
        Err(_) => unprintable(),
    }
}

impl Multihash {
    /// The value as a reader sees it.
    pub fn to_string(&self) -> (s: String)
        ensures
            s@ == pretty(self@),
    {
        let codec = match self.to_codec() {
            Ok(c) => c,
            Err(_) => {
                return String::from_str("xxx-xxx-xxx...");
            },
        };
        let digest = match self.to_digest() {
            Ok(d) => d,
            Err(_) => {
                proof {
                    self.lemma_codec_digest();
                }
                return String::from_str("xxx-xxx-xxx...");
            },
        };
        proof {
            self.lemma_codec_digest();
        }
        let hex = match encode(Base::Base16Lower, digest.as_slice()) {
            Ok(h) => h,
            Err(_) => {
                return String::from_str("xxx-xxx-xxx...");
            },
        };
        let mut digits: Vec<u8> = Vec::new();
        let bits: u128 = (digest.len() as u128) * 8;
        push_number(&mut digits, bits);
        proof {
            lemma_decimal_ascii(bits as nat);
            lemma_ascii_is_utf8(digits@);
        }
        let number = match string_from_utf8(digits) {
            Some(n) => n,
            None => {
                return String::from_str("xxx-xxx-xxx...");
            },
        };
        let n = hex.as_str().unicode_len();
        let tail = hex.as_str().substring_char(1, n);
        let mut s = codec.to_string();
        s.append("-");
        s.append(number.as_str());
        s.append("-");
        s.append(tail);
        s
    }

    /// `to_codec` and `to_digest` fail together, and in the same way.
    proof fn lemma_codec_digest(&self)
        ensures
            match self@ {
                MultihashView::Binary(data) => parts(self@) is Err <==> parse_record(data) is Err,
                MultihashView::Hashed(_, h) => parts(self@) is Err <==> h.digest is None,
            },
    {
    }

    /// The digest of `data` under the hash function that `codec` names.
    /// `NotImplemented` where this crate has no such function, or the
    /// function has no digest of a length of its own.
    pub fn new(codec: Multicodec, data: &[u8]) -> (r: Result<Multihash, Error>)
        ensures
            match Algo::spec_from_code(codec@) {
                Some(a) => match spec_digest_of(a, data@) {
                    Some(d) => r matches Ok(mh) && mh@ == finished(codec@, d),
                    None => fails_with(r, ErrorKind::NotImplemented),
                },
                None => fails_with(r, ErrorKind::NotImplemented),
            },
    {
        match Hasher::from_code(codec.to_code()) {
            Some(mut hasher) => {
                let _ = hasher.write(data);
                match hasher.finish() {
                    Ok(()) => Ok(Multihash { inner: Inner::Hashed(codec, hasher) }),
                    Err(e) => Err(e),
                }
            },
            None => Err(Error::new(ErrorKind::NotImplemented, "multihash", "unknown codec")),
        }
    }

    /// The value that holds `digest` as the work of the function `codec`
    /// names. `NotImplemented` where this crate has no such function.
    pub fn from_digest(codec: Multicodec, digest: &[u8]) -> (r: Result<Multihash, Error>)
        ensures
            if supported(codec@) {
                r matches Ok(mh) && mh@ == finished(codec@, digest@)
            } else {
                fails_with(r, ErrorKind::NotImplemented)
            },
    {
        match Hasher::decode(codec.to_code(), digest) {
            Some(hasher) => Ok(Multihash { inner: Inner::Hashed(codec, hasher) }),
            None => Err(Error::new(ErrorKind::NotImplemented, "multihash", "unknown codec")),
        }
    }

    /// Keeps the bytes of a record for later. Never fails; `parse` reads
    /// them.
    pub fn decode_lazy(data: &[u8]) -> (r: Result<Multihash, Error>)
        ensures
            r matches Ok(mh) && mh@ == MultihashView::Binary(data@),
    {
        Ok(Multihash { inner: Inner::Binary(slice_to_vec(data)) })
    }

    /// Reads the bytes that `decode_lazy` kept. A value that is not in bytes
    /// stays as it is; one whose bytes do not parse stays as it is, too, and
    /// the error says why.
    pub fn parse(&mut self) -> (r: Result<(), Error>)
        ensures
            match old(self)@ {
                MultihashView::Binary(data) => match parse_record(data) {
                    Ok((code, digest, _)) => r is Ok && final(self)@ == finished(code, digest),
                    Err(k) => fails_with(r, k) && final(self)@ == old(self)@,
                },
                _ => r is Ok && final(self)@ == old(self)@,
            },
    {
        match &self.inner {
            Inner::Binary(data) => match Multihash::decode(data.as_slice()) {
                Ok((mh, _)) => {
                    *self = mh;
                    Ok(())
                },
                Err(e) => Err(e),
            },
            _ => Ok(()),
        }
    }

    /// Reads one record off the front of `buf` and hands back what follows
    /// it.
    pub fn decode(buf: &[u8]) -> (r: Result<(Multihash, &[u8]), Error>)
        ensures
            match parse_record(buf@) {
                Ok((code, digest, n)) => r matches Ok((mh, rest)) && mh@ == finished(code, digest)
                    && rest@ == buf@.skip(n as int),
                Err(k) => fails_with(r, k),
            },
    {
        let (codec, rem) = match Multicodec::decode(buf) {
            Ok(pair) => pair,
            Err(e) => {
                return Err(e);
            },
        };
        let (n, rem2) = match take_usize(rem) {
            Some(pair) => pair,
            None => {
                return Err(Error::new(ErrorKind::BadInput, "multihash", "no digest length"));
            },
        };
        proof {
            crate::varint::lemma_read_bounds(
                buf@,
                crate::varint::LIMIT_U128 as nat,
                crate::varint::span_u128(),
            );
            if usize::BITS == 64 {
                crate::varint::lemma_read_bounds(
                    rem@,
                    crate::varint::LIMIT_U64 as nat,
                    crate::varint::span_u64(),
                );
            } else {
                crate::varint::lemma_read_bounds(
                    rem@,
                    crate::varint::LIMIT_U32 as nat,
                    crate::varint::span_u32(),
                );
            }
        }
        if n > rem2.len() {
            return Err(Error::new(ErrorKind::BadInput, "multihash", "digest runs past the end"));
        }
        let digest = slice_subrange(rem2, 0, n);
        let rest = slice_subrange(rem2, n, rem2.len());
        proof {
            let a = buf@.len() - rem@.len();
            let b = rem@.len() - rem2@.len();
            assert(digest@ =~= buf@.subrange(a + b, a + b + n));
        }
        match Multihash::from_digest(codec, digest) {
            Ok(mh) => Ok((mh, rest)),
            Err(e) => Err(e),
        }
    }

    /// The record of the value: the bytes it was kept as, or the number, the
    /// length and the digest written out. `Invalid` where a hasher has no
    /// digest yet.
    pub fn encode(&self) -> (r: Result<Vec<u8>, Error>)
        ensures
            match self@ {
                MultihashView::Binary(data) => r matches Ok(out) && out@ == data,
                MultihashView::Hashed(code, h) => match h.digest {
                    Some(d) => r matches Ok(out) && out@ == record(code, d),
                    None => fails_with(r, ErrorKind::Invalid),
                },
            },
    {
        match &self.inner {
            Inner::Binary(data) => Ok(slice_to_vec(data.as_slice())),
            Inner::Hashed(codec, hasher) => {
                let digest = match hasher.as_digest() {
                    Ok(d) => d,
                    Err(e) => {
                        return Err(e);
                    },
                };
                let mut out = write_u128(codec.to_code());
                let len = write_usize(digest.len());
                crate::text::append(&mut out, len.as_slice());
                crate::text::append(&mut out, digest);
                Ok(out)
            },
        }
    }

    /// Feeds `data` to the hasher. `Invalid` for a value in bytes and for a
    /// hasher that has its digest.
    pub fn write(&mut self, data: &[u8]) -> (r: Result<(), Error>)
        ensures
            match old(self)@ {
                MultihashView::Hashed(code, h) => match h.digest {
                    None => r is Ok && final(self)@ == MultihashView::Hashed(
                        code,
                        HasherView { input: h.input + data@, ..h },
                    ),
                    Some(_) => fails_with(r, ErrorKind::Invalid) && final(self)@ == old(self)@,
                },
                MultihashView::Binary(_) => fails_with(r, ErrorKind::Invalid) && final(self)@
                    == old(self)@,
            },
    {
        match &mut self.inner {
            Inner::Hashed(_, hasher) => hasher.write(data),
            Inner::Binary(_) => Err(Error::new(ErrorKind::Invalid, "multihash", "in binary form")),
        }
    }

    /// Makes the digest of what was fed. `Invalid` for a value in bytes and
    /// for a hasher that has its digest; `NotImplemented` where the function
    /// yields none.
    pub fn finish(&mut self) -> (r: Result<(), Error>)
        ensures
            match old(self)@ {
                MultihashView::Hashed(code, h) => match h.digest {
                    None => match spec_digest_of(h.algo, h.input) {
                        Some(d) => r is Ok && final(self)@ == MultihashView::Hashed(
                            code,
                            HasherView { input: Seq::empty(), digest: Some(d), ..h },
                        ),
                        None => fails_with(r, ErrorKind::NotImplemented) && final(self)@ == old(
                            self,
                        )@,
                    },
                    Some(_) => fails_with(r, ErrorKind::Invalid) && final(self)@ == old(self)@,
                },
                MultihashView::Binary(_) => fails_with(r, ErrorKind::Invalid) && final(self)@
                    == old(self)@,
            },
    {
        match &mut self.inner {
            Inner::Hashed(_, hasher) => hasher.finish(),
            Inner::Binary(_) => Err(Error::new(ErrorKind::Invalid, "multihash", "in binary form")),
        }
    }

    /// Drops the digest, so that the hasher can be fed again. `Invalid` for a
    /// value in bytes.
    pub fn reset(&mut self) -> (r: Result<(), Error>)
        ensures
            match old(self)@ {
                MultihashView::Hashed(code, h) => r is Ok && final(self)@ == MultihashView::Hashed(
                    code,
                    HasherView { digest: None, ..h },
                ),
                MultihashView::Binary(_) => fails_with(r, ErrorKind::Invalid) && final(self)@
                    == old(self)@,
            },
    {
        match &mut self.inner {
            Inner::Hashed(_, hasher) => hasher.reset(),
            Inner::Binary(_) => Err(Error::new(ErrorKind::Invalid, "multihash", "in binary form")),
        }
    }

    /// The number of the hash function.
    pub fn to_codec(&self) -> (r: Result<Multicodec, Error>)
        ensures
            match self@ {
                MultihashView::Binary(data) => match parse_record(data) {
                    Ok((code, _, _)) => r matches Ok(c) && c@ == code,
                    Err(k) => fails_with(r, k),
                },
                MultihashView::Hashed(code, _) => r matches Ok(c) && c@ == code,
            },
    {
        match &self.inner {
            Inner::Hashed(codec, _) => Ok(*codec),
            Inner::Binary(data) => match Multihash::decode(data.as_slice()) {
                Ok((mh, _)) => match mh.inner {
                    Inner::Hashed(codec, _) => Ok(codec),
                    Inner::Binary(_) => Err(
                        Error::new(ErrorKind::Fatal, "multihash", "decoded to bytes"),
                    ),
                },
                Err(e) => Err(e),
            },
        }
    }

    /// The digest.
    pub fn to_digest(&self) -> (r: Result<Vec<u8>, Error>)
        ensures
            match parts(self@) {
                Ok((_, d)) => r matches Ok(out) && out@ == d,
                Err(k) => fails_with(r, k),
            },
    {
        match &self.inner {
            Inner::Hashed(_, hasher) => match hasher.as_digest() {
                Ok(d) => Ok(slice_to_vec(d)),
                Err(e) => Err(e),
            },
            Inner::Binary(data) => match Multihash::decode(data.as_slice()) {
                Ok((mh, _)) => mh.to_digest_of_parsed(),
                Err(e) => Err(e),
            },
        }
    }

    /// The number of the hash function, and the digest.
    pub fn unwrap(self) -> (r: Result<(Multicodec, Vec<u8>), Error>)
        ensures
            match parts(self@) {
                Ok((code, d)) => r matches Ok((c, out)) && c@ == code && out@ == d,
                Err(k) => fails_with(r, k),
            },
    {
        let codec = match self.to_codec() {
            Ok(c) => c,
            Err(e) => {
                return Err(e);
            },
        };
        match self.to_digest() {
            Ok(d) => Ok((codec, d)),
            Err(e) => Err(e),
        }
    }

    /// `to_digest` on a value that `decode` made.
    fn to_digest_of_parsed(&self) -> (r: Result<Vec<u8>, Error>)
        requires
            self@ is Hashed,
        ensures
            match parts(self@) {
                Ok((_, d)) => r matches Ok(out) && out@ == d,
                Err(k) => fails_with(r, k),
            },
    {
        match &self.inner {
            Inner::Hashed(_, hasher) => match hasher.as_digest() {
                Ok(d) => Ok(slice_to_vec(d)),
                Err(e) => Err(e),
            },
            Inner::Binary(_) => Err(Error::new(ErrorKind::Fatal, "multihash", "decoded to bytes")),
        }
    }
}

} // verus!
