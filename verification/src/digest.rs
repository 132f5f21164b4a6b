//! The hash functions behind the digests: which number names which
//! function, and the digest each function makes of an input.
//!
//! The functions themselves live in other crates (`sha1`, `sha2`, `sha3`,
//! `md4`, `md5`, `ripemd`, `blake2b_simd`, `blake2s_simd`, `blake3`). A digest
//! depends on the input alone, and nothing shorter than the function's own
//! definition would say what it is: each one gets a name here.

use crate::multicodec;
use vstd::prelude::*;
use vstd::slice::*;

verus! {

/// A hash function.
#[derive(Clone, Copy, Debug, PartialEq, Eq, Structural)]
pub enum Algo {
    /// The input itself.
    Identity,
    /// SHA-256 of the SHA-256 of the input.
    DblSha2_256,
    /// SHAKE-128, whose output has no length of its own.
    Shake128,
    /// SHAKE-256, whose output has no length of its own.
    Shake256,
    /// BLAKE2b with a digest of so many bytes, one to sixty-four.
    Blake2b(u8),
    /// BLAKE2s with a digest of so many bytes, one to thirty-two.
    Blake2s(u8),
    /// SHA-1.
    Sha1,
    /// SHA-256.
    Sha2_256,
    /// SHA-512.
    Sha2_512,
    /// SHA3-512.
    Sha3_512,
    /// SHA3-384.
    Sha3_384,
    /// SHA3-256.
    Sha3_256,
    /// SHA3-224.
    Sha3_224,
    /// Keccak-224.
    Keccak224,
    /// Keccak-256.
    Keccak256,
    /// Keccak-384.
    Keccak384,
    /// Keccak-512.
    Keccak512,
    /// BLAKE3.
    Blake3,
    /// MD4.
    Md4,
    /// MD5.
    Md5,
    /// RIPEMD-160.
    Ripemd160,
    /// RIPEMD-320.
    Ripemd320,
}

/// The SHA-1 digest of `data`.
pub uninterp spec fn sha1_digest(data: Seq<u8>) -> Seq<u8>;

/// The SHA-256 digest of `data`.
pub uninterp spec fn sha2_256_digest(data: Seq<u8>) -> Seq<u8>;

/// The SHA-512 digest of `data`.
pub uninterp spec fn sha2_512_digest(data: Seq<u8>) -> Seq<u8>;

/// The SHA3-512 digest of `data`.
pub uninterp spec fn sha3_512_digest(data: Seq<u8>) -> Seq<u8>;

/// The SHA3-384 digest of `data`.
pub uninterp spec fn sha3_384_digest(data: Seq<u8>) -> Seq<u8>;

/// The SHA3-256 digest of `data`.
pub uninterp spec fn sha3_256_digest(data: Seq<u8>) -> Seq<u8>;

/// The SHA3-224 digest of `data`.
pub uninterp spec fn sha3_224_digest(data: Seq<u8>) -> Seq<u8>;

/// The Keccak-224 digest of `data`.
pub uninterp spec fn keccak_224_digest(data: Seq<u8>) -> Seq<u8>;

/// The Keccak-256 digest of `data`.
pub uninterp spec fn keccak_256_digest(data: Seq<u8>) -> Seq<u8>;

/// The Keccak-384 digest of `data`.
pub uninterp spec fn keccak_384_digest(data: Seq<u8>) -> Seq<u8>;

/// The Keccak-512 digest of `data`.
pub uninterp spec fn keccak_512_digest(data: Seq<u8>) -> Seq<u8>;

/// The BLAKE3 digest of `data`.
pub uninterp spec fn blake3_digest(data: Seq<u8>) -> Seq<u8>;

/// The MD4 digest of `data`.
pub uninterp spec fn md4_digest(data: Seq<u8>) -> Seq<u8>;

/// The MD5 digest of `data`.
pub uninterp spec fn md5_digest(data: Seq<u8>) -> Seq<u8>;

/// The RIPEMD-160 digest of `data`.
pub uninterp spec fn ripemd_160_digest(data: Seq<u8>) -> Seq<u8>;

/// The RIPEMD-320 digest of `data`.
pub uninterp spec fn ripemd_320_digest(data: Seq<u8>) -> Seq<u8>;

/// The BLAKE2b digest of `data` at a digest length of `len` bytes.
pub uninterp spec fn blake2b_digest(len: u8, data: Seq<u8>) -> Seq<u8>;

/// The BLAKE2s digest of `data` at a digest length of `len` bytes.
pub uninterp spec fn blake2s_digest(len: u8, data: Seq<u8>) -> Seq<u8>;

/// `digest::Digest::digest` of `sha1::Sha1`: the function fed `data` once and
/// finalised.
#[verifier::external_body]
fn sha1_of(data: &[u8]) -> (out: Vec<u8>)
    ensures
        out@ == sha1_digest(data@),
{
    <sha1::Sha1 as digest::Digest>::digest(data).to_vec()
}

/// `digest::Digest::digest` of `sha2::Sha256`: the function fed `data` once and
/// finalised.
#[verifier::external_body]
fn sha2_256_of(data: &[u8]) -> (out: Vec<u8>)
    ensures
        out@ == sha2_256_digest(data@),
{
    <sha2::Sha256 as digest::Digest>::digest(data).to_vec()
}

/// `digest::Digest::digest` of `sha2::Sha512`: the function fed `data` once and
/// finalised.
#[verifier::external_body]
fn sha2_512_of(data: &[u8]) -> (out: Vec<u8>)
    ensures
        out@ == sha2_512_digest(data@),
{
    <sha2::Sha512 as digest::Digest>::digest(data).to_vec()
}

/// `digest::Digest::digest` of `sha3::Sha3_512`: the function fed `data` once and
/// finalised.
#[verifier::external_body]
fn sha3_512_of(data: &[u8]) -> (out: Vec<u8>)
    ensures
        out@ == sha3_512_digest(data@),
{
    <sha3::Sha3_512 as digest::Digest>::digest(data).to_vec()
}

/// `digest::Digest::digest` of `sha3::Sha3_384`: the function fed `data` once and
/// finalised.
#[verifier::external_body]
fn sha3_384_of(data: &[u8]) -> (out: Vec<u8>)
    ensures
        out@ == sha3_384_digest(data@),
{
    <sha3::Sha3_384 as digest::Digest>::digest(data).to_vec()
}

/// `digest::Digest::digest` of `sha3::Sha3_256`: the function fed `data` once and
/// finalised.
#[verifier::external_body]
fn sha3_256_of(data: &[u8]) -> (out: Vec<u8>)
    ensures
        out@ == sha3_256_digest(data@),
{
    <sha3::Sha3_256 as digest::Digest>::digest(data).to_vec()
}

/// `digest::Digest::digest` of `sha3::Sha3_224`: the function fed `data` once and
/// finalised.
#[verifier::external_body]
fn sha3_224_of(data: &[u8]) -> (out: Vec<u8>)
    ensures
        out@ == sha3_224_digest(data@),
{
    <sha3::Sha3_224 as digest::Digest>::digest(data).to_vec()
}

/// `digest::Digest::digest` of `sha3::Keccak224`: the function fed `data` once and
/// finalised.
#[verifier::external_body]
fn keccak_224_of(data: &[u8]) -> (out: Vec<u8>)
    ensures
        out@ == keccak_224_digest(data@),
{
    <sha3::Keccak224 as digest::Digest>::digest(data).to_vec()
}

/// `digest::Digest::digest` of `sha3::Keccak256`: the function fed `data` once and
/// finalised.
#[verifier::external_body]
fn keccak_256_of(data: &[u8]) -> (out: Vec<u8>)
    ensures
        out@ == keccak_256_digest(data@),
{
    <sha3::Keccak256 as digest::Digest>::digest(data).to_vec()
}

/// `digest::Digest::digest` of `sha3::Keccak384`: the function fed `data` once and
/// finalised.
#[verifier::external_body]
fn keccak_384_of(data: &[u8]) -> (out: Vec<u8>)
    ensures
        out@ == keccak_384_digest(data@),
{
    <sha3::Keccak384 as digest::Digest>::digest(data).to_vec()
}

/// `digest::Digest::digest` of `sha3::Keccak512`: the function fed `data` once and
/// finalised.
#[verifier::external_body]
fn keccak_512_of(data: &[u8]) -> (out: Vec<u8>)
    ensures
        out@ == keccak_512_digest(data@),
{
    <sha3::Keccak512 as digest::Digest>::digest(data).to_vec()
}

/// `blake3::hash`, the bytes of the hash copied out.
#[verifier::external_body]
fn blake3_of(data: &[u8]) -> (out: Vec<u8>)
    ensures
        out@ == blake3_digest(data@),
{
    blake3::hash(data).as_bytes().to_vec()
}

/// `digest::Digest::digest` of `md4::Md4`: the function fed `data` once and
/// finalised.
#[verifier::external_body]
fn md4_of(data: &[u8]) -> (out: Vec<u8>)
    ensures
        out@ == md4_digest(data@),
{
    <md4::Md4 as digest::Digest>::digest(data).to_vec()
}

/// `md5::compute`, the bytes of the digest copied out.
#[verifier::external_body]
fn md5_of(data: &[u8]) -> (out: Vec<u8>)
    ensures
        out@ == md5_digest(data@),
{
    md5::compute(data).0.to_vec()
}

/// `digest::Digest::digest` of `ripemd::Ripemd160`: the function fed `data` once and
/// finalised.
#[verifier::external_body]
fn ripemd_160_of(data: &[u8]) -> (out: Vec<u8>)
    ensures
        out@ == ripemd_160_digest(data@),
{
    <ripemd::Ripemd160 as digest::Digest>::digest(data).to_vec()
}

/// `digest::Digest::digest` of `ripemd::Ripemd320`: the function fed `data` once and
/// finalised.
#[verifier::external_body]
fn ripemd_320_of(data: &[u8]) -> (out: Vec<u8>)
    ensures
        out@ == ripemd_320_digest(data@),
{
    <ripemd::Ripemd320 as digest::Digest>::digest(data).to_vec()
}

/// `blake2b_simd::Params::hash` with `hash_length` set to `len`, the bytes
/// of the hash copied out. The crate asserts that the length is between one
/// and sixty-four.
#[verifier::external_body]
fn blake2b_of(len: u8, data: &[u8]) -> (out: Vec<u8>)
    requires
        1 <= len <= 64,
    ensures
        out@ == blake2b_digest(len, data@),
{
    blake2b_simd::Params::new().hash_length(usize::from(len)).hash(data).as_bytes().to_vec()
}

/// `blake2s_simd::Params::hash` with `hash_length` set to `len`, the bytes
/// of the hash copied out. The crate asserts that the length is between one
/// and thirty-two.
#[verifier::external_body]
fn blake2s_of(len: u8, data: &[u8]) -> (out: Vec<u8>)
    requires
        1 <= len <= 32,
    ensures
        out@ == blake2s_digest(len, data@),
{
    blake2s_simd::Params::new().hash_length(usize::from(len)).hash(data).as_bytes().to_vec()
}

impl Algo {
    /// The function that a code point names, if this crate has it. The
    /// BLAKE2 code points count their digest in steps of eight bits upward
    /// from the first of their run.
    pub open spec fn spec_from_code(code: u128) -> Option<Algo> {
        if code == multicodec::IDENTITY {
            Some(Algo::Identity)
        } else if code == multicodec::DBL_SHA2_256 {
            Some(Algo::DblSha2_256)
        } else if code == multicodec::SHAKE_128 {
            Some(Algo::Shake128)
        } else if code == multicodec::SHAKE_256 {
            Some(Algo::Shake256)
        } else if multicodec::BLAKE2B_8 <= code <= multicodec::BLAKE2B_512 {
            Some(Algo::Blake2b((code - multicodec::BLAKE2B_8 + 1) as u8))
        } else if multicodec::BLAKE2S_8 <= code <= multicodec::BLAKE2S_256 {
            Some(Algo::Blake2s((code - multicodec::BLAKE2S_8 + 1) as u8))
        } else if code == multicodec::SHA1 {
            Some(Algo::Sha1)
        } else if code == multicodec::SHA2_256 {
            Some(Algo::Sha2_256)
        } else if code == multicodec::SHA2_512 {
            Some(Algo::Sha2_512)
        } else if code == multicodec::SHA3_512 {
            Some(Algo::Sha3_512)
        } else if code == multicodec::SHA3_384 {
            Some(Algo::Sha3_384)
        } else if code == multicodec::SHA3_256 {
            Some(Algo::Sha3_256)
        } else if code == multicodec::SHA3_224 {
            Some(Algo::Sha3_224)
        } else if code == multicodec::KECCAK_224 {
            Some(Algo::Keccak224)
        } else if code == multicodec::KECCAK_256 {
            Some(Algo::Keccak256)
        } else if code == multicodec::KECCAK_384 {
            Some(Algo::Keccak384)
        } else if code == multicodec::KECCAK_512 {
            Some(Algo::Keccak512)
        } else if code == multicodec::BLAKE3 {
            Some(Algo::Blake3)
        } else if code == multicodec::MD4 {
            Some(Algo::Md4)
        } else if code == multicodec::MD5 {
            Some(Algo::Md5)
        } else if code == multicodec::RIPEMD_160 {
            Some(Algo::Ripemd160)
        } else if code == multicodec::RIPEMD_320 {
            Some(Algo::Ripemd320)
        } else {
            None
        }
    }

    /// The function that a code point names, if this crate has it.
    pub fn from_code(code: u128) -> (r: Option<Algo>)
        ensures
            r == Algo::spec_from_code(code),
    {
        if code == multicodec::IDENTITY {
            Some(Algo::Identity)
        } else if code == multicodec::DBL_SHA2_256 {
            Some(Algo::DblSha2_256)
        } else if code == multicodec::SHAKE_128 {
            Some(Algo::Shake128)
        } else if code == multicodec::SHAKE_256 {
            Some(Algo::Shake256)
        } else if multicodec::BLAKE2B_8 <= code && code <= multicodec::BLAKE2B_512 {
            Some(Algo::Blake2b((code - multicodec::BLAKE2B_8 + 1) as u8))
        } else if multicodec::BLAKE2S_8 <= code && code <= multicodec::BLAKE2S_256 {
            Some(Algo::Blake2s((code - multicodec::BLAKE2S_8 + 1) as u8))
        } else if code == multicodec::SHA1 {
            Some(Algo::Sha1)
        } else if code == multicodec::SHA2_256 {
            Some(Algo::Sha2_256)
        } else if code == multicodec::SHA2_512 {
            Some(Algo::Sha2_512)
        } else if code == multicodec::SHA3_512 {
            Some(Algo::Sha3_512)
        } else if code == multicodec::SHA3_384 {
            Some(Algo::Sha3_384)
        } else if code == multicodec::SHA3_256 {
            Some(Algo::Sha3_256)
        } else if code == multicodec::SHA3_224 {
            Some(Algo::Sha3_224)
        } else if code == multicodec::KECCAK_224 {
            Some(Algo::Keccak224)
        } else if code == multicodec::KECCAK_256 {
            Some(Algo::Keccak256)
        } else if code == multicodec::KECCAK_384 {
            Some(Algo::Keccak384)
        } else if code == multicodec::KECCAK_512 {
            Some(Algo::Keccak512)
        } else if code == multicodec::BLAKE3 {
            Some(Algo::Blake3)
        } else if code == multicodec::MD4 {
            Some(Algo::Md4)
        } else if code == multicodec::MD5 {
            Some(Algo::Md5)
        } else if code == multicodec::RIPEMD_160 {
            Some(Algo::Ripemd160)
        } else if code == multicodec::RIPEMD_320 {
            Some(Algo::Ripemd320)
        } else {
            None
        }
    }
}

/// The digest that a function makes of `data`. The two SHAKE functions make
/// none, for want of a length, and neither does a BLAKE2 function asked for
/// a length it does not have.
pub open spec fn spec_digest_of(algo: Algo, data: Seq<u8>) -> Option<Seq<u8>> {
    match algo {
        Algo::Identity => Some(data),
        Algo::DblSha2_256 => Some(sha2_256_digest(sha2_256_digest(data))),
        Algo::Shake128 => None,
        Algo::Shake256 => None,
        Algo::Blake2b(len) => if 1 <= len <= 64 {
            Some(blake2b_digest(len, data))
        } else {
            None
        },
        Algo::Blake2s(len) => if 1 <= len <= 32 {
            Some(blake2s_digest(len, data))
        } else {
            None
        },
        Algo::Sha1 => Some(sha1_digest(data)),
        Algo::Sha2_256 => Some(sha2_256_digest(data)),
        Algo::Sha2_512 => Some(sha2_512_digest(data)),
        Algo::Sha3_512 => Some(sha3_512_digest(data)),
        Algo::Sha3_384 => Some(sha3_384_digest(data)),
        Algo::Sha3_256 => Some(sha3_256_digest(data)),
        Algo::Sha3_224 => Some(sha3_224_digest(data)),
        Algo::Keccak224 => Some(keccak_224_digest(data)),
        Algo::Keccak256 => Some(keccak_256_digest(data)),
        Algo::Keccak384 => Some(keccak_384_digest(data)),
        Algo::Keccak512 => Some(keccak_512_digest(data)),
        Algo::Blake3 => Some(blake3_digest(data)),
        Algo::Md4 => Some(md4_digest(data)),
        Algo::Md5 => Some(md5_digest(data)),
        Algo::Ripemd160 => Some(ripemd_160_digest(data)),
        Algo::Ripemd320 => Some(ripemd_320_digest(data)),
    }
}

/// The digest that a function makes of `data`.
pub fn digest_of(algo: Algo, data: &[u8]) -> (r: Option<Vec<u8>>)
    ensures
        match spec_digest_of(algo, data@) {
            Some(d) => r matches Some(out) && out@ == d,
            None => r is None,
        },
{
    match algo {
        Algo::Identity => Some(slice_to_vec(data)),
        Algo::DblSha2_256 => {
            let once = sha2_256_of(data);
            Some(sha2_256_of(once.as_slice()))
        },
        Algo::Shake128 => None,
        Algo::Shake256 => None,
        Algo::Blake2b(len) => if 1 <= len && len <= 64 {
            Some(blake2b_of(len, data))
        } else {
            None
        },
        Algo::Blake2s(len) => if 1 <= len && len <= 32 {
            Some(blake2s_of(len, data))
        } else {
            None
        },
        Algo::Sha1 => Some(sha1_of(data)),
        Algo::Sha2_256 => Some(sha2_256_of(data)),
        Algo::Sha2_512 => Some(sha2_512_of(data)),
        Algo::Sha3_512 => Some(sha3_512_of(data)),
        Algo::Sha3_384 => Some(sha3_384_of(data)),
        Algo::Sha3_256 => Some(sha3_256_of(data)),
        Algo::Sha3_224 => Some(sha3_224_of(data)),
        Algo::Keccak224 => Some(keccak_224_of(data)),
        Algo::Keccak256 => Some(keccak_256_of(data)),
        Algo::Keccak384 => Some(keccak_384_of(data)),
        Algo::Keccak512 => Some(keccak_512_of(data)),
        Algo::Blake3 => Some(blake3_of(data)),
        Algo::Md4 => Some(md4_of(data)),
        Algo::Md5 => Some(md5_of(data)),
        Algo::Ripemd160 => Some(ripemd_160_of(data)),
        Algo::Ripemd320 => Some(ripemd_320_of(data)),
    }
}

} // verus!
