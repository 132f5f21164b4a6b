//! Unsigned variable-length integers: seven bits of payload per byte, least
//! significant group first, the high bit set on every byte but the last.
//!
//! The bytes themselves are produced and consumed by the `unsigned-varint`
//! crate. This module states what that crate does as spec functions and
//! proves, from those statements, that reading undoes writing.

use vstd::prelude::*;

verus! {

/// One past the largest 32-bit value.
pub open spec fn span_u32() -> nat {
    0x1_0000_0000
}

/// One past the largest 64-bit value.
pub open spec fn span_u64() -> nat {
    0x1_0000_0000_0000_0000
}

/// One past the largest 128-bit value.
pub open spec fn span_u128() -> nat {
    (u128::MAX + 1) as nat
}

/// The most bytes a 32-bit reader looks at.
pub const LIMIT_U32: usize = 5;

/// The most bytes a 64-bit reader looks at.
pub const LIMIT_U64: usize = 10;

/// The most bytes a 128-bit reader looks at.
pub const LIMIT_U128: usize = 19;

/// The encoding of `n`.
pub open spec fn varint(n: nat) -> Seq<u8>
    decreases n,
{
    if n < 128 {
        seq![n as u8]
    } else {
        seq![(n % 128 + 128) as u8] + varint(n / 128)
    }
}

/// Position of the first byte at or after `from` whose high bit is clear.
pub open spec fn last_byte_at(b: Seq<u8>, from: nat) -> Option<nat>
    decreases b.len() - from,
{
    if from >= b.len() {
        None
    } else if b[from as int] < 128 {
        Some(from)
    } else {
        last_byte_at(b, from + 1)
    }
}

/// The number spelled by the low seven bits of each byte of `b`, the first
/// byte being the least significant group.
pub open spec fn septets(b: Seq<u8>) -> nat
    decreases b.len(),
{
    if b.len() == 0 {
        0
    } else {
        (b[0] % 128) as nat + 128 * septets(b.skip(1))
    }
}

/// Outcome of reading one varint off the front of a buffer.
pub enum Reading {
    /// A value, and the number of bytes it took.
    Value(nat, nat),
    /// The buffer ended before a byte with a clear high bit.
    Insufficient,
    /// No byte with a clear high bit within the reader's limit.
    Overflow,
    /// More than one byte, the last of them zero.
    NotMinimal,
}

/// What a reader that looks at no more than `limit` bytes and keeps a value
/// modulo `span` makes of `b`.
pub open spec fn read(b: Seq<u8>, limit: nat, span: nat) -> Reading {
    match last_byte_at(b, 0) {
        Some(j) => if j >= limit {
            Reading::Overflow
        } else if j > 0 && b[j as int] == 0 {
            Reading::NotMinimal
        } else {
            Reading::Value(septets(b.take(j + 1 as int)) % span, j + 1)
        },
        None => if b.len() >= limit {
            Reading::Overflow
        } else {
            Reading::Insufficient
        },
    }
}

/// `read` for a 128-bit reader.
pub open spec fn read_u128(b: Seq<u8>) -> Reading {
    read(b, LIMIT_U128 as nat, span_u128())
}

/// `read` for a reader as wide as `usize` on the machine at hand.
pub open spec fn read_usize(b: Seq<u8>) -> Reading {
    if usize::BITS == 64 {
        read(b, LIMIT_U64 as nat, span_u64())
    } else {
        read(b, LIMIT_U32 as nat, span_u32())
    }
}

/// `unsigned_varint::encode::u128`, with the bytes copied out of the scratch
/// array. Its loop emits the low seven bits of the number with the high bit
/// set, shifts right by seven, and clears the high bit of the byte after
/// which nothing is left: the contract says exactly that.
#[verifier::external_body]
pub(crate) fn write_u128(n: u128) -> (out: Vec<u8>)
    ensures
        out@ == varint(n as nat),
{
    let mut scratch = unsigned_varint::encode::u128_buffer();
    unsigned_varint::encode::u128(n, &mut scratch).to_vec()
}

/// `unsigned_varint::encode::usize`: as `write_u128`, for a `usize`.
#[verifier::external_body]
pub(crate) fn write_usize(n: usize) -> (out: Vec<u8>)
    ensures
        out@ == varint(n as nat),
{
    let mut scratch = unsigned_varint::encode::usize_buffer();
    unsigned_varint::encode::usize(n, &mut scratch).to_vec()
}

/// `unsigned_varint::decode::u128`. The crate walks the buffer, or-ing each
/// byte's low seven bits into place, until a byte with a clear high bit; it
/// gives up at the nineteenth byte, rejects a multi-byte encoding that ends
/// in zero, and lets bits that do not fit in 128 fall off. Each of its three
/// errors comes back here as `None`.
#[verifier::external_body]
pub(crate) fn take_u128(buf: &[u8]) -> (r: Option<(u128, &[u8])>)
    ensures
        match read_u128(buf@) {
            Reading::Value(v, n) => r matches Some((x, rest)) && x == v && rest@ == buf@.skip(
                n as int,
            ),
            _ => r is None,
        },
{
    unsigned_varint::decode::u128(buf).ok()
}

/// `unsigned_varint::decode::usize`: the crate's 64-bit reader on a 64-bit
/// machine (ten bytes at most), its 32-bit reader on a 32-bit one (five).
#[verifier::external_body]
pub(crate) fn take_usize(buf: &[u8]) -> (r: Option<(usize, &[u8])>)
    ensures
        match read_usize(buf@) {
            Reading::Value(v, n) => r matches Some((x, rest)) && x == v && rest@ == buf@.skip(
                n as int,
            ),
            _ => r is None,
        },
{
    unsigned_varint::decode::usize(buf).ok()
}

/// `n` can be written in `k` groups of seven bits.
pub open spec fn fits(n: nat, k: nat) -> bool
    decreases k,
{
    if k == 0 {
        n == 0
    } else {
        fits(n / 128, (k - 1) as nat)
    }
}

/// An encoding is never empty, every byte but the last has its high bit set,
/// the last has not, and a last byte of zero stands alone.
pub proof fn lemma_varint_shape(n: nat)
    ensures
        varint(n).len() >= 1,
        forall|i: int| 0 <= i < varint(n).len() - 1 ==> #[trigger] varint(n)[i] >= 128,
        varint(n).last() < 128,
        varint(n).len() > 1 ==> varint(n).last() != 0,
    decreases n,
{
    if n >= 128 {
        lemma_varint_shape(n / 128);
    }
}

/// An encoding takes as many bytes as the number has groups of seven bits.
pub proof fn lemma_varint_len(n: nat, k: nat)
    requires
        k >= 1,
        fits(n, k),
    ensures
        varint(n).len() <= k,
    decreases k,
{
    if n >= 128 {
        assert(k >= 2) by {
            if k == 1 {
                assert(fits(n / 128, 0));
            }
        }
        lemma_varint_len(n / 128, (k - 1) as nat);
    }
}

/// The groups of an encoding spell the number that was encoded.
pub proof fn lemma_septets_varint(n: nat)
    ensures
        septets(varint(n)) == n,
    decreases n,
{
    let whole = varint(n);
    if n < 128 {
        assert(septets(whole.skip(1)) == 0);
    } else {
        lemma_septets_varint(n / 128);
        assert(whole.skip(1) =~= varint(n / 128));
    }
}

/// The first byte with a clear high bit, given where the set ones end.
proof fn lemma_last_byte_at(b: Seq<u8>, from: nat, j: nat)
    requires
        from <= j < b.len(),
        forall|i: int| from <= i < j ==> #[trigger] b[i] >= 128,
        b[j as int] < 128,
    ensures
        last_byte_at(b, from) == Some(j),
    decreases j - from,
{
    if from < j {
        lemma_last_byte_at(b, from + 1, j);
    }
}

/// Every 128-bit number has at most nineteen groups of seven bits.
pub proof fn lemma_u128_fits(n: nat)
    requires
        n < span_u128(),
    ensures
        fits(n, LIMIT_U128 as nat),
{
    reveal_with_fuel(fits, 20);
}

/// Every 64-bit number has at most ten groups of seven bits.
pub proof fn lemma_u64_fits(n: nat)
    requires
        n < span_u64(),
    ensures
        fits(n, LIMIT_U64 as nat),
{
    reveal_with_fuel(fits, 11);
}

/// Every 32-bit number has at most five groups of seven bits.
pub proof fn lemma_u32_fits(n: nat)
    requires
        n < span_u32(),
    ensures
        fits(n, LIMIT_U32 as nat),
{
    reveal_with_fuel(fits, 6);
}

/// Reading undoes writing, whatever bytes follow: a reader whose limit and
/// span cover `n` gets `n` back and stops right behind its encoding.
pub proof fn lemma_read_varint(n: nat, rest: Seq<u8>, limit: nat, span: nat)
    requires
        limit >= 1,
        fits(n, limit),
        n < span,
    ensures
        read(varint(n) + rest, limit, span) == Reading::Value(n, varint(n).len()),
{
    let enc = varint(n);
    let b = enc + rest;
    lemma_varint_shape(n);
    lemma_varint_len(n, limit);
    lemma_septets_varint(n);
    let j = (enc.len() - 1) as nat;
    lemma_last_byte_at(b, 0, j);
    assert(b.take(j + 1 as int) =~= enc);
    assert(n % span == n) by (nonlinear_arith)
        requires
            n < span,
    ;
}

/// Reading undoes writing for the 128-bit reader.
pub proof fn lemma_read_u128_varint(n: u128, rest: Seq<u8>)
    ensures
        read_u128(varint(n as nat) + rest) == Reading::Value(n as nat, varint(n as nat).len()),
        varint(n as nat).len() <= LIMIT_U128,
{
    lemma_u128_fits(n as nat);
    lemma_varint_len(n as nat, LIMIT_U128 as nat);
    lemma_read_varint(n as nat, rest, LIMIT_U128 as nat, span_u128());
}

/// Reading undoes writing for the `usize` reader.
pub proof fn lemma_read_usize_varint(n: usize, rest: Seq<u8>)
    ensures
        read_usize(varint(n as nat) + rest) == Reading::Value(n as nat, varint(n as nat).len()),
{
    if usize::BITS == 64 {
        lemma_u64_fits(n as nat);
        lemma_read_varint(n as nat, rest, LIMIT_U64 as nat, span_u64());
    } else {
        lemma_u32_fits(n as nat);
        lemma_read_varint(n as nat, rest, LIMIT_U32 as nat, span_u32());
    }
}

/// A reading that yields a value consumed at least one byte and no more than
/// the buffer holds.
pub proof fn lemma_read_bounds(b: Seq<u8>, limit: nat, span: nat)
    ensures
        read(b, limit, span) matches Reading::Value(v, n) ==> 1 <= n <= b.len() && n <= limit && (
        span > 0 ==> v < span),
{
    lemma_last_byte_in_range(b, 0);
    if let Reading::Value(v, n) = read(b, limit, span) {
        if span > 0 {
            let s = septets(b.take(n as int));
            assert(s % span < span) by (nonlinear_arith)
                requires
                    span > 0,
            ;
        }
    }
}

proof fn lemma_last_byte_in_range(b: Seq<u8>, from: nat)
    ensures
        last_byte_at(b, from) matches Some(j) ==> from <= j < b.len(),
    decreases b.len() - from,
{
    if from < b.len() && b[from as int] >= 128 {
        lemma_last_byte_in_range(b, from + 1);
    }
}

} // verus!
