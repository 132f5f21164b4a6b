//! Text as bytes: finding and splitting on a separator, decimal numbers,
//! upper case, and the passage between byte buffers and `String`.
//!
//! Every grammar of this crate is ASCII-delimited, so it is stated and
//! parsed on the UTF-8 bytes of the text.

use vstd::prelude::*;
use vstd::slice::*;
use vstd::utf8::*;

verus! {

/// Position of the first `sep` at or after `from`.
pub open spec fn position(s: Seq<u8>, sep: u8, from: nat) -> Option<nat>
    decreases s.len() - from,
{
    if from >= s.len() {
        None
    } else if s[from as int] == sep {
        Some(from)
    } else {
        position(s, sep, from + 1)
    }
}

/// The pieces of `s` between occurrences of `sep`: one more piece than there
/// are separators, so never none.
pub open spec fn split(s: Seq<u8>, sep: u8) -> Seq<Seq<u8>>
    decreases s.len(),
{
    match position(s, sep, 0) {
        Some(j) => if j < s.len() {
            seq![s.take(j as int)] + split(s.skip(j + 1 as int), sep)
        } else {
            seq![s]
        },
        None => seq![s],
    }
}

/// Each piece with `sep` in front, one after the other.
pub open spec fn separated(pieces: Seq<Seq<u8>>, sep: u8) -> Seq<u8>
    decreases pieces.len(),
{
    if pieces.len() == 0 {
        Seq::empty()
    } else {
        seq![sep] + pieces[0] + separated(pieces.skip(1), sep)
    }
}

/// Each piece with a `/` in front, one after the other.
pub open spec fn slashed(pieces: Seq<Seq<u8>>) -> Seq<u8> {
    separated(pieces, 0x2f)
}

/// Pieces one after the other are separated one after the other.
pub proof fn lemma_separated_concat(a: Seq<Seq<u8>>, b: Seq<Seq<u8>>, sep: u8)
    ensures
        separated(a + b, sep) == separated(a, sep) + separated(b, sep),
    decreases a.len(),
{
    if a.len() > 0 {
        lemma_separated_concat(a.skip(1), b, sep);
        assert((a + b).skip(1) =~= a.skip(1) + b);
    }
}

/// One piece, separated.
pub proof fn lemma_separated_one(piece: Seq<u8>, sep: u8)
    ensures
        separated(seq![piece], sep) == seq![sep] + piece,
{
    let one = seq![piece];
    assert(separated(one.skip(1), sep) =~= Seq::<u8>::empty());
}

/// Splitting loses nothing: the first piece, and every other piece behind
/// a separator, make up what was split.
pub proof fn lemma_split_join(s: Seq<u8>, sep: u8)
    ensures
        split(s, sep).len() >= 1,
        s == split(s, sep)[0] + separated(split(s, sep).skip(1), sep),
    decreases s.len(),
{
    lemma_position(s, sep, 0);
    match position(s, sep, 0) {
        Some(j) => {
            let rest = s.skip(j + 1 as int);
            lemma_split_join(rest, sep);
            let pieces = split(s, sep);
            let tail = split(rest, sep);
            assert(pieces.skip(1) =~= tail);
            assert(s =~= s.take(j as int) + (seq![sep] + rest));
        },
        None => {},
    }
}

/// No byte of `s` is `sep`.
pub open spec fn free_of(s: Seq<u8>, sep: u8) -> bool {
    forall|i: int| 0 <= i < s.len() ==> s[i] != sep
}

/// Joining loses nothing either: pieces that hold no separator are the
/// pieces that their joining splits into.
pub proof fn lemma_split_of_separated(first: Seq<u8>, rest: Seq<Seq<u8>>, sep: u8)
    requires
        free_of(first, sep),
        forall|k: int| 0 <= k < rest.len() ==> free_of(#[trigger] rest[k], sep),
    ensures
        split(first + separated(rest, sep), sep) == seq![first] + rest,
    decreases rest.len(),
{
    let s = first + separated(rest, sep);
    if rest.len() == 0 {
        lemma_position_none(s, sep, 0);
    } else {
        let next = rest[0];
        let more = rest.skip(1);
        let behind = next + separated(more, sep);
        let j = first.len();
        lemma_position_is(s, sep, 0, j);
        assert(s.take(j as int) =~= first);
        assert(s.skip(j + 1 as int) =~= behind);
        lemma_split_of_separated(next, more, sep);
    }
}

/// Writes each of `parts` with a slash in front at the end of `out`.
pub fn push_slashed(out: &mut Vec<u8>, parts: &[&[u8]])
    ensures
        final(out)@ == old(out)@ + slashed(views(parts@)),
{
    let ghost before = out@;
    let ghost all = views(parts@);
    let mut i: usize = 0;
    while i < parts.len()
        invariant
            i <= parts@.len(),
            all == views(parts@),
            out@ == before + slashed(all.take(i as int)),
        decreases parts@.len() - i,
    {
        let piece = parts[i];
        proof {
            assert(all.take(i + 1) =~= all.take(i as int) + seq![piece@]);
            lemma_separated_concat(all.take(i as int), seq![piece@], 0x2f);
            lemma_separated_one(piece@, 0x2f);
        }
        out.push(0x2f);
        append(out, piece);
        i = i + 1;
    }
    assert(all.take(parts@.len() as int) =~= all);
}

/// What `position` finds, said without recursion.
pub proof fn lemma_position(s: Seq<u8>, sep: u8, from: nat)
    ensures
        match position(s, sep, from) {
            Some(j) => from <= j < s.len() && s[j as int] == sep && forall|i: int|
                from <= i < j ==> s[i] != sep,
            None => forall|i: int| from <= i < s.len() ==> s[i] != sep,
        },
    decreases s.len() - from,
{
    if from < s.len() && s[from as int] != sep {
        lemma_position(s, sep, from + 1);
    }
}

/// The first separator is where no earlier byte is one.
pub proof fn lemma_position_is(s: Seq<u8>, sep: u8, from: nat, j: nat)
    requires
        from <= j < s.len(),
        s[j as int] == sep,
        forall|i: int| from <= i < j ==> s[i] != sep,
    ensures
        position(s, sep, from) == Some(j),
    decreases j - from,
{
    if from < j {
        lemma_position_is(s, sep, from + 1, j);
    }
}

/// No separator, no position.
pub proof fn lemma_position_none(s: Seq<u8>, sep: u8, from: nat)
    requires
        forall|i: int| from <= i < s.len() ==> s[i] != sep,
    ensures
        position(s, sep, from) is None,
    decreases s.len() - from,
{
    if from < s.len() {
        lemma_position_none(s, sep, from + 1);
    }
}

/// The views of the slices of a sequence of slices.
pub open spec fn views(parts: Seq<&[u8]>) -> Seq<Seq<u8>> {
    parts.map_values(|p: &[u8]| p@)
}

/// Cuts `s` at every `sep`.
pub fn split_bytes<'a>(s: &'a [u8], sep: u8) -> (parts: Vec<&'a [u8]>)
    ensures
        views(parts@) == split(s@, sep),
        parts@.len() >= 1,
{
    let mut parts: Vec<&'a [u8]> = Vec::new();
    let mut start: usize = 0;
    let mut i: usize = 0;
    assert(s@.skip(0) =~= s@);
    while i < s.len()
        invariant
            start <= i <= s@.len(),
            forall|k: int| start <= k < i ==> s@[k] != sep,
            split(s@, sep) == views(parts@) + split(s@.skip(start as int), sep),
        decreases s@.len() - i,
    {
        if s[i] == sep {
            let piece = slice_subrange(s, start, i);
            let ghost tail = s@.skip(start as int);
            proof {
                lemma_position_is(tail, sep, 0, (i - start) as nat);
                assert(tail.take(i - start) =~= piece@);
                assert(tail.skip(i - start + 1) =~= s@.skip(i + 1));
            }
            parts.push(piece);
            start = i + 1;
        }
        i = i + 1;
    }
    let piece = slice_subrange(s, start, s.len());
    proof {
        let tail = s@.skip(start as int);
        lemma_position_none(tail, sep, 0);
    }
    parts.push(piece);
    parts
}

/// Whether two buffers hold the same bytes.
pub fn same_bytes(a: &[u8], b: &[u8]) -> (r: bool)
    ensures
        r == (a@ == b@),
{
    if a.len() != b.len() {
        return false;
    }
    let mut i: usize = 0;
    while i < a.len()
        invariant
            i <= a@.len(),
            a@.len() == b@.len(),
            forall|k: int| 0 <= k < i ==> a@[k] == b@[k],
        decreases a@.len() - i,
    {
        if a[i] != b[i] {
            return false;
        }
        i = i + 1;
    }
    assert(a@ =~= b@);
    true
}

/// Copies `src` to the end of `out`.
pub fn append(out: &mut Vec<u8>, src: &[u8])
    ensures
        final(out)@ == old(out)@ + src@,
{
    let ghost before = out@;
    let mut i: usize = 0;
    while i < src.len()
        invariant
            i <= src@.len(),
            out@ == before + src@.take(i as int),
        decreases src@.len() - i,
    {
        out.push(src[i]);
        i = i + 1;
    }
}

/// A decimal digit.
pub open spec fn is_digit(b: u8) -> bool {
    0x30 <= b <= 0x39
}

/// Every byte is a decimal digit.
pub open spec fn all_digits(s: Seq<u8>) -> bool {
    forall|i: int| 0 <= i < s.len() ==> is_digit(#[trigger] s[i])
}

/// The number that a string of digits spells, most significant digit first.
pub open spec fn digits_value(s: Seq<u8>) -> nat
    decreases s.len(),
{
    if s.len() == 0 {
        0
    } else {
        digits_value(s.drop_last()) * 10 + (s.last() - 0x30) as nat
    }
}

/// The digits of a number written in text: what stands behind an optional
/// leading `+`.
pub open spec fn unsigned_part(s: Seq<u8>) -> Seq<u8> {
    if s.len() > 0 && s[0] == 0x2b {
        s.skip(1)
    } else {
        s
    }
}

/// The number that `s` spells in decimal, if it spells one no larger than
/// `max`: an optional `+`, then one digit or more, and nothing else.
pub open spec fn parse_decimal(s: Seq<u8>, max: nat) -> Option<nat> {
    let d = unsigned_part(s);
    if d.len() > 0 && all_digits(d) && digits_value(d) <= max {
        Some(digits_value(d))
    } else {
        None
    }
}

/// The shortest decimal spelling of `n`.
pub open spec fn decimal(n: nat) -> Seq<u8>
    decreases n,
{
    if n < 10 {
        seq![(0x30 + n) as u8]
    } else {
        decimal(n / 10).push((0x30 + n % 10) as u8)
    }
}

/// A longer string of digits spells no smaller a number.
pub proof fn lemma_digits_value_grows(s: Seq<u8>, k: nat)
    requires
        k <= s.len(),
        all_digits(s),
    ensures
        digits_value(s.take(k as int)) <= digits_value(s),
    decreases s.len() - k,
{
    if k < s.len() {
        lemma_digits_value_grows(s, k + 1);
        let longer = s.take(k + 1 as int);
        assert(longer.drop_last() =~= s.take(k as int));
    } else {
        assert(s.take(k as int) =~= s);
    }
}

/// A decimal spelling is made of digits, starts with none but a digit, and
/// spells its number.
pub proof fn lemma_decimal(n: nat)
    ensures
        decimal(n).len() >= 1,
        all_digits(decimal(n)),
        digits_value(decimal(n)) == n,
        decimal(n).len() > 1 ==> decimal(n)[0] != 0x30,
    decreases n,
{
    if n < 10 {
        let d = decimal(n);
        assert(digits_value(d.drop_last()) == 0);
    } else {
        lemma_decimal(n / 10);
        let head = decimal(n / 10);
        let d = decimal(n);
        assert(d.drop_last() =~= head);
        if head.len() == 1 {
            assert(digits_value(head.drop_last()) == 0);
        }
    }
}

/// A number below a thousand has three digits at most.
pub proof fn lemma_decimal_short(n: nat)
    requires
        n < 1000,
    ensures
        decimal(n).len() <= 3,
{
    reveal_with_fuel(decimal, 4);
}

/// Digits without a leading zero are the shortest spelling of their number.
pub proof fn lemma_decimal_of_digits(t: Seq<u8>)
    requires
        t.len() >= 1,
        all_digits(t),
        t.len() == 1 || t[0] != 0x30,
    ensures
        decimal(digits_value(t)) == t,
    decreases t.len(),
{
    let init = t.drop_last();
    if t.len() == 1 {
        assert(digits_value(init) == 0);
    } else {
        lemma_decimal_of_digits(init);
    }
}

/// Reading a decimal spelling gives the number back.
pub proof fn lemma_parse_decimal(n: nat, max: nat)
    requires
        n <= max,
    ensures
        parse_decimal(decimal(n), max) == Some(n),
{
    lemma_decimal(n);
}

/// The number that `s` spells in decimal, if it fits sixteen bits.
pub fn parse_u16(s: &[u8]) -> (r: Option<u16>)
    ensures
        match r {
            Some(v) => parse_decimal(s@, 0xffff) == Some(v as nat),
            None => parse_decimal(s@, 0xffff) is None,
        },
{
    let start: usize = if s.len() > 0 && s[0] == 0x2b {
        1
    } else {
        0
    };
    let ghost d = unsigned_part(s@);
    if start == s.len() {
        return None;
    }
    let mut value: u32 = 0;
    let mut i: usize = start;
    while i < s.len()
        invariant
            start <= i <= s@.len(),
            d == unsigned_part(s@),
            d == s@.skip(start as int),
            all_digits(d.take(i - start)),
            value == digits_value(d.take(i - start)),
            value <= 0xffff,
        decreases s@.len() - i,
    {
        let b = s[i];
        let ghost longer = d.take(i - start + 1);
        proof {
            assert(longer.drop_last() =~= d.take(i - start));
            assert(longer.last() == b);
        }
        if b < 0x30 || b > 0x39 {
            return None;
        }
        let digit: u32 = (b - 0x30) as u32;
        value = value * 10 + digit;
        if value > 0xffff {
            proof {
                if all_digits(d) {
                    lemma_digits_value_grows(d, (i - start + 1) as nat);
                }
            }
            return None;
        }
        i = i + 1;
    }
    assert(d.take(i - start) =~= d);
    Some(value as u16)
}

/// Writes the shortest decimal spelling of `n` at the end of `out`.
pub fn push_number(out: &mut Vec<u8>, n: u128)
    ensures
        final(out)@ == old(out)@ + decimal(n as nat),
    decreases n,
{
    if n >= 10 {
        push_number(out, n / 10);
    }
    let digit: u8 = (n % 10) as u8;
    out.push(0x30 + digit);
}

/// Writes the shortest decimal spelling of a port at the end of `out`.
pub fn push_decimal(out: &mut Vec<u8>, n: u16)
    ensures
        final(out)@ == old(out)@ + decimal(n as nat),
{
    push_number(out, n as u128)
}

/// Bytes as characters, each byte the character with its number.
pub open spec fn as_chars(b: Seq<u8>) -> Seq<char> {
    Seq::new(b.len(), |i: int| b[i] as char)
}

/// Every byte is below 128.
pub open spec fn all_ascii(b: Seq<u8>) -> bool {
    forall|i: int| 0 <= i < b.len() ==> #[trigger] b[i] < 128
}

/// ASCII is UTF-8, each byte a character.
pub proof fn lemma_ascii_is_utf8(b: Seq<u8>)
    requires
        all_ascii(b),
    ensures
        valid_utf8(b),
        decode_utf8(b) == as_chars(b),
        encode_utf8(as_chars(b)) == b,
{
    let chars = as_chars(b);
    is_ascii_chars_encode_utf8(chars);
    assert(encode_utf8(chars) =~= b);
    encode_utf8_valid_utf8(chars);
    encode_utf8_decode_utf8(chars);
}

/// The digits of a number are ASCII.
pub proof fn lemma_decimal_ascii(n: nat)
    ensures
        all_ascii(decimal(n)),
{
    lemma_decimal(n);
}

/// A lower-case ASCII letter becomes its capital; any other byte stays.
pub open spec fn upper(b: u8) -> u8 {
    if 0x61 <= b <= 0x7a {
        (b - 0x20) as u8
    } else {
        b
    }
}

/// `upper` on every byte.
pub open spec fn uppercase(s: Seq<u8>) -> Seq<u8> {
    s.map_values(|b: u8| upper(b))
}

/// The bytes of `s` with ASCII letters capitalised.
pub fn to_uppercase(s: &[u8]) -> (out: Vec<u8>)
    ensures
        out@ == uppercase(s@),
{
    let mut out: Vec<u8> = Vec::new();
    let mut i: usize = 0;
    while i < s.len()
        invariant
            i <= s@.len(),
            out@ == uppercase(s@.take(i as int)),
        decreases s@.len() - i,
    {
        let b = s[i];
        let c: u8 = if 0x61 <= b && b <= 0x7a {
            b - 0x20
        } else {
            b
        };
        out.push(c);
        i = i + 1;
    }
    out
}

/// `String::from_utf8`: the string that the bytes encode, or nothing where
/// they are not UTF-8.
#[verifier::external_body]
pub(crate) fn string_from_utf8(bytes: Vec<u8>) -> (r: Option<String>)
    ensures
        match r {
            Some(s) => valid_utf8(bytes@) && s@ == decode_utf8(bytes@),
            None => !valid_utf8(bytes@),
        },
{
    String::from_utf8(bytes).ok()
}

/// `core::str::from_utf8`: the text that the bytes encode, or nothing where
/// they are not UTF-8.
#[verifier::external_body]
pub(crate) fn str_from_utf8(bytes: &[u8]) -> (r: Option<&str>)
    ensures
        match r {
            Some(s) => valid_utf8(bytes@) && s@ == decode_utf8(bytes@),
            None => !valid_utf8(bytes@),
        },
{
    core::str::from_utf8(bytes).ok()
}

/// Whether the bytes are UTF-8.
pub fn is_utf8(bytes: &[u8]) -> (r: bool)
    ensures
        r == valid_utf8(bytes@),
{
    str_from_utf8(bytes).is_some()
}

/// The UTF-8 bytes of a string.
pub fn string_bytes(s: &String) -> (bytes: &[u8])
    ensures
        bytes@ == encode_utf8(s@),
{
    s.as_str().as_bytes()
}

} // verus!
