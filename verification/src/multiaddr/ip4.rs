//! Internet protocol, version 4: four bytes, written in dotted decimal.

use crate::error::{fails_with, Error, ErrorKind};
use crate::multiaddr::payload::Payload;
use crate::multiaddr::protocol::{Form, Protocol};
use crate::multiaddr::text_form::{
    bad_addr, into_text, segment_text, skip_tokens, text_outcome, text_parse, token_text,
};
use crate::multiaddr::wire::{bytes_outcome, read_fixed, segment_wire, tag, truncated, wire_parse};
use crate::text::{
    all_digits, append, decimal, digits_value, lemma_decimal, lemma_decimal_short, free_of,
    lemma_split_of_separated, push_decimal, separated, split, split_bytes, views,
};
use vstd::prelude::*;
use vstd::slice::*;

verus! {

/// The dot.
pub const DOT: u8 = 0x2e;

/// The byte that one field of dotted decimal spells: one to three digits,
/// none of them a leading zero, and no more than 255.
pub open spec fn octet(t: Seq<u8>) -> Option<u8> {
    if 1 <= t.len() <= 3 && all_digits(t) && (t.len() == 1 || t[0] != 0x30) && digits_value(t)
        <= 255 {
        Some(digits_value(t) as u8)
    } else {
        None
    }
}

/// The four bytes that `t` spells in dotted decimal: four fields with a dot
/// between each two.
pub open spec fn parse_ip4(t: Seq<u8>) -> Option<Seq<u8>> {
    let f = split(t, DOT);
    if f.len() == 4 && octet(f[0]) is Some && octet(f[1]) is Some && octet(f[2]) is Some && octet(
        f[3],
    ) is Some {
        Some(seq![octet(f[0])->0, octet(f[1])->0, octet(f[2])->0, octet(f[3])->0])
    } else {
        None
    }
}

/// Four bytes in dotted decimal.
pub open spec fn ip4_text(b: Seq<u8>) -> Seq<u8>
    recommends
        b.len() == 4,
{
    decimal(b[0] as nat) + seq![DOT] + decimal(b[1] as nat) + seq![DOT] + decimal(b[2] as nat)
        + seq![DOT] + decimal(b[3] as nat)
}

/// The shortest spelling of a byte is a field that spells the byte, and
/// holds no dot.
pub proof fn lemma_octet_of_decimal(b: u8)
    ensures
        octet(decimal(b as nat)) == Some(b),
        free_of(decimal(b as nat), DOT),
{
    lemma_decimal(b as nat);
    lemma_decimal_short(b as nat);
}

/// Reading undoes writing: four bytes written in dotted decimal are read
/// again.
pub proof fn law_ip4_text_round_trip(b: Seq<u8>)
    requires
        b.len() == 4,
    ensures
        parse_ip4(ip4_text(b)) == Some(b),
{
    let d0 = decimal(b[0] as nat);
    let d1 = decimal(b[1] as nat);
    let d2 = decimal(b[2] as nat);
    let d3 = decimal(b[3] as nat);
    lemma_octet_of_decimal(b[0]);
    lemma_octet_of_decimal(b[1]);
    lemma_octet_of_decimal(b[2]);
    lemma_octet_of_decimal(b[3]);
    let rest = seq![d1, d2, d3];
    let r2 = rest.skip(1);
    let r3 = r2.skip(1);
    assert(separated(r3.skip(1), DOT) =~= Seq::<u8>::empty());
    assert(separated(r3, DOT) =~= seq![DOT] + d3);
    assert(separated(r2, DOT) =~= seq![DOT] + d2 + (seq![DOT] + d3));
    assert(ip4_text(b) =~= d0 + separated(rest, DOT));
    lemma_split_of_separated(d0, rest, DOT);
}

/// The byte that one field of dotted decimal spells.
pub fn parse_octet(t: &[u8]) -> (r: Option<u8>)
    ensures
        r == octet(t@),
{
    if t.len() < 1 || t.len() > 3 {
        return None;
    }
    if t.len() > 1 && t[0] == 0x30 {
        return None;
    }
    let mut value: u16 = 0;
    let mut i: usize = 0;
    while i < t.len()
        invariant
            i <= t@.len() <= 3,
            all_digits(t@.take(i as int)),
            value == digits_value(t@.take(i as int)),
            value <= 999,
        decreases t@.len() - i,
    {
        let b = t[i];
        let ghost longer = t@.take(i + 1);
        proof {
            assert(longer.drop_last() =~= t@.take(i as int));
            lemma_three_digits(t@.take(i as int));
        }
        if b < 0x30 || b > 0x39 {
            return None;
        }
        value = value * 10 + (b - 0x30) as u16;
        proof {
            lemma_three_digits(longer);
        }
        i = i + 1;
    }
    assert(t@.take(i as int) =~= t@);
    if value > 255 {
        None
    } else {
        Some(value as u8)
    }
}

/// Up to three digits spell less than a thousand, up to two less than a
/// hundred.
proof fn lemma_three_digits(s: Seq<u8>)
    requires
        s.len() <= 3,
        all_digits(s),
    ensures
        s.len() == 0 ==> digits_value(s) == 0,
        s.len() <= 1 ==> digits_value(s) <= 9,
        s.len() <= 2 ==> digits_value(s) <= 99,
        digits_value(s) <= 999,
    decreases s.len(),
{
    if s.len() > 0 {
        let head = s.drop_last();
        lemma_three_digits(head);
    }
}

/// The four bytes that `t` spells in dotted decimal.
pub fn parse_dotted(t: &[u8]) -> (r: Option<[u8; 4]>)
    ensures
        match r {
            Some(a) => parse_ip4(t@) == Some(a@),
            None => parse_ip4(t@) is None,
        },
{
    let fields = split_bytes(t, DOT);
    if fields.len() != 4 {
        return None;
    }
    let a = match parse_octet(fields[0]) {
        Some(v) => v,
        None => {
            return None;
        },
    };
    let b = match parse_octet(fields[1]) {
        Some(v) => v,
        None => {
            return None;
        },
    };
    let c = match parse_octet(fields[2]) {
        Some(v) => v,
        None => {
            return None;
        },
    };
    let d = match parse_octet(fields[3]) {
        Some(v) => v,
        None => {
            return None;
        },
    };
    let out = [a, b, c, d];
    Some(out)
}

/// Writes four bytes in dotted decimal at the end of `out`.
pub(crate) fn push_dotted(out: &mut Vec<u8>, b: &[u8])
    requires
        b@.len() == 4,
    ensures
        final(out)@ == old(out)@ + ip4_text(b@),
{
    push_decimal(out, b[0] as u16);
    out.push(DOT);
    push_decimal(out, b[1] as u16);
    out.push(DOT);
    push_decimal(out, b[2] as u16);
    out.push(DOT);
    push_decimal(out, b[3] as u16);
}

/// An address of the Internet protocol, version 4.
#[derive(Clone, Debug, PartialEq, Eq)]
pub struct Ip4 {
    addr: [u8; 4],
}

impl View for Ip4 {
    type V = Payload;

    closed spec fn view(&self) -> Payload {
        Payload::Bytes(self.addr@)
    }
}

impl Ip4 {
    /// The address with the given bytes.
    pub fn from_octets(addr: [u8; 4]) -> (v: Ip4)
        ensures
            v@ == Payload::Bytes(addr@),
    {
        Ip4 { addr }
    }

    /// The bytes of the address.
    pub fn to_addr(&self) -> (addr: [u8; 4])
        ensures
            self@ == Payload::Bytes(addr@),
    {
        self.addr
    }

    /// The view is four bytes.
    pub proof fn lemma_view(&self)
        ensures
            self@ matches Payload::Bytes(b) && b.len() == 4,
    {
    }

    /// Reads the address from the first of `parts` and hands back the rest.
    /// `BadAddr` where there is no token or it is not dotted decimal.
    pub fn from_text<'a, 'b>(parts: &'a [&'b [u8]]) -> (r: Result<(Ip4, &'a [&'b [u8]]), Error>)
        ensures
            match text_parse(Form::Ip4, views(parts@)) {
                Some((p, n)) => r matches Ok((v, rest)) && v@ == p && rest@ == parts@.skip(
                    n as int,
                ),
                None => fails_with(r, ErrorKind::BadAddr),
            },
    {
        if parts.len() == 0 {
            return Err(bad_addr("ip4", "no address"));
        }
        match parse_dotted(parts[0]) {
            Some(addr) => Ok((Ip4 { addr }, skip_tokens(parts, 1))),
            None => Err(bad_addr("ip4", "not dotted decimal")),
        }
    }

    /// The segment in text: `/ip4/` and the address in dotted decimal.
    pub fn to_text(&self) -> (r: Result<String, Error>)
        ensures
            text_outcome(r, segment_text(Protocol::Ip4, self@)),
    {
        let mut token: Vec<u8> = Vec::new();
        push_dotted(&mut token, self.addr.as_slice());
        into_text(token_text(Protocol::Ip4, token.as_slice()), "ip4")
    }

    /// Reads the address from the front of `data` and hands back the rest.
    /// `DecodeError` where `data` has fewer than four bytes.
    pub fn decode(data: &[u8]) -> (r: Result<(Ip4, &[u8]), Error>)
        ensures
            match wire_parse(Form::Ip4, data@) {
                Some((p, n)) => r matches Ok((v, rest)) && v@ == p && rest@ == data@.skip(n as int),
                None => fails_with(r, ErrorKind::DecodeError),
            },
    {
        match read_fixed(data, 4) {
            Some((head, rest)) => {
                let addr = [head[0], head[1], head[2], head[3]];
                assert(addr@ =~= data@.take(4));
                Ok((Ip4 { addr }, rest))
            },
            None => Err(truncated("ip4")),
        }
    }

    /// The segment on the wire: the number of the protocol, then the four
    /// bytes.
    pub fn encode(&self) -> (r: Result<Vec<u8>, Error>)
        ensures
            bytes_outcome(r, segment_wire(Protocol::Ip4, self@)),
    {
        let mut out = tag(Protocol::Ip4);
        append(&mut out, self.addr.as_slice());
        Ok(out)
    }
}

} // verus!
