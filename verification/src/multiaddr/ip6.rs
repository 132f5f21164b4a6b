//! Internet protocol, version 6: sixteen bytes, written as eight groups of
//! hexadecimal digits with colons between them.
//!
//! In text, one run of groups that are zero may be left out, two colons
//! marking the gap, and the last two groups may be written as four bytes in
//! dotted decimal. The text this module writes leaves out the first of the
//! longest runs of two or more zero groups, writes each group in lower case
//! without leading zeros, and keeps dotted decimal for the addresses that
//! stand for version 4 addresses (`::ffff:a.b.c.d`).

use crate::error::{fails_with, Error, ErrorKind};
use crate::multiaddr::ip4::{ip4_text, parse_dotted, parse_ip4, push_dotted};
use crate::multiaddr::onion::COLON;
use crate::multiaddr::payload::Payload;
use crate::multiaddr::protocol::{Form, Protocol};
use crate::multiaddr::text_form::{
    bad_addr, into_text, segment_text, skip_tokens, text_outcome, text_parse, token_text,
};
use crate::multiaddr::wire::{bytes_outcome, read_fixed, segment_wire, tag, truncated, wire_parse};
use crate::text::{append, split, split_bytes, views};
use vstd::prelude::*;
use vstd::slice::*;

verus! {

/// A hexadecimal digit, in either case.
pub open spec fn is_hex(b: u8) -> bool {
    (0x30 <= b <= 0x39) || (0x61 <= b <= 0x66) || (0x41 <= b <= 0x46)
}

/// The value of a hexadecimal digit.
pub open spec fn hex_digit(b: u8) -> nat {
    if 0x30 <= b <= 0x39 {
        (b - 0x30) as nat
    } else if 0x61 <= b <= 0x66 {
        (b - 0x61 + 10) as nat
    } else {
        (b - 0x41 + 10) as nat
    }
}

/// Every byte is a hexadecimal digit.
pub open spec fn all_hex(s: Seq<u8>) -> bool {
    forall|i: int| 0 <= i < s.len() ==> is_hex(#[trigger] s[i])
}

/// The number that a string of hexadecimal digits spells.
pub open spec fn hex_value(s: Seq<u8>) -> nat
    decreases s.len(),
{
    if s.len() == 0 {
        0
    } else {
        hex_value(s.drop_last()) * 16 + hex_digit(s.last())
    }
}

/// The group that a field spells: one to four hexadecimal digits.
pub open spec fn group(t: Seq<u8>) -> Option<u16> {
    if 1 <= t.len() <= 4 && all_hex(t) {
        Some(hex_value(t) as u16)
    } else {
        None
    }
}

/// The groups that fields spell, each field one group.
pub open spec fn hex_groups(fields: Seq<Seq<u8>>) -> Option<Seq<u16>> {
    if forall|i: int| 0 <= i < fields.len() ==> group(#[trigger] fields[i]) is Some {
        Some(Seq::new(fields.len(), |i: int| group(fields[i])->0))
    } else {
        None
    }
}

/// The two groups that four bytes make.
pub open spec fn quad_groups(q: Seq<u8>) -> Seq<u16> {
    seq![(q[0] * 256 + q[1]) as u16, (q[2] * 256 + q[3]) as u16]
}

/// The groups that fields spell, where the last field may be four bytes in
/// dotted decimal and then makes two groups.
pub open spec fn groups(fields: Seq<Seq<u8>>) -> Option<Seq<u16>> {
    if fields.len() == 0 {
        None
    } else {
        match hex_groups(fields.drop_last()) {
            Some(h) => match parse_ip4(fields.last()) {
                Some(q) => Some(h + quad_groups(q)),
                None => match group(fields.last()) {
                    Some(g) => Some(h.push(g)),
                    None => None,
                },
            },
            None => None,
        }
    }
}

/// Position of the first colon at or after `from` that another colon
/// follows.
pub open spec fn gap_at(s: Seq<u8>, from: nat) -> Option<nat>
    decreases s.len() - from,
{
    if from + 1 >= s.len() {
        None
    } else if s[from as int] == COLON && s[from + 1 as int] == COLON {
        Some(from)
    } else {
        gap_at(s, from + 1)
    }
}

/// The bytes of groups, each group its high byte first.
pub open spec fn group_bytes(g: Seq<u16>) -> Seq<u8> {
    Seq::new(2 * g.len(), |i: int| if i % 2 == 0 {
        (g[i / 2] / 256) as u8
    } else {
        (g[i / 2] % 256) as u8
    })
}

/// So many groups of zero.
pub open spec fn zeros(n: nat) -> Seq<u16> {
    Seq::new(n, |i: int| 0u16)
}

/// The sixteen bytes that `t` spells.
///
/// Without a gap, the fields between the colons must make eight groups.
/// With one, the fields before it are groups, the fields behind it are
/// groups of which the last may be in dotted decimal, there are seven
/// groups at most, and the gap stands for the zeros that are missing.
pub open spec fn parse_ip6(t: Seq<u8>) -> Option<Seq<u8>> {
    match gap_at(t, 0) {
        None => match groups(split(t, COLON)) {
            Some(g) => if g.len() == 8 {
                Some(group_bytes(g))
            } else {
                None
            },
            None => None,
        },
        Some(i) => {
            let head = t.take(i as int);
            let tail = t.skip(i + 2 as int);
            let h = if head.len() == 0 {
                Some(Seq::<u16>::empty())
            } else {
                hex_groups(split(head, COLON))
            };
            let l = if tail.len() == 0 {
                Some(Seq::<u16>::empty())
            } else {
                groups(split(tail, COLON))
            };
            match (h, l) {
                (Some(h), Some(l)) => if h.len() + l.len() <= 7 {
                    Some(group_bytes(h + zeros((8 - h.len() - l.len()) as nat) + l))
                } else {
                    None
                },
                _ => None,
            }
        },
    }
}

/// The groups of sixteen bytes.
pub open spec fn groups_of(b: Seq<u8>) -> Seq<u16>
    recommends
        b.len() == 16,
{
    Seq::new(8, |i: int| (b[2 * i] * 256 + b[2 * i + 1]) as u16)
}

/// The lower-case hexadecimal digit for a value below sixteen.
pub open spec fn hex_char(v: nat) -> u8 {
    if v < 10 {
        (0x30 + v) as u8
    } else {
        (0x61 + v - 10) as u8
    }
}

/// The shortest spelling of `n` in lower-case hexadecimal.
pub open spec fn hex(n: nat) -> Seq<u8>
    decreases n,
{
    if n < 16 {
        seq![hex_char(n)]
    } else {
        hex(n / 16).push(hex_char(n % 16))
    }
}

/// Groups in hexadecimal with a colon between each two.
pub open spec fn colon_joined(g: Seq<u16>) -> Seq<u8>
    decreases g.len(),
{
    if g.len() == 0 {
        Seq::empty()
    } else if g.len() == 1 {
        hex(g[0] as nat)
    } else {
        colon_joined(g.drop_last()) + seq![COLON] + hex(g.last() as nat)
    }
}

/// The `len` groups from `start` on are all zero.
pub open spec fn zero_run(g: Seq<u16>, start: int, len: int) -> bool {
    0 <= start && 0 <= len && start + len <= g.len() && forall|i: int|
        start <= i < start + len ==> g[i] == 0
}

/// The run of zeros that text leaves out: no run is longer, and none as
/// long starts earlier.
pub open spec fn left_out(g: Seq<u16>, start: int, len: int) -> bool {
    len >= 2 && zero_run(g, start, len) && forall|s: int, l: int| #[trigger]
        zero_run(g, s, l) ==> l < len || (l == len && s >= start)
}

/// The sixteen bytes stand for a version 4 address: ten bytes of zero, two
/// of 255, and the address.
pub open spec fn is_mapped(b: Seq<u8>) -> bool {
    (forall|i: int| 0 <= i < 10 ==> b[i] == 0) && b[10] == 0xff && b[11] == 0xff
}

/// What stands before the dotted decimal of a version 4 address.
pub open spec fn mapped_prefix() -> Seq<u8> {
    seq![COLON, COLON, 0x66u8, 0x66u8, 0x66u8, 0x66u8, COLON]
}

/// Sixteen bytes in text.
pub open spec fn ip6_text(b: Seq<u8>) -> Seq<u8>
    recommends
        b.len() == 16,
{
    let g = groups_of(b);
    if is_mapped(b) {
        mapped_prefix() + ip4_text(b.skip(12))
    } else if exists|s: int, l: int| left_out(g, s, l) {
        let (s, l) = choose|s: int, l: int| left_out(g, s, l);
        colon_joined(g.take(s)) + seq![COLON, COLON] + colon_joined(g.skip(s + l))
    } else {
        colon_joined(g)
    }
}

/// Only one run is left out.
pub proof fn lemma_left_out_unique(g: Seq<u16>, s1: int, l1: int, s2: int, l2: int)
    requires
        left_out(g, s1, l1),
        left_out(g, s2, l2),
    ensures
        s1 == s2,
        l1 == l2,
{
}

/// The value of a hexadecimal digit, if the byte is one.
pub fn hex_digit_of(b: u8) -> (r: Option<u8>)
    ensures
        match r {
            Some(v) => is_hex(b) && v == hex_digit(b),
            None => !is_hex(b),
        },
{
    if 0x30 <= b && b <= 0x39 {
        Some(b - 0x30)
    } else if 0x61 <= b && b <= 0x66 {
        Some(b - 0x61 + 10)
    } else if 0x41 <= b && b <= 0x46 {
        Some(b - 0x41 + 10)
    } else {
        None
    }
}

/// Up to four hexadecimal digits spell less than 65536.
proof fn lemma_four_hex(s: Seq<u8>)
    requires
        s.len() <= 4,
        all_hex(s),
    ensures
        s.len() == 0 ==> hex_value(s) == 0,
        s.len() <= 1 ==> hex_value(s) < 0x10,
        s.len() <= 2 ==> hex_value(s) < 0x100,
        s.len() <= 3 ==> hex_value(s) < 0x1000,
        hex_value(s) < 0x10000,
    decreases s.len(),
{
    if s.len() > 0 {
        let head = s.drop_last();
        lemma_four_hex(head);
    }
}

/// The group that a field spells.
pub fn parse_group(t: &[u8]) -> (r: Option<u16>)
    ensures
        r == group(t@),
{
    if t.len() < 1 || t.len() > 4 {
        return None;
    }
    let mut value: u32 = 0;
    let mut i: usize = 0;
    while i < t.len()
        invariant
            i <= t@.len() <= 4,
            all_hex(t@.take(i as int)),
            value == hex_value(t@.take(i as int)),
            value < 0x10000,
        decreases t@.len() - i,
    {
        let b = t[i];
        let ghost longer = t@.take(i + 1);
        proof {
            assert(longer.drop_last() =~= t@.take(i as int));
            lemma_four_hex(t@.take(i as int));
        }
        match hex_digit_of(b) {
            Some(d) => {
                value = value * 16 + d as u32;
                proof {
                    lemma_four_hex(longer);
                }
            },
            None => {
                return None;
            },
        }
        i = i + 1;
    }
    assert(t@.take(i as int) =~= t@);
    Some(value as u16)
}

/// The groups that the first `n` of `fields` spell, each field one group.
fn parse_hex_groups(fields: &[&[u8]], n: usize) -> (r: Option<Vec<u16>>)
    requires
        n <= fields@.len(),
    ensures
        match hex_groups(views(fields@).take(n as int)) {
            Some(g) => r matches Some(v) && v@ == g,
            None => r is None,
        },
{
    let ghost want = views(fields@).take(n as int);
    let mut out: Vec<u16> = Vec::new();
    let mut i: usize = 0;
    while i < n
        invariant
            i <= n <= fields@.len(),
            want == views(fields@).take(n as int),
            out@.len() == i,
            forall|k: int| 0 <= k < i ==> group(#[trigger] want[k]) == Some(out@[k]),
        decreases n - i,
    {
        assert(want[i as int] == fields@[i as int]@);
        match parse_group(fields[i]) {
            Some(g) => {
                out.push(g);
            },
            None => {
                return None;
            },
        }
        i = i + 1;
    }
    Some(out)
}

/// The groups that `fields` spell, where the last field may be in dotted
/// decimal.
fn parse_groups(fields: &[&[u8]]) -> (r: Option<Vec<u16>>)
    ensures
        match groups(views(fields@)) {
            Some(g) => r matches Some(v) && v@ == g,
            None => r is None,
        },
{
    let n = fields.len();
    if n == 0 {
        return None;
    }
    let mut out = match parse_hex_groups(fields, n - 1) {
        Some(v) => v,
        None => {
            return None;
        },
    };
    let last = fields[n - 1];
    match parse_dotted(last) {
        Some(q) => {
            out.push((q[0] as u16) * 256 + q[1] as u16);
            out.push((q[2] as u16) * 256 + q[3] as u16);
            Some(out)
        },
        None => match parse_group(last) {
            Some(g) => {
                out.push(g);
                Some(out)
            },
            None => None,
        },
    }
}

/// Where the first pair of colons stands.
fn find_gap(t: &[u8]) -> (r: Option<usize>)
    ensures
        match r {
            Some(i) => gap_at(t@, 0) == Some(i as nat) && i + 2 <= t@.len(),
            None => gap_at(t@, 0) is None,
        },
{
    let n = t.len();
    if n < 2 {
        return None;
    }
    let mut i: usize = 0;
    while i < n - 1
        invariant
            n == t@.len(),
            n >= 2,
            i <= n - 1,
            gap_at(t@, 0) == gap_at(t@, i as nat),
        decreases n - i,
    {
        if t[i] == COLON && t[i + 1] == COLON {
            return Some(i);
        }
        i = i + 1;
    }
    None
}

/// The sixteen bytes of eight groups.
fn bytes_of_groups(g: &Vec<u16>) -> (out: [u8; 16])
    requires
        g@.len() == 8,
    ensures
        out@ == group_bytes(g@),
{
    let mut out = [0u8; 16];
    let mut i: usize = 0;
    while i < 8
        invariant
            i <= 8,
            g@.len() == 8,
            forall|k: int| 0 <= k < 2 * i ==> out@[k] == group_bytes(g@)[k],
        decreases 8 - i,
    {
        let v = g[i];
        out[2 * i] = (v / 256) as u8;
        out[2 * i + 1] = (v % 256) as u8;
        i = i + 1;
    }
    out
}

/// The sixteen bytes that `t` spells.
pub fn parse_colons(t: &[u8]) -> (r: Option<[u8; 16]>)
    ensures
        match r {
            Some(a) => parse_ip6(t@) == Some(a@),
            None => parse_ip6(t@) is None,
        },
{
    match find_gap(t) {
        None => {
            let fields = split_bytes(t, COLON);
            match parse_groups(fields.as_slice()) {
                Some(g) => if g.len() == 8 {
                    Some(bytes_of_groups(&g))
                } else {
                    None
                },
                None => None,
            }
        },
        Some(i) => {
            let n = t.len();
            let head = slice_subrange(t, 0, i);
            let tail = slice_subrange(t, i + 2, n);
            let h: Vec<u16> = if head.len() == 0 {
                Vec::new()
            } else {
                let fields = split_bytes(head, COLON);
                assert(views(fields@).take(fields@.len() as int) =~= views(fields@));
                match parse_hex_groups(fields.as_slice(), fields.len()) {
                    Some(v) => v,
                    None => {
                        return None;
                    },
                }
            };
            let l: Vec<u16> = if tail.len() == 0 {
                Vec::new()
            } else {
                let fields = split_bytes(tail, COLON);
                match parse_groups(fields.as_slice()) {
                    Some(v) => v,
                    None => {
                        return None;
                    },
                }
            };
            if h.len() > 7 || l.len() > 7 - h.len() {
                return None;
            }
            let mut all: Vec<u16> = Vec::new();
            let fill: usize = 8 - h.len() - l.len();
            let mut k: usize = 0;
            while k < h.len()
                invariant
                    k <= h@.len(),
                    all@ == h@.take(k as int),
                decreases h@.len() - k,
            {
                all.push(h[k]);
                k = k + 1;
            }
            k = 0;
            while k < fill
                invariant
                    k <= fill,
                    all@ == h@ + zeros(k as nat),
                decreases fill - k,
            {
                all.push(0);
                k = k + 1;
            }
            k = 0;
            while k < l.len()
                invariant
                    k <= l@.len(),
                    all@ == h@ + zeros(fill as nat) + l@.take(k as int),
                decreases l@.len() - k,
            {
                all.push(l[k]);
                k = k + 1;
            }
            Some(bytes_of_groups(&all))
        },
    }
}

/// Writes the shortest spelling of `n` in lower-case hexadecimal at the end
/// of `out`.
pub fn push_hex(out: &mut Vec<u8>, n: u16)
    ensures
        final(out)@ == old(out)@ + hex(n as nat),
    decreases n,
{
    if n >= 16 {
        push_hex(out, n / 16);
    }
    let v: u8 = (n % 16) as u8;
    let c: u8 = if v < 10 {
        0x30 + v
    } else {
        0x61 + (v - 10)
    };
    out.push(c);
}

/// Writes the groups from `from` up to `to` at the end of `out`, with a
/// colon between each two.
fn push_joined(out: &mut Vec<u8>, g: &[u16], from: usize, to: usize)
    requires
        from <= to <= g@.len(),
    ensures
        final(out)@ == old(out)@ + colon_joined(g@.subrange(from as int, to as int)),
{
    let ghost before = out@;
    let mut i: usize = from;
    while i < to
        invariant
            from <= i <= to <= g@.len(),
            out@ == before + colon_joined(g@.subrange(from as int, i as int)),
        decreases to - i,
    {
        let ghost done = g@.subrange(from as int, i as int);
        let ghost more = g@.subrange(from as int, i + 1);
        proof {
            assert(more.drop_last() =~= done);
        }
        if i > from {
            out.push(COLON);
        }
        push_hex(out, g[i]);
        i = i + 1;
    }
}

/// Whether the `len` groups from `start` on are all zero.
fn is_zero_run(g: &[u16], start: usize, len: usize) -> (r: bool)
    requires
        start + len <= g@.len(),
    ensures
        r == zero_run(g@, start as int, len as int),
{
    let n = g.len();
    let end: usize = start + len;
    let mut i: usize = start;
    while i < end
        invariant
            start <= i <= end <= g@.len(),
            end == start + len,
            forall|k: int| start <= k < i ==> g@[k] == 0,
        decreases end - i,
    {
        if g[i] != 0 {
            return false;
        }
        i = i + 1;
    }
    true
}

/// The run of zeros that text leaves out, if there is one.
fn find_left_out(g: &[u16]) -> (r: Option<(usize, usize)>)
    requires
        g@.len() == 8,
    ensures
        match r {
            Some((s, l)) => left_out(g@, s as int, l as int) && s + l <= 8,
            None => forall|s: int, l: int| !left_out(g@, s, l),
        },
{
    let mut len: usize = 8;
    while len >= 2
        invariant
            1 <= len <= 8,
            g@.len() == 8,
            forall|s: int, l: int| l > len ==> !zero_run(g@, s, l),
        decreases len,
    {
        let mut start: usize = 0;
        while start + len <= 8
            invariant
                2 <= len <= 8,
                start + len <= 9,
                g@.len() == 8,
                forall|s: int, l: int| l > len ==> !zero_run(g@, s, l),
                forall|s: int| s < start ==> !zero_run(g@, s, len as int),
            decreases 9 - start,
        {
            if is_zero_run(g, start, len) {
                return Some((start, len));
            }
            start = start + 1;
        }
        len = len - 1;
    }
    None
}

/// Writes sixteen bytes in text at the end of `out`.
pub(crate) fn push_colons(out: &mut Vec<u8>, b: &[u8])
    requires
        b@.len() == 16,
    ensures
        final(out)@ == old(out)@ + ip6_text(b@),
{
    let ghost before = out@;
    let mut mapped = b[10] == 0xff && b[11] == 0xff;
    let mut i: usize = 0;
    while i < 10
        invariant
            i <= 10,
            b@.len() == 16,
            mapped == ((forall|k: int| 0 <= k < i ==> b@[k] == 0) && b@[10] == 0xff && b@[11]
                == 0xff),
        decreases 10 - i,
    {
        if b[i] != 0 {
            mapped = false;
        }
        i = i + 1;
    }
    if mapped {
        out.push(COLON);
        out.push(COLON);
        out.push(0x66);
        out.push(0x66);
        out.push(0x66);
        out.push(0x66);
        out.push(COLON);
        let quad = slice_subrange(b, 12, 16);
        push_dotted(out, quad);
        return ;
    }
    let mut g: Vec<u16> = Vec::new();
    let mut k: usize = 0;
    while k < 8
        invariant
            k <= 8,
            b@.len() == 16,
            g@.len() == k,
            forall|j: int| 0 <= j < k ==> g@[j] == groups_of(b@)[j],
        decreases 8 - k,
    {
        g.push((b[2 * k] as u16) * 256 + b[2 * k + 1] as u16);
        k = k + 1;
    }
    assert(g@ =~= groups_of(b@));
    match find_left_out(g.as_slice()) {
        Some((s, l)) => {
            proof {
                let (cs, cl) = choose|cs: int, cl: int| left_out(g@, cs, cl);
                lemma_left_out_unique(g@, s as int, l as int, cs, cl);
            }
            push_joined(out, g.as_slice(), 0, s);
            out.push(COLON);
            out.push(COLON);
            push_joined(out, g.as_slice(), s + l, 8);
            assert(out@ =~= before + (colon_joined(g@.take(s as int)) + seq![COLON, COLON]
                + colon_joined(g@.skip(s + l))));
        },
        None => {
            assert(g@.subrange(0, 8) =~= g@);
            push_joined(out, g.as_slice(), 0, 8);
        },
    }
}

/// An address of the Internet protocol, version 6.
#[derive(Clone, Debug, PartialEq, Eq)]
pub struct Ip6 {
    addr: [u8; 16],
}

impl View for Ip6 {
    type V = Payload;

    closed spec fn view(&self) -> Payload {
        Payload::Bytes(self.addr@)
    }
}

impl Ip6 {
    /// The address with the given bytes.
    pub fn from_octets(addr: [u8; 16]) -> (v: Ip6)
        ensures
            v@ == Payload::Bytes(addr@),
    {
        Ip6 { addr }
    }

    /// The bytes of the address.
    pub fn to_addr(&self) -> (addr: [u8; 16])
        ensures
            self@ == Payload::Bytes(addr@),
    {
        self.addr
    }

    /// The view is sixteen bytes.
    pub proof fn lemma_view(&self)
        ensures
            self@ matches Payload::Bytes(b) && b.len() == 16,
    {
    }

    /// Reads the address from the first of `parts` and hands back the rest.
    /// `BadAddr` where there is no token or it spells no address.
    pub fn from_text<'a, 'b>(parts: &'a [&'b [u8]]) -> (r: Result<(Ip6, &'a [&'b [u8]]), Error>)
        ensures
            match text_parse(Form::Ip6, views(parts@)) {
                Some((p, n)) => r matches Ok((v, rest)) && v@ == p && rest@ == parts@.skip(
                    n as int,
                ),
                None => fails_with(r, ErrorKind::BadAddr),
            },
    {
        if parts.len() == 0 {
            return Err(bad_addr("ip6", "no address"));
        }
        match parse_colons(parts[0]) {
            Some(addr) => Ok((Ip6 { addr }, skip_tokens(parts, 1))),
            None => Err(bad_addr("ip6", "not an address")),
        }
    }

    /// The segment in text: `/ip6/` and the address.
    pub fn to_text(&self) -> (r: Result<String, Error>)
        ensures
            text_outcome(r, segment_text(Protocol::Ip6, self@)),
    {
        let mut token: Vec<u8> = Vec::new();
        push_colons(&mut token, self.addr.as_slice());
        into_text(token_text(Protocol::Ip6, token.as_slice()), "ip6")
    }

    /// Reads the address from the front of `data` and hands back the rest.
    /// `DecodeError` where `data` has fewer than sixteen bytes.
    pub fn decode(data: &[u8]) -> (r: Result<(Ip6, &[u8]), Error>)
        ensures
            match wire_parse(Form::Ip6, data@) {
                Some((p, n)) => r matches Ok((v, rest)) && v@ == p && rest@ == data@.skip(n as int),
                None => fails_with(r, ErrorKind::DecodeError),
            },
    {
        match read_fixed(data, 16) {
            Some((head, rest)) => {
                let mut addr = [0u8; 16];
                let mut i: usize = 0;
                while i < 16
                    invariant
                        i <= 16,
                        head@.len() == 16,
                        forall|k: int| 0 <= k < i ==> addr@[k] == head@[k],
                    decreases 16 - i,
                {
                    addr[i] = head[i];
                    i = i + 1;
                }
                assert(addr@ =~= data@.take(16));
                Ok((Ip6 { addr }, rest))
            },
            None => Err(truncated("ip6")),
        }
    }

    /// The segment on the wire: the number of the protocol, then the sixteen
    /// bytes.
    pub fn encode(&self) -> (r: Result<Vec<u8>, Error>)
        ensures
            bytes_outcome(r, segment_wire(Protocol::Ip6, self@)),
    {
        let mut out = tag(Protocol::Ip6);
        append(&mut out, self.addr.as_slice());
        Ok(out)
    }
}

} // verus!
