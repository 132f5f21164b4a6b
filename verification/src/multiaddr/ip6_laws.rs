//! Reading undoes writing for addresses of the Internet protocol,
//! version 6: the text that this crate writes for sixteen bytes spells
//! those sixteen bytes.

use crate::multiaddr::ip4::{ip4_text, law_ip4_text_round_trip, parse_ip4, DOT};
use crate::multiaddr::ip6::{
    all_hex, colon_joined, gap_at, group, group_bytes, groups, groups_of, hex, hex_groups,
    hex_value, ip6_text, is_mapped, left_out, mapped_prefix, parse_ip6, quad_groups, zero_run,
    zeros,
};
use crate::multiaddr::laws::plain_token;
use crate::multiaddr::onion::COLON;
use crate::multiaddr::protocol::Form;
use crate::text::{
    decimal, free_of, is_digit, lemma_decimal, lemma_position_none, lemma_separated_concat,
    lemma_separated_one, lemma_split_of_separated, separated, split,
};
use vstd::prelude::*;

verus! {

/// The fields that groups are written as.
pub open spec fn hex_fields(g: Seq<u16>) -> Seq<Seq<u8>> {
    Seq::new(g.len(), |i: int| hex(g[i] as nat))
}

/// A colon stands at `i`, and another behind it.
pub open spec fn pair_at(s: Seq<u8>, i: int) -> bool {
    s[i] == COLON && s[i + 1] == COLON
}

/// No colon of `s` is followed by another, and `s` neither starts nor ends
/// with one.
pub open spec fn tidy(s: Seq<u8>) -> bool {
    s.len() > 0 && s[0] != COLON && s.last() != COLON && forall|i: int|
        0 <= i < s.len() - 1 ==> !#[trigger] pair_at(s, i)
}

/// The spelling of a number in hexadecimal is made of lower-case digits and
/// spells the number.
pub proof fn lemma_hex(n: nat)
    ensures
        hex(n).len() >= 1,
        all_hex(hex(n)),
        hex_value(hex(n)) == n,
        free_of(hex(n), COLON),
        free_of(hex(n), DOT),
    decreases n,
{
    let h = hex(n);
    if n < 16 {
        assert(hex_value(h.drop_last()) == 0);
    } else {
        lemma_hex(n / 16);
        let init = hex(n / 16);
        assert(h.drop_last() =~= init);
    }
}

/// A group is written in four digits at most, and read again.
pub proof fn lemma_group_of_hex(g: u16)
    ensures
        group(hex(g as nat)) == Some(g),
        hex(g as nat).len() >= 1,
        free_of(hex(g as nat), COLON),
        free_of(hex(g as nat), DOT),
{
    lemma_hex(g as nat);
    assert(hex(g as nat).len() <= 4) by {
        reveal_with_fuel(hex, 5);
    }
}

/// A field without a dot is no address in dotted decimal.
pub proof fn lemma_no_dot_no_quad(field: Seq<u8>)
    requires
        free_of(field, DOT),
    ensures
        parse_ip4(field) is None,
{
    lemma_position_none(field, DOT, 0);
}

/// Groups are read again from the fields that they are written as.
pub proof fn lemma_hex_groups_of_fields(g: Seq<u16>)
    ensures
        hex_groups(hex_fields(g)) == Some(g),
{
    let f = hex_fields(g);
    assert forall|i: int| 0 <= i < f.len() implies group(#[trigger] f[i]) == Some(g[i]) by {
        lemma_group_of_hex(g[i]);
    }
}

/// Groups are read again from the fields that they are written as, also
/// where the last field might have been in dotted decimal.
pub proof fn lemma_groups_of_fields(g: Seq<u16>)
    requires
        g.len() > 0,
    ensures
        groups(hex_fields(g)) == Some(g),
{
    let f = hex_fields(g);
    let init = g.drop_last();
    assert(f.drop_last() =~= hex_fields(init));
    lemma_hex_groups_of_fields(init);
    lemma_group_of_hex(g.last());
    lemma_no_dot_no_quad(f.last());
}

/// Groups with colons between them are their fields, the first as it is
/// and each other behind a colon; and they are tidy.
pub proof fn lemma_colon_joined(g: Seq<u16>)
    requires
        g.len() > 0,
    ensures
        colon_joined(g) == hex_fields(g)[0] + separated(hex_fields(g).skip(1), COLON),
        tidy(colon_joined(g)),
    decreases g.len(),
{
    let f = hex_fields(g);
    lemma_group_of_hex(g.last());
    let last = hex(g.last() as nat);
    if g.len() == 1 {
        assert(f.skip(1) =~= Seq::<Seq<u8>>::empty());
        let s = colon_joined(g);
        assert(s == last);
    } else {
        let init = g.drop_last();
        lemma_colon_joined(init);
        let fi = hex_fields(init);
        assert(f.skip(1) =~= fi.skip(1) + seq![last]);
        lemma_separated_concat(fi.skip(1), seq![last], COLON);
        lemma_separated_one(last, COLON);
        let a = colon_joined(init);
        let s = colon_joined(g);
        assert forall|i: int| 0 <= i < s.len() - 1 implies !#[trigger] pair_at(s, i) by {
            if i < a.len() - 1 {
                assert(!pair_at(a, i));
            } else if i == a.len() {
                assert(s[i + 1] == last[0]);
            }
        }
    }
}

/// Groups with colons between them split into their fields.
pub proof fn lemma_split_colon_joined(g: Seq<u16>)
    requires
        g.len() > 0,
    ensures
        split(colon_joined(g), COLON) == hex_fields(g),
{
    let f = hex_fields(g);
    lemma_colon_joined(g);
    lemma_group_of_hex(g[0]);
    assert forall|k: int| 0 <= k < f.skip(1).len() implies free_of(
        #[trigger] f.skip(1)[k],
        COLON,
    ) by {
        lemma_group_of_hex(g[k + 1]);
    }
    lemma_split_of_separated(f[0], f.skip(1), COLON);
}

/// Where the first pair of colons stands, given that no pair stands before
/// it.
pub proof fn lemma_gap_at_is(s: Seq<u8>, from: nat, j: nat)
    requires
        from <= j,
        j + 1 < s.len(),
        s[j as int] == COLON,
        s[j + 1 as int] == COLON,
        forall|i: int| from <= i < j ==> !#[trigger] pair_at(s, i),
    ensures
        gap_at(s, from) == Some(j),
    decreases j - from,
{
    if from < j {
        assert(!pair_at(s, from as int));
        lemma_gap_at_is(s, from + 1, j);
    }
}

/// No pair of colons, no gap.
pub proof fn lemma_gap_at_none(s: Seq<u8>, from: nat)
    requires
        forall|i: int| from <= i < s.len() - 1 ==> !#[trigger] pair_at(s, i),
    ensures
        gap_at(s, from) is None,
    decreases s.len() - from,
{
    if from + 1 < s.len() {
        assert(!pair_at(s, from as int));
        lemma_gap_at_none(s, from + 1);
    }
}

/// The gap of a text that is two tidy texts, or none, around a pair of
/// colons.
pub proof fn lemma_gap_between(a: Seq<u8>, b: Seq<u8>)
    requires
        a.len() == 0 || tidy(a),
        b.len() == 0 || tidy(b),
    ensures
        gap_at(a + seq![COLON, COLON] + b, 0) == Some(a.len()),
{
    let s = a + seq![COLON, COLON] + b;
    let j = a.len();
    assert forall|i: int| 0 <= i < j implies !#[trigger] pair_at(s, i) by {
        assert(s[i] == a[i]);
        if i < j - 1 {
            assert(!pair_at(a, i));
        }
    }
    lemma_gap_at_is(s, 0, j);
}

/// The groups that a tidy run of groups, or none, is read as.
pub proof fn lemma_read_head(g: Seq<u16>)
    ensures
        (if colon_joined(g).len() == 0 {
            Some(Seq::<u16>::empty())
        } else {
            hex_groups(split(colon_joined(g), COLON))
        }) == Some(g),
        g.len() == 0 <==> colon_joined(g).len() == 0,
        colon_joined(g).len() == 0 || tidy(colon_joined(g)),
{
    if g.len() > 0 {
        lemma_colon_joined(g);
        lemma_split_colon_joined(g);
        lemma_hex_groups_of_fields(g);
    }
}

/// The groups that a tidy run of groups, or none, is read as where its
/// last field might have been in dotted decimal.
pub proof fn lemma_read_tail(g: Seq<u16>)
    ensures
        (if colon_joined(g).len() == 0 {
            Some(Seq::<u16>::empty())
        } else {
            groups(split(colon_joined(g), COLON))
        }) == Some(g),
        g.len() == 0 <==> colon_joined(g).len() == 0,
        colon_joined(g).len() == 0 || tidy(colon_joined(g)),
{
    if g.len() > 0 {
        lemma_colon_joined(g);
        lemma_split_colon_joined(g);
        lemma_groups_of_fields(g);
    }
}

/// The bytes of the groups of sixteen bytes are the sixteen bytes.
pub proof fn lemma_group_bytes(b: Seq<u8>)
    requires
        b.len() == 16,
    ensures
        group_bytes(groups_of(b)) == b,
{
    assert(group_bytes(groups_of(b)) =~= b);
}

/// Dotted decimal holds no colon.
pub proof fn lemma_dotted_no_colon(q: Seq<u8>)
    requires
        q.len() == 4,
    ensures
        free_of(ip4_text(q), COLON),
{
    let t = ip4_text(q);
    lemma_decimal(q[0] as nat);
    lemma_decimal(q[1] as nat);
    lemma_decimal(q[2] as nat);
    lemma_decimal(q[3] as nat);
    let d0 = decimal(q[0] as nat);
    let d1 = decimal(q[1] as nat);
    let d2 = decimal(q[2] as nat);
    let d3 = decimal(q[3] as nat);
    let a = d0.len();
    let b = a + 1 + d1.len();
    let c = b + 1 + d2.len();
    assert forall|i: int| 0 <= i < t.len() implies t[i] != COLON by {
        if i < a {
            assert(is_digit(d0[i]));
        } else if a < i < b {
            assert(is_digit(d1[i - a - 1]));
        } else if b < i < c {
            assert(is_digit(d2[i - b - 1]));
        } else if c < i {
            assert(is_digit(d3[i - c - 1]));
        }
    }
}

/// Reading undoes writing, for an address that stands for a version 4
/// address.
proof fn lemma_mapped_round_trip(b: Seq<u8>)
    requires
        b.len() == 16,
        is_mapped(b),
    ensures
        parse_ip6(mapped_prefix() + ip4_text(b.skip(12))) == Some(b),
{
    let q = b.skip(12);
    let dotted = ip4_text(q);
    let t = mapped_prefix() + dotted;
    let ffff = seq![0x66u8, 0x66u8, 0x66u8, 0x66u8];
    law_ip4_text_round_trip(q);
    lemma_dotted_no_colon(q);
    assert(gap_at(t, 0) == Some(0nat));
    let tail = t.skip(2);
    assert(tail =~= ffff + (seq![COLON] + dotted));
    lemma_separated_one(dotted, COLON);
    lemma_split_of_separated(ffff, seq![dotted], COLON);
    assert(group(ffff) == Some(0xffffu16)) by {
        reveal_with_fuel(hex_value, 5);
    }
    let l = seq![0xffffu16] + quad_groups(q);
    assert(group_bytes(Seq::<u16>::empty() + zeros(5) + l) =~= b);
}

/// Reading undoes writing, for groups written without a gap.
proof fn lemma_plain_round_trip(b: Seq<u8>)
    requires
        b.len() == 16,
    ensures
        parse_ip6(colon_joined(groups_of(b))) == Some(b),
{
    let g = groups_of(b);
    lemma_colon_joined(g);
    lemma_split_colon_joined(g);
    lemma_groups_of_fields(g);
    lemma_gap_at_none(colon_joined(g), 0);
    lemma_group_bytes(b);
}

/// Reading undoes writing, for groups written with a gap in place of a run
/// of zeros.
proof fn lemma_gap_round_trip(b: Seq<u8>, s: int, l: int)
    requires
        b.len() == 16,
        l >= 2,
        zero_run(groups_of(b), s, l),
    ensures
        parse_ip6(
            colon_joined(groups_of(b).take(s)) + seq![COLON, COLON] + colon_joined(
                groups_of(b).skip(s + l),
            ),
        ) == Some(b),
{
    let g = groups_of(b);
    let before = g.take(s);
    let behind = g.skip(s + l);
    let a = colon_joined(before);
    let c = colon_joined(behind);
    let t = a + seq![COLON, COLON] + c;
    lemma_read_head(before);
    lemma_read_tail(behind);
    lemma_gap_between(a, c);
    assert(t.take(a.len() as int) =~= a);
    assert(t.skip(a.len() + 2 as int) =~= c);
    lemma_group_bytes(b);
}

/// Reading undoes writing: the text that is written for sixteen bytes
/// spells the sixteen bytes.
pub proof fn law_ip6_text_round_trip(b: Seq<u8>)
    requires
        b.len() == 16,
    ensures
        parse_ip6(ip6_text(b)) == Some(b),
{
    let g = groups_of(b);
    if is_mapped(b) {
        lemma_mapped_round_trip(b);
    } else if exists|s: int, l: int| left_out(g, s, l) {
        let (s, l) = choose|s: int, l: int| left_out(g, s, l);
        lemma_gap_round_trip(b, s, l);
    } else {
        lemma_plain_round_trip(b);
    }
}

/// The text that is written for sixteen bytes is text written the way
/// this crate writes it.
pub proof fn lemma_plain_ip6(b: Seq<u8>)
    requires
        b.len() == 16,
    ensures
        plain_token(Form::Ip6, ip6_text(b)),
{
    law_ip6_text_round_trip(b);
}

} // verus!
