//! What holds of addresses whatever their segments: reading undoes writing,
//! on the wire and in text, and joining undoes splitting.

use crate::error::ErrorKind;
use crate::multiaddr::addr::{all_single, joined, singles};
use crate::multiaddr::chain::{
    parse_text, parse_tokens, parse_wire, render_text, render_wire, segment_string,
};
use crate::multiaddr::ip4::{ip4_text, octet, parse_ip4, DOT};
use crate::multiaddr::payload::{fits, Payload, SegmentView};
use crate::multiaddr::peer::peer_bytes;
use crate::multiaddr::protocol::{lemma_coded, Form, Protocol};
use crate::multiaddr::segment::{lemma_follow_bounds, segment_decode, segment_parse};
use crate::multiaddr::text_form::{
    segment_text, text_parse, text_render, token_parse, token_render, SLASH,
};
use crate::multiaddr::wire::{
    lemma_port_bytes, lemma_take_prefixed, segment_wire, wire_parse, wire_render,
};
use crate::text::{
    decimal, lemma_decimal, lemma_decimal_of_digits, lemma_separated_concat, lemma_separated_one,
    lemma_split_join, parse_decimal, separated, slashed, split,
};
use crate::varint::{lemma_read_u128_varint, lemma_varint_shape, varint};
use vstd::prelude::*;
use vstd::utf8::*;

verus! {

/// A payload is of a size that memory can hold.
pub open spec fn sized(payload: Payload) -> bool {
    match payload {
        Payload::Bytes(b) => b.len() <= usize::MAX,
        Payload::HashPort(h, _) => h.len() <= usize::MAX,
        Payload::Text(t) => encode_utf8(t).len() <= usize::MAX,
        _ => true,
    }
}

/// A payload as it comes back from the wire: a peer identity that was held
/// as text comes back as the bytes it travelled as; everything else comes
/// back as it was.
pub open spec fn on_wire(form: Form, payload: Payload) -> Payload {
    match (form, payload) {
        (Form::Peer, Payload::Text(t)) => match peer_bytes(t) {
            Ok(b) => Payload::Bytes(b),
            Err(_) => payload,
        },
        _ => payload,
    }
}

/// A segment as it comes back from the wire.
pub open spec fn segment_on_wire(seg: SegmentView) -> SegmentView {
    SegmentView { protocol: seg.protocol, payload: on_wire(seg.protocol.spec_form(), seg.payload) }
}

/// A chain as it comes back from the wire.
pub open spec fn chain_on_wire(chain: Seq<SegmentView>) -> Seq<SegmentView> {
    chain.map_values(|seg: SegmentView| segment_on_wire(seg))
}

/// Every segment of a chain is well formed and of a size that memory can
/// hold, on the wire too.
pub open spec fn holdable(chain: Seq<SegmentView>) -> bool {
    forall|i: int|
        0 <= i < chain.len() ==> (#[trigger] chain[i]).wf() && sized(
            segment_on_wire(chain[i]).payload,
        )
}

/// A payload that was written to the wire is read from it again, whatever
/// follows it, and reading stops where the payload ends.
pub proof fn lemma_payload_wire_round_trip(form: Form, payload: Payload, rest: Seq<u8>)
    requires
        fits(form, payload),
        sized(on_wire(form, payload)),
        wire_render(form, payload) is Ok,
    ensures
        wire_parse(form, wire_render(form, payload)->Ok_0 + rest) == Some(
            (on_wire(form, payload), wire_render(form, payload)->Ok_0.len()),
        ),
{
    let body = wire_render(form, payload)->Ok_0;
    let data = body + rest;
    match (form, payload) {
        (Form::Marker, _) => {},
        (Form::Port, Payload::Port(port)) => {
            lemma_port_bytes(port);
        },
        (Form::Ip4, Payload::Bytes(b)) => {
            assert(data.take(4) =~= b);
        },
        (Form::Ip6, Payload::Bytes(b)) => {
            assert(data.take(16) =~= b);
        },
        (Form::Onion, Payload::HashPort(h, port)) => {
            lemma_port_bytes(port);
            assert(data.take(10) =~= h);
        },
        (Form::Onion3, Payload::HashPort(h, port)) => {
            lemma_port_bytes(port);
            assert(data.take(35) =~= h);
        },
        (Form::Name, Payload::Bytes(b)) => {
            lemma_take_prefixed(b, rest);
        },
        (Form::Garlic32, Payload::Bytes(b)) => {
            lemma_take_prefixed(b, rest);
        },
        (Form::Garlic64, Payload::Bytes(b)) => {
            lemma_take_prefixed(b, rest);
        },
        (Form::Peer, Payload::Bytes(b)) => {
            lemma_take_prefixed(b, rest);
        },
        (Form::Peer, Payload::Text(t)) => {
            lemma_take_prefixed(peer_bytes(t)->Ok_0, rest);
        },
        (Form::Path, Payload::Text(t)) => {
            lemma_take_prefixed(encode_utf8(t), rest);
            encode_utf8_valid_utf8(t);
            encode_utf8_decode_utf8(t);
        },
        _ => {},
    }
}

/// Round trip on the wire, for one segment: a segment that was written to
/// the wire is read from it again, whatever follows it, and reading stops
/// where the segment ends. A peer identity that was held as text comes back
/// as bytes.
pub proof fn law_segment_wire_round_trip(seg: SegmentView, rest: Seq<u8>)
    requires
        seg.wf(),
        sized(segment_on_wire(seg).payload),
        segment_wire(seg.protocol, seg.payload) is Ok,
    ensures
        segment_decode(segment_wire(seg.protocol, seg.payload)->Ok_0 + rest) == Some(
            (segment_on_wire(seg), segment_wire(seg.protocol, seg.payload)->Ok_0.len()),
        ),
        segment_wire(seg.protocol, seg.payload)->Ok_0.len() >= 1,
{
    let form = seg.protocol.spec_form();
    let head = varint(seg.protocol.spec_code() as nat);
    let body = wire_render(form, seg.payload)->Ok_0;
    let data = head + body + rest;
    lemma_read_u128_varint(seg.protocol.spec_code(), body + rest);
    lemma_varint_shape(seg.protocol.spec_code() as nat);
    lemma_coded(seg.protocol);
    assert(data =~= head + (body + rest));
    assert(data.skip(head.len() as int) =~= body + rest);
    lemma_payload_wire_round_trip(form, seg.payload, rest);
}

/// What a chain travels as, said of its first segment and the rest.
pub proof fn lemma_render_wire_unfold(chain: Seq<SegmentView>)
    requires
        chain.len() > 0,
    ensures
        render_wire(chain) == match segment_wire(chain[0].protocol, chain[0].payload) {
            Ok(head) => match render_wire(chain.skip(1)) {
                Ok(tail) => Ok(head + tail),
                Err(k) => Err(k),
            },
            Err(k) => Err::<Seq<u8>, ErrorKind>(k),
        },
{
    let f = |seg: SegmentView| segment_wire(seg.protocol, seg.payload);
    assert(chain.map_values(f).skip(1) =~= chain.skip(1).map_values(f));
}

/// Round trip on the wire: a chain that was written to the wire is read
/// from it again, and nothing is left over. Peer identities that were held
/// as text come back as bytes.
pub proof fn law_wire_round_trip(chain: Seq<SegmentView>)
    requires
        holdable(chain),
        render_wire(chain) is Ok,
    ensures
        parse_wire(render_wire(chain)->Ok_0) == Some(chain_on_wire(chain)),
    decreases chain.len(),
{
    if chain.len() > 0 {
        let seg = chain[0];
        let tail = chain.skip(1);
        lemma_render_wire_unfold(chain);
        let head_bytes = segment_wire(seg.protocol, seg.payload)->Ok_0;
        let tail_bytes = render_wire(tail)->Ok_0;
        law_wire_round_trip(tail);
        law_segment_wire_round_trip(seg, tail_bytes);
        let data = head_bytes + tail_bytes;
        assert(data.skip(head_bytes.len() as int) =~= tail_bytes);
    }
}

/// Splitting and joining: a chain cut into chains of one segment each and
/// put together again is the chain it was.
pub proof fn law_split_join(chain: Seq<SegmentView>)
    ensures
        all_single(singles(chain)),
        joined(singles(chain)) == chain,
{
}

/// One token is written the way this crate writes the payload that the
/// token spells.
pub open spec fn plain_token(form: Form, token: Seq<u8>) -> bool {
    match token_parse(form, token) {
        Some(p) => token_render(form, p) == Ok::<Seq<u8>, ErrorKind>(token),
        None => false,
    }
}

/// The tokens behind a protocol's name are written the way this crate
/// writes the payload that they spell. Nothing can be amiss with no token
/// or with a path.
pub open spec fn plain_payload(form: Form, tokens: Seq<Seq<u8>>) -> bool {
    match form {
        Form::Marker => true,
        Form::Path => true,
        _ => tokens.len() > 0 && plain_token(form, tokens[0]),
    }
}

/// The tokens spell a chain the way this crate writes it: every segment
/// starts with the name of its protocol, neither `ip` nor `ipfs`, and goes
/// on with a payload written the way this crate writes it.
pub open spec fn plain_tokens(tokens: Seq<Seq<u8>>) -> bool
    decreases tokens.len(),
{
    if tokens.len() == 0 {
        true
    } else {
        match Protocol::named(tokens[0]) {
            Some(p) => match text_parse(p.spec_form(), tokens.skip(1)) {
                Some((_, n)) => n < tokens.len() && plain_payload(p.spec_form(), tokens.skip(1))
                    && plain_tokens(tokens.skip(n + 1 as int)),
                None => false,
            },
            None => false,
        }
    }
}

/// The text spells a chain the way this crate writes it.
pub open spec fn plain_text(t: Seq<u8>) -> bool {
    let tokens = split(t, SLASH);
    tokens.len() >= 2 && tokens[0].len() == 0 && plain_tokens(tokens.skip(1))
}

/// The name that finds a protocol is the protocol's name.
pub proof fn lemma_named(token: Seq<u8>)
    ensures
        Protocol::named(token) matches Some(p) ==> token == p.spec_name(),
{
}

/// The two halves of UTF-8 that is cut before an ASCII character are
/// UTF-8.
pub proof fn lemma_valid_halves(a: Seq<u8>, b: Seq<u8>)
    requires
        valid_utf8(a + b),
        b.len() > 0 ==> b[0] < 0x80,
    ensures
        valid_utf8(a),
        valid_utf8(b),
{
    let whole = a + b;
    let at = a.len() as int;
    if b.len() > 0 {
        is_char_boundary_iff_not_is_continuation_byte(whole, at);
        valid_utf8_split(whole, at);
        assert(whole.subrange(0, at) =~= a);
        assert(whole.subrange(at, whole.len() as int) =~= b);
    }
}

/// What a chain is written as, said of its first segment and the rest.
pub proof fn lemma_render_text_unfold(chain: Seq<SegmentView>)
    requires
        chain.len() > 0,
    ensures
        render_text(chain) == match segment_string(chain[0]) {
            Ok(head) => match render_text(chain.skip(1)) {
                Ok(tail) => Ok(head + tail),
                Err(k) => Err(k),
            },
            Err(k) => Err::<Seq<u8>, ErrorKind>(k),
        },
{
    let f = |seg: SegmentView| segment_string(seg);
    assert(chain.map_values(f).skip(1) =~= chain.skip(1).map_values(f));
}

/// Round trip in text, for one payload: a payload that tokens spell the
/// way this crate writes it is written as those tokens, a slash before
/// each.
pub proof fn lemma_payload_text_round_trip(form: Form, tokens: Seq<Seq<u8>>)
    requires
        text_parse(form, tokens) is Some,
        plain_payload(form, tokens),
    ensures
        match text_parse(form, tokens) {
            Some((payload, n)) => text_render(form, payload) == Ok::<Seq<u8>, ErrorKind>(
                slashed(tokens.take(n as int)),
            ),
            None => false,
        },
{
    let (payload, n) = text_parse(form, tokens)->0;
    match form {
        Form::Marker => {},
        Form::Path => {
            assert(tokens.take(tokens.len() as int) =~= tokens);
            decode_utf8_encode_utf8(slashed(tokens));
        },
        _ => {
            assert(tokens.take(1) =~= seq![tokens[0]]);
            lemma_separated_one(tokens[0], SLASH);
        },
    }
}

/// Round trip in text, for one segment: a segment that tokens spell the
/// way this crate writes it is written as those tokens, a slash before
/// each.
pub proof fn law_segment_text_round_trip(tokens: Seq<Seq<u8>>)
    requires
        tokens.len() > 0,
        Protocol::named(tokens[0]) is Some,
        segment_parse(tokens) is Some,
        plain_payload(Protocol::named(tokens[0])->0.spec_form(), tokens.skip(1)),
    ensures
        match segment_parse(tokens) {
            Some((seg, n)) => segment_text(seg.protocol, seg.payload) == Ok::<
                Seq<u8>,
                ErrorKind,
            >(slashed(tokens.take(n as int))),
            None => false,
        },
{
    let p = Protocol::named(tokens[0])->0;
    let rest = tokens.skip(1);
    let (seg, n) = segment_parse(tokens)->0;
    lemma_named(tokens[0]);
    lemma_follow_bounds(p, rest);
    lemma_payload_text_round_trip(p.spec_form(), rest);
    let taken = tokens.take(n as int);
    assert(taken.skip(1) =~= rest.take(n - 1));
}

/// What tokens spell, said of the first segment and the rest.
pub proof fn lemma_parse_tokens_unfold(tokens: Seq<Seq<u8>>)
    requires
        tokens.len() > 0,
        parse_tokens(tokens) is Some,
    ensures
        match segment_parse(tokens) {
            Some((seg, n)) => 1 <= n <= tokens.len() && parse_tokens(tokens.skip(n as int))
                is Some && parse_tokens(tokens) == Some(
                seq![seg] + parse_tokens(tokens.skip(n as int))->0,
            ),
            None => false,
        },
{
}

/// Tokens that spell a chain the way this crate writes it, said of the
/// first segment and the rest.
pub proof fn lemma_plain_tokens_unfold(tokens: Seq<Seq<u8>>)
    requires
        tokens.len() > 0,
        plain_tokens(tokens),
        segment_parse(tokens) is Some,
    ensures
        Protocol::named(tokens[0]) is Some,
        plain_payload(Protocol::named(tokens[0])->0.spec_form(), tokens.skip(1)),
        match segment_parse(tokens) {
            Some((_, n)) => plain_tokens(tokens.skip(n as int)),
            None => false,
        },
{
}

/// One step of the round trip in text: the first segment is written as its
/// tokens, and what is left of the text is the rest of the tokens.
proof fn lemma_tokens_round_trip_step(tokens: Seq<Seq<u8>>, seg: SegmentView, n: nat)
    requires
        tokens.len() > 0,
        1 <= n <= tokens.len(),
        valid_utf8(slashed(tokens)),
        segment_text(seg.protocol, seg.payload) == Ok::<Seq<u8>, ErrorKind>(
            slashed(tokens.take(n as int)),
        ),
    ensures
        segment_string(seg) == Ok::<Seq<u8>, ErrorKind>(slashed(tokens.take(n as int))),
        valid_utf8(slashed(tokens.skip(n as int))),
        slashed(tokens) == slashed(tokens.take(n as int)) + slashed(tokens.skip(n as int)),
{
    let head = tokens.take(n as int);
    let tail = tokens.skip(n as int);
    assert(tokens =~= head + tail);
    lemma_separated_concat(head, tail, SLASH);
    lemma_valid_halves(slashed(head), slashed(tail));
}

/// Round trip in text, on tokens.
pub proof fn lemma_tokens_round_trip(tokens: Seq<Seq<u8>>)
    requires
        parse_tokens(tokens) is Some,
        plain_tokens(tokens),
        valid_utf8(slashed(tokens)),
    ensures
        render_text(parse_tokens(tokens)->0) == Ok::<Seq<u8>, ErrorKind>(slashed(tokens)),
    decreases tokens.len(),
{
    if tokens.len() > 0 {
        lemma_parse_tokens_unfold(tokens);
        lemma_plain_tokens_unfold(tokens);
        law_segment_text_round_trip(tokens);
        match segment_parse(tokens) {
            Some((seg, n)) => {
                let tail = tokens.skip(n as int);
                lemma_tokens_round_trip_step(tokens, seg, n);
                lemma_tokens_round_trip(tail);
                let chain = parse_tokens(tokens)->0;
                let rest = parse_tokens(tail)->0;
                assert(chain.skip(1) =~= rest);
                lemma_render_text_unfold(chain);
            },
            None => {},
        }
    }
}

/// Round trip in text: text that spells a chain the way this crate writes
/// it is what the chain is written as.
pub proof fn law_text_round_trip(t: Seq<u8>)
    requires
        valid_utf8(t),
        parse_text(t) is Some,
        plain_text(t),
    ensures
        render_text(parse_text(t)->0) == Ok::<Seq<u8>, ErrorKind>(t),
{
    let tokens = split(t, SLASH);
    lemma_split_join(t, SLASH);
    lemma_tokens_round_trip(tokens.skip(1));
}

/// A name is written as it was read.
pub proof fn lemma_plain_name(token: Seq<u8>)
    ensures
        plain_token(Form::Name, token),
{
}

/// A peer identity is written as it was read.
pub proof fn lemma_plain_peer(token: Seq<u8>)
    requires
        valid_utf8(token),
    ensures
        plain_token(Form::Peer, token),
{
    decode_utf8_encode_utf8(token);
}

/// A port is written as it was read where it was read without a sign and
/// without leading zeros, and only there.
pub proof fn lemma_plain_port(token: Seq<u8>)
    requires
        parse_decimal(token, 0xffff) is Some,
    ensures
        plain_token(Form::Port, token) <==> (token[0] != 0x2b && (token.len() == 1 || token[0]
            != 0x30)),
{
    let v = parse_decimal(token, 0xffff)->0;
    lemma_decimal(v);
    if token[0] != 0x2b && (token.len() == 1 || token[0] != 0x30) {
        lemma_decimal_of_digits(token);
    }
}

/// One field of dotted decimal is the shortest spelling of its byte.
pub proof fn lemma_octet_decimal(field: Seq<u8>)
    requires
        octet(field) is Some,
    ensures
        decimal(octet(field)->0 as nat) == field,
{
    lemma_decimal_of_digits(field);
}

/// An address in dotted decimal is written as it was read.
pub proof fn lemma_plain_ip4(token: Seq<u8>)
    requires
        parse_ip4(token) is Some,
    ensures
        plain_token(Form::Ip4, token),
{
    let f = split(token, DOT);
    lemma_split_join(token, DOT);
    lemma_octet_decimal(f[0]);
    lemma_octet_decimal(f[1]);
    lemma_octet_decimal(f[2]);
    lemma_octet_decimal(f[3]);
    let r1 = f.skip(1);
    let r2 = r1.skip(1);
    let r3 = r2.skip(1);
    assert(r3 =~= seq![f[3]]);
    lemma_separated_one(f[3], DOT);
    assert(separated(r2, DOT) =~= seq![DOT] + f[2] + separated(r3, DOT));
    let b = parse_ip4(token)->0;
    assert(ip4_text(b) =~= token);
}

/// A payload that tokens spell is one that the shape carries.
pub proof fn lemma_text_parse_fits(form: Form, tokens: Seq<Seq<u8>>)
    ensures
        text_parse(form, tokens) matches Some((payload, _)) ==> fits(form, payload),
{
}

/// A segment that tokens spell is well formed.
pub proof fn lemma_segment_parse_wf(tokens: Seq<Seq<u8>>)
    ensures
        segment_parse(tokens) matches Some((seg, _)) ==> seg.wf(),
{
    if tokens.len() > 0 {
        let rest = tokens.skip(1);
        lemma_text_parse_fits(Form::Ip4, rest);
        lemma_text_parse_fits(Form::Ip6, rest);
        lemma_text_parse_fits(Form::Peer, rest);
        if let Some(p) = Protocol::named(tokens[0]) {
            lemma_text_parse_fits(p.spec_form(), rest);
        }
    }
}

/// Every segment of a chain that tokens spell is well formed.
pub proof fn lemma_parse_tokens_wf(tokens: Seq<Seq<u8>>)
    requires
        parse_tokens(tokens) is Some,
    ensures
        forall|i: int|
            0 <= i < parse_tokens(tokens)->0.len() ==> (#[trigger] parse_tokens(tokens)->0[i]).wf(),
    decreases tokens.len(),
{
    if tokens.len() > 0 {
        lemma_parse_tokens_unfold(tokens);
        lemma_segment_parse_wf(tokens);
        match segment_parse(tokens) {
            Some((seg, n)) => {
                let tail = tokens.skip(n as int);
                lemma_parse_tokens_wf(tail);
            },
            None => {},
        }
    }
}

/// A segment is written the same before and after it went over the wire.
pub open spec fn settled(seg: SegmentView) -> bool {
    segment_string(segment_on_wire(seg)) == segment_string(seg)
}

/// Every segment of the chain is settled, and of a size that memory can
/// hold when it comes back from the wire.
pub open spec fn all_settled(chain: Seq<SegmentView>) -> bool {
    forall|i: int|
        0 <= i < chain.len() ==> settled(#[trigger] chain[i]) && sized(
            segment_on_wire(chain[i]).payload,
        )
}

/// Only a peer identity held as text may be written otherwise once it went
/// over the wire.
pub proof fn lemma_settled(seg: SegmentView)
    requires
        !(seg.protocol.spec_form() == Form::Peer && seg.payload is Text),
    ensures
        settled(seg),
        segment_on_wire(seg) == seg,
{
}

/// Text, wire and text again: where text spells a chain the way this crate
/// writes it, and the chain is written the same once it went over the wire,
/// the bytes of the chain hold a chain that is written as the text.
pub proof fn law_cross_representation(t: Seq<u8>, b: Seq<u8>)
    requires
        valid_utf8(t),
        plain_text(t),
        parse_text(t) is Some,
        all_settled(parse_text(t)->0),
        render_wire(parse_text(t)->0) == Ok::<Seq<u8>, ErrorKind>(b),
    ensures
        parse_wire(b) is Some,
        render_text(parse_wire(b)->0) == Ok::<Seq<u8>, ErrorKind>(t),
{
    let chain = parse_text(t)->0;
    let tokens = split(t, SLASH);
    lemma_parse_tokens_wf(tokens.skip(1));
    law_wire_round_trip(chain);
    law_text_round_trip(t);
    let back = chain_on_wire(chain);
    let f = |seg: SegmentView| segment_string(seg);
    assert(back.map_values(f) =~= chain.map_values(f));
}

} // verus!
