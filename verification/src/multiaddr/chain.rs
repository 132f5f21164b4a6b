//! Chains of segments: what a text and what a buffer spell, and what a
//! chain is written as.

use crate::error::ErrorKind;
use crate::multiaddr::payload::SegmentView;
use crate::multiaddr::segment::{
    lemma_segment_decode_bounds, lemma_segment_parse_bounds, segment_decode, segment_parse,
};
use crate::multiaddr::text_form::{segment_text, SLASH};
use crate::multiaddr::wire::segment_wire;
use crate::text::split;
use vstd::prelude::*;
use vstd::utf8::*;

verus! {

/// The chain that `tokens` spell, segment after segment until none is
/// left.
pub open spec fn parse_tokens(tokens: Seq<Seq<u8>>) -> Option<Seq<SegmentView>>
    decreases tokens.len(),
{
    if tokens.len() == 0 {
        Some(Seq::empty())
    } else {
        match segment_parse(tokens) {
            Some((seg, n)) => if 1 <= n <= tokens.len() {
                match parse_tokens(tokens.skip(n as int)) {
                    Some(rest) => Some(seq![seg] + rest),
                    None => None,
                }
            } else {
                None
            },
            None => None,
        }
    }
}

/// The chain that the text `t` spells. The text is cut at its slashes; it
/// must start with one, so that the first piece is empty, and what follows
/// must spell a chain of at least one token.
pub open spec fn parse_text(t: Seq<u8>) -> Option<Seq<SegmentView>> {
    let tokens = split(t, SLASH);
    if tokens.len() >= 2 && tokens[0].len() == 0 {
        parse_tokens(tokens.skip(1))
    } else {
        None
    }
}

/// The chain that the buffer `data` holds, segment after segment until the
/// buffer is used up.
pub open spec fn parse_wire(data: Seq<u8>) -> Option<Seq<SegmentView>>
    decreases data.len(),
{
    if data.len() == 0 {
        Some(Seq::empty())
    } else {
        match segment_decode(data) {
            Some((seg, n)) => if 1 <= n <= data.len() {
                match parse_wire(data.skip(n as int)) {
                    Some(rest) => Some(seq![seg] + rest),
                    None => None,
                }
            } else {
                None
            },
            None => None,
        }
    }
}

/// What a segment is written as, where that is text: a segment whose
/// writing is not UTF-8 is a `DecodeError`.
pub open spec fn segment_string(seg: SegmentView) -> Result<Seq<u8>, ErrorKind> {
    match segment_text(seg.protocol, seg.payload) {
        Ok(t) => if valid_utf8(t) {
            Ok(t)
        } else {
            Err(ErrorKind::DecodeError)
        },
        Err(k) => Err(k),
    }
}

/// The pieces one after the other, where every piece is there; else the
/// failure of the first piece that is not.
pub open spec fn concat_all(pieces: Seq<Result<Seq<u8>, ErrorKind>>) -> Result<
    Seq<u8>,
    ErrorKind,
>
    decreases pieces.len(),
{
    if pieces.len() == 0 {
        Ok(Seq::empty())
    } else {
        match pieces[0] {
            Ok(head) => match concat_all(pieces.skip(1)) {
                Ok(tail) => Ok(head + tail),
                Err(k) => Err(k),
            },
            Err(k) => Err(k),
        }
    }
}

/// What a chain is written as: its segments, one after the other. The
/// first segment that cannot be written decides the failure.
pub open spec fn render_text(chain: Seq<SegmentView>) -> Result<Seq<u8>, ErrorKind> {
    concat_all(chain.map_values(|seg: SegmentView| segment_string(seg)))
}

/// What a chain travels as: its segments, one after the other. The first
/// segment that cannot be turned into bytes decides the failure.
pub open spec fn render_wire(chain: Seq<SegmentView>) -> Result<Seq<u8>, ErrorKind> {
    concat_all(chain.map_values(|seg: SegmentView| segment_wire(seg.protocol, seg.payload)))
}

/// One more piece at the end.
pub proof fn lemma_concat_all_push(
    pieces: Seq<Result<Seq<u8>, ErrorKind>>,
    last: Result<Seq<u8>, ErrorKind>,
)
    ensures
        concat_all(pieces.push(last)) == match concat_all(pieces) {
            Ok(head) => match last {
                Ok(tail) => Ok(head + tail),
                Err(k) => Err(k),
            },
            Err(k) => Err(k),
        },
    decreases pieces.len(),
{
    let whole = pieces.push(last);
    if pieces.len() == 0 {
        assert(concat_all(whole.skip(1)) == Ok::<Seq<u8>, ErrorKind>(Seq::empty()));
    } else {
        lemma_concat_all_push(pieces.skip(1), last);
        assert(whole.skip(1) =~= pieces.skip(1).push(last));
        if let Ok(h) = pieces[0] {
            if let Ok(m) = concat_all(pieces.skip(1)) {
                if let Ok(t) = last {
                    assert(h + (m + t) =~= (h + m) + t);
                }
            }
        }
    }
}

/// A failure among the first pieces is the failure of all.
pub proof fn lemma_concat_all_prefix(pieces: Seq<Result<Seq<u8>, ErrorKind>>, n: nat)
    requires
        n <= pieces.len(),
    ensures
        concat_all(pieces.take(n as int)) matches Err(k) ==> concat_all(pieces) == Err::<
            Seq<u8>,
            ErrorKind,
        >(k),
    decreases n,
{
    if n > 0 {
        let front = pieces.take(n as int);
        assert(front.skip(1) =~= pieces.skip(1).take(n - 1));
        lemma_concat_all_prefix(pieces.skip(1), (n - 1) as nat);
    }
}

/// Two runs of pieces, one after the other.
pub proof fn lemma_concat_all_concat(
    a: Seq<Result<Seq<u8>, ErrorKind>>,
    b: Seq<Result<Seq<u8>, ErrorKind>>,
)
    ensures
        concat_all(a + b) == match concat_all(a) {
            Ok(head) => match concat_all(b) {
                Ok(tail) => Ok(head + tail),
                Err(k) => Err(k),
            },
            Err(k) => Err(k),
        },
    decreases b.len(),
{
    if b.len() > 0 {
        let init = b.drop_last();
        lemma_concat_all_concat(a, init);
        assert(b =~= init.push(b.last()));
        lemma_concat_all_push(a + init, b.last());
        lemma_concat_all_push(init, b.last());
        if let Ok(h) = concat_all(a) {
            if let Ok(m) = concat_all(init) {
                if let Ok(t) = b.last() {
                    assert(h + (m + t) =~= (h + m) + t);
                }
            }
        }
    }
}

/// Writing a chain with one more segment at its end.
pub proof fn lemma_render_text_push(chain: Seq<SegmentView>, seg: SegmentView)
    ensures
        render_text(chain.push(seg)) == match render_text(chain) {
            Ok(head) => match segment_string(seg) {
                Ok(tail) => Ok(head + tail),
                Err(k) => Err(k),
            },
            Err(k) => Err(k),
        },
{
    let f = |s: SegmentView| segment_string(s);
    assert(chain.push(seg).map_values(f) =~= chain.map_values(f).push(segment_string(seg)));
    lemma_concat_all_push(chain.map_values(f), segment_string(seg));
}

/// The bytes of a chain with one more segment at its end.
pub proof fn lemma_render_wire_push(chain: Seq<SegmentView>, seg: SegmentView)
    ensures
        render_wire(chain.push(seg)) == match render_wire(chain) {
            Ok(head) => match segment_wire(seg.protocol, seg.payload) {
                Ok(tail) => Ok(head + tail),
                Err(k) => Err(k),
            },
            Err(k) => Err(k),
        },
{
    let f = |s: SegmentView| segment_wire(s.protocol, s.payload);
    assert(chain.push(seg).map_values(f) =~= chain.map_values(f).push(
        segment_wire(seg.protocol, seg.payload),
    ));
    lemma_concat_all_push(chain.map_values(f), segment_wire(seg.protocol, seg.payload));
}

/// Where the first segments of a chain cannot be written, the chain cannot.
pub proof fn lemma_render_text_prefix(chain: Seq<SegmentView>, n: nat)
    requires
        n <= chain.len(),
    ensures
        render_text(chain.take(n as int)) matches Err(k) ==> render_text(chain) == Err::<
            Seq<u8>,
            ErrorKind,
        >(k),
{
    let f = |s: SegmentView| segment_string(s);
    assert(chain.take(n as int).map_values(f) =~= chain.map_values(f).take(n as int));
    lemma_concat_all_prefix(chain.map_values(f), n);
}

/// Where the first segments of a chain cannot travel, the chain cannot.
pub proof fn lemma_render_wire_prefix(chain: Seq<SegmentView>, n: nat)
    requires
        n <= chain.len(),
    ensures
        render_wire(chain.take(n as int)) matches Err(k) ==> render_wire(chain) == Err::<
            Seq<u8>,
            ErrorKind,
        >(k),
{
    let f = |s: SegmentView| segment_wire(s.protocol, s.payload);
    assert(chain.take(n as int).map_values(f) =~= chain.map_values(f).take(n as int));
    lemma_concat_all_prefix(chain.map_values(f), n);
}

/// What the tokens spell with the segments already read put in front, as
/// a reader that goes segment by segment keeps it.
pub open spec fn with_front(front: Seq<SegmentView>, rest: Option<Seq<SegmentView>>) -> Option<
    Seq<SegmentView>,
> {
    match rest {
        Some(r) => Some(front + r),
        None => None,
    }
}

/// One step of reading tokens: the first segment goes to the front.
pub proof fn lemma_parse_tokens_step(front: Seq<SegmentView>, tokens: Seq<Seq<u8>>)
    requires
        tokens.len() > 0,
    ensures
        match segment_parse(tokens) {
            Some((seg, n)) => 1 <= n <= tokens.len() && with_front(front, parse_tokens(tokens))
                == with_front(front.push(seg), parse_tokens(tokens.skip(n as int))),
            None => parse_tokens(tokens) is None,
        },
{
    lemma_segment_parse_bounds(tokens);
}

/// One step of reading bytes: the first segment goes to the front.
pub proof fn lemma_parse_wire_step(front: Seq<SegmentView>, data: Seq<u8>)
    requires
        data.len() > 0,
    ensures
        match segment_decode(data) {
            Some((seg, n)) => 1 <= n <= data.len() && with_front(front, parse_wire(data))
                == with_front(front.push(seg), parse_wire(data.skip(n as int))),
            None => parse_wire(data) is None,
        },
{
    lemma_segment_decode_bounds(data);
}

} // verus!
