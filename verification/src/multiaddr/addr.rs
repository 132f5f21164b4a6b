//! Addresses: text or bytes that nobody has looked into yet, or a chain of
//! segments.

use crate::error::{fails_with, Error, ErrorKind};
use crate::multiaddr::chain::{
    lemma_parse_tokens_step, lemma_parse_wire_step, lemma_render_text_prefix,
    lemma_render_text_push, lemma_render_wire_prefix, lemma_render_wire_push, parse_text,
    parse_tokens, parse_wire, render_text, render_wire, segment_string, with_front,
};
use crate::multiaddr::payload::SegmentView;
use crate::multiaddr::protocol::Protocol;
use crate::multiaddr::segment::Segment;
use crate::multiaddr::text_form::{bad_addr, into_text, skip_tokens, text_outcome, SLASH};
use crate::multiaddr::wire::bytes_outcome;
use crate::multicodec::Multicodec;
use crate::text::{append, split_bytes, string_bytes, views};
use vstd::prelude::*;
use vstd::slice::*;
use vstd::string::*;
use vstd::utf8::*;

verus! {

/// An address.
#[derive(Clone, Debug, PartialEq, Eq)]
pub enum Multiaddr {
    /// Text, not parsed.
    Text(String),
    /// Bytes, not decoded.
    Binary(Vec<u8>),
    /// Segments, in the order of the address.
    Chain(Vec<Segment>),
}

/// An address as contracts see it.
pub enum MultiaddrView {
    /// The bytes of text, not parsed.
    Text(Seq<u8>),
    /// Bytes, not decoded.
    Binary(Seq<u8>),
    /// Segments, in the order of the address.
    Chain(Seq<SegmentView>),
}

/// The views of segments.
pub open spec fn segment_views(segments: Seq<Segment>) -> Seq<SegmentView> {
    segments.map_values(|s: Segment| s@)
}

impl View for Multiaddr {
    type V = MultiaddrView;

    open spec fn view(&self) -> MultiaddrView {
        match self {
            Multiaddr::Text(t) => MultiaddrView::Text(encode_utf8(t@)),
            Multiaddr::Binary(b) => MultiaddrView::Binary(b@),
            Multiaddr::Chain(c) => MultiaddrView::Chain(segment_views(c@)),
        }
    }
}

/// The chain that an address stands for: the chain it is, or the one that
/// its text or its bytes spell. Text that spells none is a `BadAddr`, bytes
/// that hold none a `DecodeError`.
pub open spec fn structure(v: MultiaddrView) -> Result<Seq<SegmentView>, ErrorKind> {
    match v {
        MultiaddrView::Text(t) => match parse_text(t) {
            Some(c) => Ok(c),
            None => Err(ErrorKind::BadAddr),
        },
        MultiaddrView::Binary(b) => match parse_wire(b) {
            Some(c) => Ok(c),
            None => Err(ErrorKind::DecodeError),
        },
        MultiaddrView::Chain(c) => Ok(c),
    }
}

/// The chain starts with a bare layer of the Internet protocol, and what
/// follows, if anything does, is one segment of TCP or UDP.
pub open spec fn thin_waist(c: Seq<SegmentView>) -> bool {
    c.len() >= 1 && (c[0].protocol == Protocol::Ip4 || c[0].protocol == Protocol::Ip6) && (c.len()
        == 1 || (c.len() == 2 && (c[1].protocol == Protocol::Tcp || c[1].protocol
        == Protocol::Udp)))
}

/// Every address is a chain of exactly one segment.
pub open spec fn all_single(parts: Seq<MultiaddrView>) -> bool {
    forall|i: int|
        0 <= i < parts.len() ==> (#[trigger] parts[i] matches MultiaddrView::Chain(c) && c.len()
            == 1)
}

/// The segments of addresses that are chains of one segment each.
pub open spec fn joined(parts: Seq<MultiaddrView>) -> Seq<SegmentView> {
    Seq::new(parts.len(), |i: int| parts[i]->Chain_0[0])
}

/// The views of addresses.
pub open spec fn addr_views(addrs: Seq<Multiaddr>) -> Seq<MultiaddrView> {
    addrs.map_values(|a: Multiaddr| a@)
}

/// A chain cut into chains of one segment each.
pub open spec fn singles(c: Seq<SegmentView>) -> Seq<MultiaddrView> {
    Seq::new(c.len(), |i: int| MultiaddrView::Chain(seq![c[i]]))
}

/// The elements of `v` in the opposite order.
fn reversed<T>(v: Vec<T>) -> (r: Vec<T>)
    ensures
        r@ == v@.reverse(),
{
    let mut v = v;
    let ghost all = v@;
    let mut r: Vec<T> = Vec::new();
    while v.len() > 0
        invariant
            v@.len() <= all.len(),
            v@ == all.take(v@.len() as int),
            r@.len() == all.len() - v@.len(),
            forall|i: int| 0 <= i < r@.len() ==> r@[i] == all[all.len() - 1 - i],
        decreases v@.len(),
    {
        match v.pop() {
            Some(x) => {
                r.push(x);
            },
            None => {},
        }
    }
    r
}

impl Multiaddr {
    /// The address with no segment.
    pub fn empty() -> (a: Multiaddr)
        ensures
            a@ == MultiaddrView::Chain(Seq::empty()),
    {
        let c: Vec<Segment> = Vec::new();
        assert(segment_views(c@) =~= Seq::<SegmentView>::empty());
        Multiaddr::Chain(c)
    }

    /// The chain of the given segments.
    pub fn from_segments(segments: Vec<Segment>) -> (a: Multiaddr)
        ensures
            a@ == MultiaddrView::Chain(segment_views(segments@)),
    {
        Multiaddr::Chain(segments)
    }

    /// The chain that `text` spells. `BadAddr` where the text does not start
    /// with a slash, has nothing behind it, names a protocol that is none,
    /// or spells a payload that is none.
    pub fn from_text(text: &str) -> (r: Result<Multiaddr, Error>)
        ensures
            match parse_text(text.spec_bytes()) {
                Some(c) => r matches Ok(a) && a@ == MultiaddrView::Chain(c),
                None => fails_with(r, ErrorKind::BadAddr),
            },
    {
        match Multiaddr::parse_text_bytes(text.as_bytes()) {
            Ok(segments) => Ok(Multiaddr::Chain(segments)),
            Err(e) => Err(e),
        }
    }

    /// The segments that the bytes of a text spell.
    pub fn parse_text_bytes(text: &[u8]) -> (r: Result<Vec<Segment>, Error>)
        ensures
            match parse_text(text@) {
                Some(c) => r matches Ok(s) && segment_views(s@) == c,
                None => fails_with(r, ErrorKind::BadAddr),
            },
    {
        let tokens = split_bytes(text, SLASH);
        if tokens[0].len() != 0 {
            return Err(bad_addr("multiaddr", "must start with '/'"));
        }
        if tokens.len() < 2 {
            return Err(bad_addr("multiaddr", "empty multiaddr"));
        }
        match Multiaddr::parse_text_parts(skip_tokens(tokens.as_slice(), 1)) {
            Ok((segments, _)) => Ok(segments),
            Err(e) => Err(e),
        }
    }

    /// The segments that `parts` spell, and the tokens that are left: none.
    /// `BadAddr` where `parts` spell no chain.
    pub fn parse_text_parts<'a, 'b>(parts: &'a [&'b [u8]]) -> (r: Result<
        (Vec<Segment>, &'a [&'b [u8]]),
        Error,
    >)
        ensures
            match parse_tokens(views(parts@)) {
                Some(c) => r matches Ok((s, rest)) && segment_views(s@) == c && rest@.len() == 0,
                None => fails_with(r, ErrorKind::BadAddr),
            },
    {
        let mut segments: Vec<Segment> = Vec::new();
        let mut rest = parts;
        let ghost whole = parse_tokens(views(parts@));
        while rest.len() > 0
            invariant
                whole == parse_tokens(views(parts@)),
                whole == with_front(segment_views(segments@), parse_tokens(views(rest@))),
            decreases rest@.len(),
        {
            proof {
                lemma_parse_tokens_step(segment_views(segments@), views(rest@));
            }
            match Segment::from_text(rest) {
                Ok((seg, tail)) => {
                    segments.push(seg);
                    assert(views(tail@) =~= views(rest@).skip(rest@.len() - tail@.len()));
                    rest = tail;
                },
                Err(e) => {
                    return Err(e);
                },
            }
        }
        assert(segment_views(segments@) + Seq::<SegmentView>::empty() =~= segment_views(
            segments@,
        ));
        Ok((segments, rest))
    }

    /// The chain that `data` holds, and the bytes that are left: none.
    /// `DecodeError` where `data` ends within a segment or holds a number
    /// that stands for no protocol of addresses.
    pub fn decode(data: &[u8]) -> (r: Result<(Multiaddr, &[u8]), Error>)
        ensures
            match parse_wire(data@) {
                Some(c) => r matches Ok((a, rest)) && a@ == MultiaddrView::Chain(c) && rest@.len()
                    == 0,
                None => fails_with(r, ErrorKind::DecodeError),
            },
    {
        let mut segments: Vec<Segment> = Vec::new();
        let mut rest = data;
        let ghost whole = parse_wire(data@);
        while rest.len() > 0
            invariant
                whole == parse_wire(data@),
                whole == with_front(segment_views(segments@), parse_wire(rest@)),
            decreases rest@.len(),
        {
            proof {
                lemma_parse_wire_step(segment_views(segments@), rest@);
            }
            match Segment::decode(rest) {
                Ok((seg, tail)) => {
                    segments.push(seg);
                    rest = tail;
                },
                Err(e) => {
                    return Err(e);
                },
            }
        }
        assert(segment_views(segments@) + Seq::<SegmentView>::empty() =~= segment_views(
            segments@,
        ));
        Ok((Multiaddr::Chain(segments), rest))
    }

    /// The chain that the address stands for, in place of text or bytes.
    /// Fails as reading the text or the bytes does.
    pub fn parse(self) -> (r: Result<Multiaddr, Error>)
        ensures
            match structure(self@) {
                Ok(c) => r matches Ok(a) && a@ == MultiaddrView::Chain(c),
                Err(k) => fails_with(r, k),
            },
    {
        match self {
            Multiaddr::Text(text) => Multiaddr::from_text(text.as_str()),
            Multiaddr::Binary(data) => match Multiaddr::decode(data.as_slice()) {
                Ok((a, _)) => Ok(a),
                Err(e) => Err(e),
            },
            Multiaddr::Chain(c) => Ok(Multiaddr::Chain(c)),
        }
    }

    /// What the segments are written as, one after the other.
    pub fn segments_text(segments: &[Segment]) -> (r: Result<Vec<u8>, Error>)
        ensures
            match render_text(segment_views(segments@)) {
                Ok(t) => r matches Ok(out) && out@ == t && valid_utf8(t),
                Err(k) => fails_with(r, k),
            },
    {
        let ghost all = segment_views(segments@);
        let mut out: Vec<u8> = Vec::new();
        let mut i: usize = 0;
        while i < segments.len()
            invariant
                i <= segments@.len(),
                all == segment_views(segments@),
                render_text(all.take(i as int)) == Ok::<Seq<u8>, ErrorKind>(out@),
                valid_utf8(out@),
            decreases segments@.len() - i,
        {
            let ghost seg = segments@[i as int]@;
            proof {
                assert(all.take(i + 1) =~= all.take(i as int).push(seg));
                lemma_render_text_push(all.take(i as int), seg);
                lemma_render_text_prefix(all, (i + 1) as nat);
            }
            match segments[i].to_text() {
                Ok(s) => {
                    let ghost before = out@;
                    let piece = string_bytes(&s);
                    proof {
                        let t = segment_string(seg)->Ok_0;
                        decode_utf8_encode_utf8(t);
                        valid_utf8_concat(before, t);
                    }
                    append(&mut out, piece);
                },
                Err(e) => {
                    return Err(e);
                },
            }
            i = i + 1;
        }
        assert(all.take(segments@.len() as int) =~= all);
        Ok(out)
    }

    /// The address in text. Text and bytes are read first, and fail as
    /// reading them does; then the chain is written, and fails where a
    /// segment cannot be written.
    pub fn to_text(&self) -> (r: Result<String, Error>)
        ensures
            match structure(self@) {
                Ok(c) => text_outcome(r, render_text(c)),
                Err(k) => fails_with(r, k),
            },
    {
        let rendered = match self {
            Multiaddr::Text(text) => match Multiaddr::parse_text_bytes(string_bytes(text)) {
                Ok(segments) => Multiaddr::segments_text(segments.as_slice()),
                Err(e) => {
                    return Err(e);
                },
            },
            Multiaddr::Binary(data) => match Multiaddr::decode(data.as_slice()) {
                Ok((Multiaddr::Chain(segments), _)) => Multiaddr::segments_text(
                    segments.as_slice(),
                ),
                Ok(_) => {
                    return Err(Error::new(ErrorKind::Fatal, "multiaddr", "decoded to no chain"));
                },
                Err(e) => {
                    return Err(e);
                },
            },
            Multiaddr::Chain(segments) => Multiaddr::segments_text(segments.as_slice()),
        };
        match rendered {
            Ok(bytes) => into_text(bytes, "multiaddr"),
            Err(e) => Err(e),
        }
    }

    /// What the segments travel as, one after the other.
    pub fn segments_wire(segments: &[Segment]) -> (r: Result<Vec<u8>, Error>)
        ensures
            bytes_outcome(r, render_wire(segment_views(segments@))),
    {
        let ghost all = segment_views(segments@);
        let mut out: Vec<u8> = Vec::new();
        let mut i: usize = 0;
        while i < segments.len()
            invariant
                i <= segments@.len(),
                all == segment_views(segments@),
                render_wire(all.take(i as int)) == Ok::<Seq<u8>, ErrorKind>(out@),
            decreases segments@.len() - i,
        {
            let ghost seg = segments@[i as int]@;
            proof {
                assert(all.take(i + 1) =~= all.take(i as int).push(seg));
                lemma_render_wire_push(all.take(i as int), seg);
                lemma_render_wire_prefix(all, (i + 1) as nat);
            }
            match segments[i].encode() {
                Ok(piece) => {
                    append(&mut out, piece.as_slice());
                },
                Err(e) => {
                    return Err(e);
                },
            }
            i = i + 1;
        }
        assert(all.take(segments@.len() as int) =~= all);
        Ok(out)
    }

    /// The address on the wire. Text and bytes are read first, and fail as
    /// reading them does; then the chain is turned into bytes, and fails
    /// where a segment cannot be.
    pub fn encode(&self) -> (r: Result<Vec<u8>, Error>)
        ensures
            match structure(self@) {
                Ok(c) => bytes_outcome(r, render_wire(c)),
                Err(k) => fails_with(r, k),
            },
    {
        match self {
            Multiaddr::Text(text) => match Multiaddr::parse_text_bytes(string_bytes(text)) {
                Ok(segments) => Multiaddr::segments_wire(segments.as_slice()),
                Err(e) => Err(e),
            },
            Multiaddr::Binary(data) => match Multiaddr::decode(data.as_slice()) {
                Ok((Multiaddr::Chain(segments), _)) => Multiaddr::segments_wire(
                    segments.as_slice(),
                ),
                Ok(_) => Err(Error::new(ErrorKind::Fatal, "multiaddr", "decoded to no chain")),
                Err(e) => Err(e),
            },
            Multiaddr::Chain(segments) => Multiaddr::segments_wire(segments.as_slice()),
        }
    }

    /// The number of the protocol of the first segment. None for text, for
    /// bytes, and for a chain without a segment.
    pub fn to_multicodec(&self) -> (r: Option<Multicodec>)
        ensures
            match self@ {
                MultiaddrView::Chain(c) => if c.len() > 0 {
                    r matches Some(codec) && codec@ == c[0].protocol.spec_code()
                } else {
                    r is None
                },
                _ => r is None,
            },
    {
        match self {
            Multiaddr::Chain(segments) => if segments.len() > 0 {
                Some(segments[0].to_multicodec())
            } else {
                None
            },
            _ => None,
        }
    }

    /// The address cut into addresses of one segment each, in the order of
    /// the segments. Text and bytes are read first, and fail as reading them
    /// does.
    pub fn split(self) -> (r: Result<Vec<Multiaddr>, Error>)
        ensures
            match structure(self@) {
                Ok(c) => r matches Ok(parts) && addr_views(parts@) == singles(c),
                Err(k) => fails_with(r, k),
            },
    {
        let chain = match self.parse() {
            Ok(a) => a,
            Err(e) => {
                return Err(e);
            },
        };
        let segments = match chain {
            Multiaddr::Chain(segments) => segments,
            _ => {
                return Err(Error::new(ErrorKind::Fatal, "multiaddr", "parsed to no chain"));
            },
        };
        let ghost c = segment_views(segments@);
        let mut back = reversed(segments);
        let mut parts: Vec<Multiaddr> = Vec::new();
        let ghost n = c.len();
        while back.len() > 0
            invariant
                n == c.len(),
                parts@.len() + back@.len() == n,
                forall|i: int| 0 <= i < back@.len() ==> (#[trigger] back@[i])@ == c[n - 1 - i],
                forall|i: int|
                    0 <= i < parts@.len() ==> (#[trigger] parts@[i])@ == MultiaddrView::Chain(
                        seq![c[i]],
                    ),
            decreases back@.len(),
        {
            let ghost k = parts@.len();
            match back.pop() {
                Some(seg) => {
                    let mut one: Vec<Segment> = Vec::new();
                    one.push(seg);
                    assert(segment_views(one@) =~= seq![c[k as int]]);
                    parts.push(Multiaddr::Chain(one));
                },
                None => {},
            }
        }
        Ok(parts)
    }

    /// The chain of the segments of `components`, in their order. `Invalid`
    /// where one of them is not a chain of exactly one segment.
    pub fn join(components: Vec<Multiaddr>) -> (r: Result<Multiaddr, Error>)
        ensures
            if all_single(addr_views(components@)) {
                r matches Ok(a) && a@ == MultiaddrView::Chain(joined(addr_views(components@)))
            } else {
                fails_with(r, ErrorKind::Invalid)
            },
    {
        let ghost given = components@;
        let ghost all = addr_views(given);
        let ghost n = all.len();
        let mut back = reversed(components);
        let mut segments: Vec<Segment> = Vec::new();
        while back.len() > 0
            invariant
                given == components@,
                all == addr_views(given),
                n == all.len(),
                segments@.len() + back@.len() == n,
                forall|i: int| 0 <= i < back@.len() ==> (#[trigger] back@[i])@ == all[n - 1 - i],
                forall|i: int|
                    0 <= i < segments@.len() ==> (#[trigger] all[i] matches MultiaddrView::Chain(
                        c,
                    ) && c.len() == 1 && c[0] == segments@[i]@),
            decreases back@.len(),
        {
            let ghost k = segments@.len();
            match back.pop() {
                Some(part) => {
                    let seg = match part {
                        Multiaddr::Chain(mut one) => {
                            if one.len() != 1 {
                                assert(!all_single(all)) by {
                                    assert(all[k as int] == MultiaddrView::Chain(
                                        segment_views(one@),
                                    ));
                                }
                                return Err(
                                    Error::new(ErrorKind::Invalid, "multiaddr", "can't join"),
                                );
                            }
                            match one.pop() {
                                Some(seg) => {
                                    seg
                                },
                                None => {
                                    return Err(
                                        Error::new(ErrorKind::Invalid, "multiaddr", "can't join"),
                                    );
                                },
                            }
                        },
                        _ => {
                            return Err(Error::new(ErrorKind::Invalid, "multiaddr", "can't join"));
                        },
                    };
                    segments.push(seg);
                },
                None => {},
            }
        }
        assert(segment_views(segments@) =~= joined(all));
        Ok(Multiaddr::Chain(segments))
    }

    /// Whether the address is a chain that starts with a bare layer of the
    /// Internet protocol, followed by nothing or by one segment of TCP or
    /// UDP. Text and bytes are not looked into: for them the answer is no.
    pub fn is_thin_wait(&self) -> (r: bool)
        ensures
            r == (self@ matches MultiaddrView::Chain(c) && thin_waist(c)),
    {
        match self {
            Multiaddr::Chain(segments) => {
                if segments.len() < 1 || segments.len() > 2 {
                    return false;
                }
                let head = match segments[0].protocol() {
                    Protocol::Ip4 => true,
                    Protocol::Ip6 => true,
                    _ => false,
                };
                if !head {
                    return false;
                }
                if segments.len() == 1 {
                    return true;
                }
                match segments[1].protocol() {
                    Protocol::Tcp => true,
                    Protocol::Udp => true,
                    _ => false,
                }
            },
            _ => false,
        }
    }
}

} // verus!
