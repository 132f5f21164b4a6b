//! One segment of an address: a protocol and its payload.

use crate::error::{fails_with, Error, ErrorKind};
use crate::multiaddr::dccp::Dccp;
use crate::multiaddr::dns::Dns;
use crate::multiaddr::dns4::Dns4;
use crate::multiaddr::dns6::Dns6;
use crate::multiaddr::dnsaddr::Dnsaddr;
use crate::multiaddr::garlic32::Garlic32;
use crate::multiaddr::garlic64::Garlic64;
use crate::multiaddr::http::Http;
use crate::multiaddr::https::Https;
use crate::multiaddr::ip4::Ip4;
use crate::multiaddr::ip6::Ip6;
use crate::multiaddr::ip6zone::Ip6zone;
use crate::multiaddr::onion::Onion;
use crate::multiaddr::onion3::Onion3;
use crate::multiaddr::p2p::P2p;
use crate::multiaddr::p2p_circuit::P2pCircuit;
use crate::multiaddr::p2p_webrtc_direct::P2pWebRtcDirect;
use crate::multiaddr::quic::Quic;
use crate::multiaddr::sctp::Sctp;
use crate::multiaddr::tcp::Tcp;
use crate::multiaddr::udp::Udp;
use crate::multiaddr::udt::Udt;
use crate::multiaddr::unix::Unix;
use crate::multiaddr::utp::Utp;
use crate::multiaddr::ws::Ws;
use crate::multiaddr::wss::Wss;
use crate::multiaddr::payload::SegmentView;
use crate::multiaddr::protocol::{Form, Protocol};
use crate::multiaddr::text_form::{
    bad_addr, segment_text, skip_tokens, text_outcome, text_parse,
};
use crate::multiaddr::wire::{bytes_outcome, segment_wire, wire_parse};
use crate::multicodec::Multicodec;
use crate::text::{same_bytes, views};
use crate::varint::{lemma_read_bounds, read_u128, span_u128, Reading, LIMIT_U128};
use vstd::prelude::*;
use vstd::string::*;
use vstd::utf8::*;

verus! {

/// A segment.
#[derive(Clone, Debug, PartialEq, Eq)]
pub enum Segment {
    /// Internet protocol, version 4.
    Ip4(Ip4),
    /// Internet protocol, version 6.
    Ip6(Ip6),
    /// Transmission control protocol.
    Tcp(Tcp),
    /// Domain name, to be resolved to either kind of address.
    Dns(Dns),
    /// Domain name, to be resolved to a version 4 address.
    Dns4(Dns4),
    /// Domain name, to be resolved to a version 6 address.
    Dns6(Dns6),
    /// Domain name whose records hold whole addresses.
    Dnsaddr(Dnsaddr),
    /// User datagram protocol.
    Udp(Udp),
    /// Datagram congestion control protocol.
    Dccp(Dccp),
    /// Zone of a version 6 address.
    Ip6zone(Ip6zone),
    /// Stream control transmission protocol.
    Sctp(Sctp),
    /// Tor hidden service, version 2.
    Onion(Onion),
    /// Tor hidden service, version 3.
    Onion3(Onion3),
    /// I2P destination, in base32.
    Garlic32(Garlic32),
    /// I2P destination, in base64.
    Garlic64(Garlic64),
    /// Peer identity.
    P2p(P2p),
    /// Unix domain socket.
    Unix(Unix),
    /// Micro transport protocol.
    Utp(Utp),
    /// UDP-based data transfer.
    Udt(Udt),
    /// QUIC.
    Quic(Quic),
    /// HTTP.
    Http(Http),
    /// HTTP over TLS.
    Https(Https),
    /// Relayed connection.
    P2pCircuit(P2pCircuit),
    /// WebRTC without a signalling server.
    P2pWebRtcDirect(P2pWebRtcDirect),
    /// WebSocket.
    Ws(Ws),
    /// WebSocket over TLS.
    Wss(Wss),
}

impl View for Segment {
    type V = SegmentView;

    open spec fn view(&self) -> SegmentView {
        match self {
            Segment::Ip4(v) => SegmentView { protocol: Protocol::Ip4, payload: v@ },
            Segment::Ip6(v) => SegmentView { protocol: Protocol::Ip6, payload: v@ },
            Segment::Tcp(v) => SegmentView { protocol: Protocol::Tcp, payload: v@ },
            Segment::Dns(v) => SegmentView { protocol: Protocol::Dns, payload: v@ },
            Segment::Dns4(v) => SegmentView { protocol: Protocol::Dns4, payload: v@ },
            Segment::Dns6(v) => SegmentView { protocol: Protocol::Dns6, payload: v@ },
            Segment::Dnsaddr(v) => SegmentView { protocol: Protocol::Dnsaddr, payload: v@ },
            Segment::Udp(v) => SegmentView { protocol: Protocol::Udp, payload: v@ },
            Segment::Dccp(v) => SegmentView { protocol: Protocol::Dccp, payload: v@ },
            Segment::Ip6zone(v) => SegmentView { protocol: Protocol::Ip6zone, payload: v@ },
            Segment::Sctp(v) => SegmentView { protocol: Protocol::Sctp, payload: v@ },
            Segment::Onion(v) => SegmentView { protocol: Protocol::Onion, payload: v@ },
            Segment::Onion3(v) => SegmentView { protocol: Protocol::Onion3, payload: v@ },
            Segment::Garlic32(v) => SegmentView { protocol: Protocol::Garlic32, payload: v@ },
            Segment::Garlic64(v) => SegmentView { protocol: Protocol::Garlic64, payload: v@ },
            Segment::P2p(v) => SegmentView { protocol: Protocol::P2p, payload: v@ },
            Segment::Unix(v) => SegmentView { protocol: Protocol::Unix, payload: v@ },
            Segment::Utp(v) => SegmentView { protocol: Protocol::Utp, payload: v@ },
            Segment::Udt(v) => SegmentView { protocol: Protocol::Udt, payload: v@ },
            Segment::Quic(v) => SegmentView { protocol: Protocol::Quic, payload: v@ },
            Segment::Http(v) => SegmentView { protocol: Protocol::Http, payload: v@ },
            Segment::Https(v) => SegmentView { protocol: Protocol::Https, payload: v@ },
            Segment::P2pCircuit(v) => SegmentView { protocol: Protocol::P2pCircuit, payload: v@ },
            Segment::P2pWebRtcDirect(v) => SegmentView {
                protocol: Protocol::P2pWebRtcDirect,
                payload: v@,
            },
            Segment::Ws(v) => SegmentView { protocol: Protocol::Ws, payload: v@ },
            Segment::Wss(v) => SegmentView { protocol: Protocol::Wss, payload: v@ },
        }
    }
}

/// The token that stands for whichever version of the Internet protocol the
/// token after it spells an address of.
pub open spec fn ip_token() -> Seq<u8> {
    encode_utf8("ip"@)
}

/// The older name of the protocol of peer identities.
pub open spec fn ipfs_token() -> Seq<u8> {
    encode_utf8("ipfs"@)
}

/// The segment that the first of `tokens` names and the tokens after it
/// spell, and how many tokens it takes, the name included.
///
/// The name of a protocol is followed by that protocol's payload. `ip` is
/// followed by an address of version 4 or, where the token is none, of
/// version 6. `ipfs` is followed by a peer identity. Anything else names no
/// segment.
pub open spec fn segment_parse(tokens: Seq<Seq<u8>>) -> Option<(SegmentView, nat)> {
    if tokens.len() == 0 {
        None
    } else {
        let rest = tokens.skip(1);
        match Protocol::named(tokens[0]) {
            Some(p) => follow(p, rest),
            None => if tokens[0] == ip_token() {
                match follow(Protocol::Ip4, rest) {
                    Some(found) => Some(found),
                    None => follow(Protocol::Ip6, rest),
                }
            } else if tokens[0] == ipfs_token() {
                follow(Protocol::P2p, rest)
            } else {
                None
            },
        }
    }
}

/// The segment of the protocol `p` that `rest` spells the payload of, and
/// how many tokens it takes, the name before `rest` included.
pub open spec fn follow(p: Protocol, rest: Seq<Seq<u8>>) -> Option<(SegmentView, nat)> {
    match text_parse(p.spec_form(), rest) {
        Some((payload, n)) => Some((SegmentView { protocol: p, payload }, n + 1)),
        None => None,
    }
}

/// The segment that stands at the front of `data`, and how many bytes it
/// takes, the number of its protocol included.
pub open spec fn segment_decode(data: Seq<u8>) -> Option<(SegmentView, nat)> {
    match read_u128(data) {
        Reading::Value(code, n) => match Protocol::coded(code as u128) {
            Some(p) => match wire_parse(p.spec_form(), data.skip(n as int)) {
                Some((payload, m)) => Some((SegmentView { protocol: p, payload }, n + m)),
                None => None,
            },
            None => None,
        },
        _ => None,
    }
}

impl Segment {
    /// The protocol of the segment.
    pub fn protocol(&self) -> (p: Protocol)
        ensures
            p == self@.protocol,
    {
        match self {
            Segment::Ip4(_) => Protocol::Ip4,
            Segment::Ip6(_) => Protocol::Ip6,
            Segment::Tcp(_) => Protocol::Tcp,
            Segment::Dns(_) => Protocol::Dns,
            Segment::Dns4(_) => Protocol::Dns4,
            Segment::Dns6(_) => Protocol::Dns6,
            Segment::Dnsaddr(_) => Protocol::Dnsaddr,
            Segment::Udp(_) => Protocol::Udp,
            Segment::Dccp(_) => Protocol::Dccp,
            Segment::Ip6zone(_) => Protocol::Ip6zone,
            Segment::Sctp(_) => Protocol::Sctp,
            Segment::Onion(_) => Protocol::Onion,
            Segment::Onion3(_) => Protocol::Onion3,
            Segment::Garlic32(_) => Protocol::Garlic32,
            Segment::Garlic64(_) => Protocol::Garlic64,
            Segment::P2p(_) => Protocol::P2p,
            Segment::Unix(_) => Protocol::Unix,
            Segment::Utp(_) => Protocol::Utp,
            Segment::Udt(_) => Protocol::Udt,
            Segment::Quic(_) => Protocol::Quic,
            Segment::Http(_) => Protocol::Http,
            Segment::Https(_) => Protocol::Https,
            Segment::P2pCircuit(_) => Protocol::P2pCircuit,
            Segment::P2pWebRtcDirect(_) => Protocol::P2pWebRtcDirect,
            Segment::Ws(_) => Protocol::Ws,
            Segment::Wss(_) => Protocol::Wss,
        }
    }

    /// The number of the segment's protocol.
    pub fn to_multicodec(&self) -> (c: Multicodec)
        ensures
            c@ == self@.protocol.spec_code(),
    {
        Multicodec { code: self.protocol().code() }
    }

    /// The payload is one that the protocol carries.
    pub proof fn lemma_wf(&self)
        ensures
            self@.wf(),
    {
        match self {
            Segment::Ip4(v) => {
                v.lemma_view();
            },
            Segment::Ip6(v) => {
                v.lemma_view();
            },
            Segment::Tcp(v) => {
                v.lemma_view();
            },
            Segment::Dns(v) => {
                v.lemma_view();
            },
            Segment::Dns4(v) => {
                v.lemma_view();
            },
            Segment::Dns6(v) => {
                v.lemma_view();
            },
            Segment::Dnsaddr(v) => {
                v.lemma_view();
            },
            Segment::Udp(v) => {
                v.lemma_view();
            },
            Segment::Dccp(v) => {
                v.lemma_view();
            },
            Segment::Ip6zone(v) => {
                v.lemma_view();
            },
            Segment::Sctp(v) => {
                v.lemma_view();
            },
            Segment::Onion(v) => {
                v.lemma_view();
            },
            Segment::Onion3(v) => {
                v.lemma_view();
            },
            Segment::Garlic32(v) => {
                v.lemma_view();
            },
            Segment::Garlic64(v) => {
                v.lemma_view();
            },
            Segment::P2p(v) => {
                v.lemma_view();
            },
            Segment::Unix(v) => {
                v.lemma_view();
            },
            Segment::Utp(_) => {},
            Segment::Udt(_) => {},
            Segment::Quic(_) => {},
            Segment::Http(_) => {},
            Segment::Https(_) => {},
            Segment::P2pCircuit(_) => {},
            Segment::P2pWebRtcDirect(_) => {},
            Segment::Ws(_) => {},
            Segment::Wss(_) => {},
        }
    }

    /// The segment of the protocol `p` whose payload `rest` spells, and the
    /// tokens that it leaves.
    pub fn follow<'a, 'b>(p: Protocol, rest: &'a [&'b [u8]]) -> (r: Result<
        (Segment, &'a [&'b [u8]]),
        Error,
    >)
        ensures
            match follow(p, views(rest@)) {
                Some((seg, n)) => r matches Ok((s, tail)) && s@ == seg && tail@ == rest@.skip(
                    n - 1,
                ),
                None => fails_with(r, ErrorKind::BadAddr),
            },
    {
        match p {
            Protocol::Ip4 => match Ip4::from_text(rest) {
                Ok((v, tail)) => Ok((Segment::Ip4(v), tail)),
                Err(e) => Err(e),
            },
            Protocol::Ip6 => match Ip6::from_text(rest) {
                Ok((v, tail)) => Ok((Segment::Ip6(v), tail)),
                Err(e) => Err(e),
            },
            Protocol::Tcp => match Tcp::from_text(rest) {
                Ok((v, tail)) => Ok((Segment::Tcp(v), tail)),
                Err(e) => Err(e),
            },
            Protocol::Dns => match Dns::from_text(rest) {
                Ok((v, tail)) => Ok((Segment::Dns(v), tail)),
                Err(e) => Err(e),
            },
            Protocol::Dns4 => match Dns4::from_text(rest) {
                Ok((v, tail)) => Ok((Segment::Dns4(v), tail)),
                Err(e) => Err(e),
            },
            Protocol::Dns6 => match Dns6::from_text(rest) {
                Ok((v, tail)) => Ok((Segment::Dns6(v), tail)),
                Err(e) => Err(e),
            },
            Protocol::Dnsaddr => match Dnsaddr::from_text(rest) {
                Ok((v, tail)) => Ok((Segment::Dnsaddr(v), tail)),
                Err(e) => Err(e),
            },
            Protocol::Udp => match Udp::from_text(rest) {
                Ok((v, tail)) => Ok((Segment::Udp(v), tail)),
                Err(e) => Err(e),
            },
            Protocol::Dccp => match Dccp::from_text(rest) {
                Ok((v, tail)) => Ok((Segment::Dccp(v), tail)),
                Err(e) => Err(e),
            },
            Protocol::Ip6zone => match Ip6zone::from_text(rest) {
                Ok((v, tail)) => Ok((Segment::Ip6zone(v), tail)),
                Err(e) => Err(e),
            },
            Protocol::Sctp => match Sctp::from_text(rest) {
                Ok((v, tail)) => Ok((Segment::Sctp(v), tail)),
                Err(e) => Err(e),
            },
            Protocol::Onion => match Onion::from_text(rest) {
                Ok((v, tail)) => Ok((Segment::Onion(v), tail)),
                Err(e) => Err(e),
            },
            Protocol::Onion3 => match Onion3::from_text(rest) {
                Ok((v, tail)) => Ok((Segment::Onion3(v), tail)),
                Err(e) => Err(e),
            },
            Protocol::Garlic32 => match Garlic32::from_text(rest) {
                Ok((v, tail)) => Ok((Segment::Garlic32(v), tail)),
                Err(e) => Err(e),
            },
            Protocol::Garlic64 => match Garlic64::from_text(rest) {
                Ok((v, tail)) => Ok((Segment::Garlic64(v), tail)),
                Err(e) => Err(e),
            },
            Protocol::P2p => match P2p::from_text(rest) {
                Ok((v, tail)) => Ok((Segment::P2p(v), tail)),
                Err(e) => Err(e),
            },
            Protocol::Unix => match Unix::from_text(rest) {
                Ok((v, tail)) => Ok((Segment::Unix(v), tail)),
                Err(e) => Err(e),
            },
            Protocol::Utp => match Utp::from_text(rest) {
                Ok((v, tail)) => Ok((Segment::Utp(v), tail)),
                Err(e) => Err(e),
            },
            Protocol::Udt => match Udt::from_text(rest) {
                Ok((v, tail)) => Ok((Segment::Udt(v), tail)),
                Err(e) => Err(e),
            },
            Protocol::Quic => match Quic::from_text(rest) {
                Ok((v, tail)) => Ok((Segment::Quic(v), tail)),
                Err(e) => Err(e),
            },
            Protocol::Http => match Http::from_text(rest) {
                Ok((v, tail)) => Ok((Segment::Http(v), tail)),
                Err(e) => Err(e),
            },
            Protocol::Https => match Https::from_text(rest) {
                Ok((v, tail)) => Ok((Segment::Https(v), tail)),
                Err(e) => Err(e),
            },
            Protocol::P2pCircuit => match P2pCircuit::from_text(rest) {
                Ok((v, tail)) => Ok((Segment::P2pCircuit(v), tail)),
                Err(e) => Err(e),
            },
            Protocol::P2pWebRtcDirect => match P2pWebRtcDirect::from_text(rest) {
                Ok((v, tail)) => Ok((Segment::P2pWebRtcDirect(v), tail)),
                Err(e) => Err(e),
            },
            Protocol::Ws => match Ws::from_text(rest) {
                Ok((v, tail)) => Ok((Segment::Ws(v), tail)),
                Err(e) => Err(e),
            },
            Protocol::Wss => match Wss::from_text(rest) {
                Ok((v, tail)) => Ok((Segment::Wss(v), tail)),
                Err(e) => Err(e),
            },
        }
    }

    /// Reads one segment from the front of `parts`, its name first, and
    /// hands back the tokens that it leaves. `BadAddr` where there is no
    /// token, the first names no segment, or the ones after it do not spell
    /// the payload.
    pub fn from_text<'a, 'b>(parts: &'a [&'b [u8]]) -> (r: Result<
        (Segment, &'a [&'b [u8]]),
        Error,
    >)
        ensures
            match segment_parse(views(parts@)) {
                Some((seg, n)) => r matches Ok((s, rest)) && s@ == seg && rest@ == parts@.skip(
                    n as int,
                ),
                None => fails_with(r, ErrorKind::BadAddr),
            },
    {
        if parts.len() == 0 {
            return Err(bad_addr("multiaddr", "no protocol"));
        }
        let name = parts[0];
        let rest = skip_tokens(parts, 1);
        match Protocol::from_name(name) {
            Some(p) => {
                let r = Segment::follow(p, rest);
                proof {
                    lemma_follow_bounds(p, views(rest@));
                }
                r
            },
            None => if same_bytes(name, "ip".as_bytes()) {
                proof {
                    lemma_follow_bounds(Protocol::Ip4, views(rest@));
                    lemma_follow_bounds(Protocol::Ip6, views(rest@));
                }
                match Segment::follow(Protocol::Ip4, rest) {
                    Ok(found) => Ok(found),
                    Err(_) => Segment::follow(Protocol::Ip6, rest),
                }
            } else if same_bytes(name, "ipfs".as_bytes()) {
                proof {
                    lemma_follow_bounds(Protocol::P2p, views(rest@));
                }
                Segment::follow(Protocol::P2p, rest)
            } else {
                Err(bad_addr("multiaddr", "unknown protocol"))
            },
        }
    }

    /// The segment in text: a slash, the protocol's name, and the payload.
    /// Fails where the payload cannot be written, and with `DecodeError`
    /// where what would be written is not UTF-8.
    pub fn to_text(&self) -> (r: Result<String, Error>)
        ensures
            text_outcome(r, segment_text(self@.protocol, self@.payload)),
    {
        match self {
            Segment::Ip4(v) => v.to_text(),
            Segment::Ip6(v) => v.to_text(),
            Segment::Tcp(v) => v.to_text(),
            Segment::Dns(v) => v.to_text(),
            Segment::Dns4(v) => v.to_text(),
            Segment::Dns6(v) => v.to_text(),
            Segment::Dnsaddr(v) => v.to_text(),
            Segment::Udp(v) => v.to_text(),
            Segment::Dccp(v) => v.to_text(),
            Segment::Ip6zone(v) => v.to_text(),
            Segment::Sctp(v) => v.to_text(),
            Segment::Onion(v) => v.to_text(),
            Segment::Onion3(v) => v.to_text(),
            Segment::Garlic32(v) => v.to_text(),
            Segment::Garlic64(v) => v.to_text(),
            Segment::P2p(v) => v.to_text(),
            Segment::Unix(v) => v.to_text(),
            Segment::Utp(v) => v.to_text(),
            Segment::Udt(v) => v.to_text(),
            Segment::Quic(v) => v.to_text(),
            Segment::Http(v) => v.to_text(),
            Segment::Https(v) => v.to_text(),
            Segment::P2pCircuit(v) => v.to_text(),
            Segment::P2pWebRtcDirect(v) => v.to_text(),
            Segment::Ws(v) => v.to_text(),
            Segment::Wss(v) => v.to_text(),
        }
    }

    /// Reads one segment from the front of `data`, the number of its
    /// protocol first, and hands back the bytes that it leaves.
    /// `DecodeError` where `data` starts with no varint, the number stands
    /// for no protocol of addresses, or the payload is cut short.
    pub fn decode(data: &[u8]) -> (r: Result<(Segment, &[u8]), Error>)
        ensures
            match segment_decode(data@) {
                Some((seg, n)) => r matches Ok((s, rest)) && s@ == seg && rest@ == data@.skip(
                    n as int,
                ),
                None => fails_with(r, ErrorKind::DecodeError),
            },
    {
        let (codec, body) = match Multicodec::decode(data) {
            Ok(pair) => pair,
            Err(e) => {
                return Err(e);
            },
        };
        proof {
            lemma_read_bounds(data@, LIMIT_U128 as nat, span_u128());
        }
        let p = match Protocol::from_code(codec.to_code()) {
            Some(p) => p,
            None => {
                return Err(Error::new(ErrorKind::DecodeError, "multiaddr", "unknown code"));
            },
        };
        proof {
            lemma_wire_bounds(p.spec_form(), body@);
        }
        match p {
            Protocol::Ip4 => match Ip4::decode(body) {
                Ok((v, rest)) => Ok((Segment::Ip4(v), rest)),
                Err(e) => Err(e),
            },
            Protocol::Ip6 => match Ip6::decode(body) {
                Ok((v, rest)) => Ok((Segment::Ip6(v), rest)),
                Err(e) => Err(e),
            },
            Protocol::Tcp => match Tcp::decode(body) {
                Ok((v, rest)) => Ok((Segment::Tcp(v), rest)),
                Err(e) => Err(e),
            },
            Protocol::Dns => match Dns::decode(body) {
                Ok((v, rest)) => Ok((Segment::Dns(v), rest)),
                Err(e) => Err(e),
            },
            Protocol::Dns4 => match Dns4::decode(body) {
                Ok((v, rest)) => Ok((Segment::Dns4(v), rest)),
                Err(e) => Err(e),
            },
            Protocol::Dns6 => match Dns6::decode(body) {
                Ok((v, rest)) => Ok((Segment::Dns6(v), rest)),
                Err(e) => Err(e),
            },
            Protocol::Dnsaddr => match Dnsaddr::decode(body) {
                Ok((v, rest)) => Ok((Segment::Dnsaddr(v), rest)),
                Err(e) => Err(e),
            },
            Protocol::Udp => match Udp::decode(body) {
                Ok((v, rest)) => Ok((Segment::Udp(v), rest)),
                Err(e) => Err(e),
            },
            Protocol::Dccp => match Dccp::decode(body) {
                Ok((v, rest)) => Ok((Segment::Dccp(v), rest)),
                Err(e) => Err(e),
            },
            Protocol::Ip6zone => match Ip6zone::decode(body) {
                Ok((v, rest)) => Ok((Segment::Ip6zone(v), rest)),
                Err(e) => Err(e),
            },
            Protocol::Sctp => match Sctp::decode(body) {
                Ok((v, rest)) => Ok((Segment::Sctp(v), rest)),
                Err(e) => Err(e),
            },
            Protocol::Onion => match Onion::decode(body) {
                Ok((v, rest)) => Ok((Segment::Onion(v), rest)),
                Err(e) => Err(e),
            },
            Protocol::Onion3 => match Onion3::decode(body) {
                Ok((v, rest)) => Ok((Segment::Onion3(v), rest)),
                Err(e) => Err(e),
            },
            Protocol::Garlic32 => match Garlic32::decode(body) {
                Ok((v, rest)) => Ok((Segment::Garlic32(v), rest)),
                Err(e) => Err(e),
            },
            Protocol::Garlic64 => match Garlic64::decode(body) {
                Ok((v, rest)) => Ok((Segment::Garlic64(v), rest)),
                Err(e) => Err(e),
            },
            Protocol::P2p => match P2p::decode(body) {
                Ok((v, rest)) => Ok((Segment::P2p(v), rest)),
                Err(e) => Err(e),
            },
            Protocol::Unix => match Unix::decode(body) {
                Ok((v, rest)) => Ok((Segment::Unix(v), rest)),
                Err(e) => Err(e),
            },
            Protocol::Utp => match Utp::decode(body) {
                Ok((v, rest)) => Ok((Segment::Utp(v), rest)),
                Err(e) => Err(e),
            },
            Protocol::Udt => match Udt::decode(body) {
                Ok((v, rest)) => Ok((Segment::Udt(v), rest)),
                Err(e) => Err(e),
            },
            Protocol::Quic => match Quic::decode(body) {
                Ok((v, rest)) => Ok((Segment::Quic(v), rest)),
                Err(e) => Err(e),
            },
            Protocol::Http => match Http::decode(body) {
                Ok((v, rest)) => Ok((Segment::Http(v), rest)),
                Err(e) => Err(e),
            },
            Protocol::Https => match Https::decode(body) {
                Ok((v, rest)) => Ok((Segment::Https(v), rest)),
                Err(e) => Err(e),
            },
            Protocol::P2pCircuit => match P2pCircuit::decode(body) {
                Ok((v, rest)) => Ok((Segment::P2pCircuit(v), rest)),
                Err(e) => Err(e),
            },
            Protocol::P2pWebRtcDirect => match P2pWebRtcDirect::decode(body) {
                Ok((v, rest)) => Ok((Segment::P2pWebRtcDirect(v), rest)),
                Err(e) => Err(e),
            },
            Protocol::Ws => match Ws::decode(body) {
                Ok((v, rest)) => Ok((Segment::Ws(v), rest)),
                Err(e) => Err(e),
            },
            Protocol::Wss => match Wss::decode(body) {
                Ok((v, rest)) => Ok((Segment::Wss(v), rest)),
                Err(e) => Err(e),
            },
        }
    }

    /// The segment on the wire: the number of its protocol, then its
    /// payload. Fails where the payload cannot be turned into bytes.
    pub fn encode(&self) -> (r: Result<Vec<u8>, Error>)
        ensures
            bytes_outcome(r, segment_wire(self@.protocol, self@.payload)),
    {
        match self {
            Segment::Ip4(v) => v.encode(),
            Segment::Ip6(v) => v.encode(),
            Segment::Tcp(v) => v.encode(),
            Segment::Dns(v) => v.encode(),
            Segment::Dns4(v) => v.encode(),
            Segment::Dns6(v) => v.encode(),
            Segment::Dnsaddr(v) => v.encode(),
            Segment::Udp(v) => v.encode(),
            Segment::Dccp(v) => v.encode(),
            Segment::Ip6zone(v) => v.encode(),
            Segment::Sctp(v) => v.encode(),
            Segment::Onion(v) => v.encode(),
            Segment::Onion3(v) => v.encode(),
            Segment::Garlic32(v) => v.encode(),
            Segment::Garlic64(v) => v.encode(),
            Segment::P2p(v) => v.encode(),
            Segment::Unix(v) => v.encode(),
            Segment::Utp(v) => v.encode(),
            Segment::Udt(v) => v.encode(),
            Segment::Quic(v) => v.encode(),
            Segment::Http(v) => v.encode(),
            Segment::Https(v) => v.encode(),
            Segment::P2pCircuit(v) => v.encode(),
            Segment::P2pWebRtcDirect(v) => v.encode(),
            Segment::Ws(v) => v.encode(),
            Segment::Wss(v) => v.encode(),
        }
    }
}

/// A segment takes its name and no more tokens than follow it.
pub proof fn lemma_follow_bounds(p: Protocol, rest: Seq<Seq<u8>>)
    ensures
        follow(p, rest) matches Some((seg, n)) ==> 1 <= n <= rest.len() + 1 && seg.protocol == p,
{
}

/// A payload takes no more bytes than there are.
pub proof fn lemma_wire_bounds(form: Form, data: Seq<u8>)
    ensures
        wire_parse(form, data) matches Some((_, n)) ==> n <= data.len(),
{
}

/// A segment takes at least one token and no more than there are.
pub proof fn lemma_segment_parse_bounds(tokens: Seq<Seq<u8>>)
    ensures
        segment_parse(tokens) matches Some((_, n)) ==> 1 <= n <= tokens.len(),
{
    if tokens.len() > 0 {
        let rest = tokens.skip(1);
        lemma_follow_bounds(Protocol::Ip4, rest);
        lemma_follow_bounds(Protocol::Ip6, rest);
        lemma_follow_bounds(Protocol::P2p, rest);
        if let Some(p) = Protocol::named(tokens[0]) {
            lemma_follow_bounds(p, rest);
        }
    }
}

/// A segment takes at least one byte and no more than there are.
pub proof fn lemma_segment_decode_bounds(data: Seq<u8>)
    ensures
        segment_decode(data) matches Some((_, n)) ==> 1 <= n <= data.len(),
{
    lemma_read_bounds(data, LIMIT_U128 as nat, span_u128());
    if let Reading::Value(code, n) = read_u128(data) {
        if let Some(p) = Protocol::coded(code as u128) {
            lemma_wire_bounds(p.spec_form(), data.skip(n as int));
        }
    }
}

} // verus!
