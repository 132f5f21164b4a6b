//! The protocols an address can name: what each is called in text, which
//! number stands for it on the wire, and what shape its payload has.

use crate::multicodec;
use crate::text::same_bytes;
use vstd::prelude::*;
use vstd::string::*;
use vstd::utf8::*;

verus! {

/// A protocol.
#[derive(Clone, Copy, Debug, PartialEq, Eq, Structural)]
pub enum Protocol {
    /// Internet protocol, version 4.
    Ip4,
    /// Internet protocol, version 6.
    Ip6,
    /// Transmission control protocol.
    Tcp,
    /// Domain name, to be resolved to either kind of address.
    Dns,
    /// Domain name, to be resolved to a version 4 address.
    Dns4,
    /// Domain name, to be resolved to a version 6 address.
    Dns6,
    /// Domain name whose records hold whole addresses.
    Dnsaddr,
    /// User datagram protocol.
    Udp,
    /// Datagram congestion control protocol.
    Dccp,
    /// Zone of a version 6 address.
    Ip6zone,
    /// Stream control transmission protocol.
    Sctp,
    /// Tor hidden service, version 2.
    Onion,
    /// Tor hidden service, version 3.
    Onion3,
    /// I2P destination, in base32.
    Garlic32,
    /// I2P destination, in base64.
    Garlic64,
    /// Peer identity.
    P2p,
    /// Unix domain socket.
    Unix,
    /// Micro transport protocol.
    Utp,
    /// UDP-based data transfer.
    Udt,
    /// QUIC.
    Quic,
    /// HTTP.
    Http,
    /// HTTP over TLS.
    Https,
    /// Relayed connection.
    P2pCircuit,
    /// WebRTC without a signalling server.
    P2pWebRtcDirect,
    /// WebSocket.
    Ws,
    /// WebSocket over TLS.
    Wss,
}

/// The shape of a protocol's payload, in text and on the wire.
#[derive(Clone, Copy, Debug, PartialEq, Eq, Structural)]
pub enum Form {
    /// No payload: the protocol's name says it all.
    Marker,
    /// A port: decimal in text, two bytes on the wire, high byte first.
    Port,
    /// Four bytes: dotted decimal in text, the bytes themselves on the wire.
    Ip4,
    /// Sixteen bytes: colon-separated hexadecimal in text, the bytes
    /// themselves on the wire.
    Ip6,
    /// A name: one token in text, its bytes behind their length on the wire.
    Name,
    /// A hash of ten bytes and a port: base32, a colon and decimal in text,
    /// twelve bytes on the wire.
    Onion,
    /// A hash of thirty-five bytes and a port, laid out as `Onion` is.
    Onion3,
    /// Bytes that text spells in base32 over the I2P alphabet, behind their
    /// length on the wire.
    Garlic32,
    /// Bytes that text spells in base64 over the I2P alphabet, behind their
    /// length on the wire.
    Garlic64,
    /// A peer identity: one token in text, the record of a digest behind
    /// its length on the wire.
    Peer,
    /// A path: every token that is left in text, its bytes behind their
    /// length on the wire.
    Path,
}

impl Protocol {
    /// The protocol's name.
    pub open spec fn name_chars(self) -> Seq<char> {
        match self {
            Protocol::Ip4 => "ip4"@,
            Protocol::Ip6 => "ip6"@,
            Protocol::Tcp => "tcp"@,
            Protocol::Dns => "dns"@,
            Protocol::Dns4 => "dns4"@,
            Protocol::Dns6 => "dns6"@,
            Protocol::Dnsaddr => "dnsaddr"@,
            Protocol::Udp => "udp"@,
            Protocol::Dccp => "dccp"@,
            Protocol::Ip6zone => "ip6zone"@,
            Protocol::Sctp => "sctp"@,
            Protocol::Onion => "onion"@,
            Protocol::Onion3 => "onion3"@,
            Protocol::Garlic32 => "garlic32"@,
            Protocol::Garlic64 => "garlic64"@,
            Protocol::P2p => "p2p"@,
            Protocol::Unix => "unix"@,
            Protocol::Utp => "utp"@,
            Protocol::Udt => "udt"@,
            Protocol::Quic => "quic"@,
            Protocol::Http => "http"@,
            Protocol::Https => "https"@,
            Protocol::P2pCircuit => "p2p-circuit"@,
            Protocol::P2pWebRtcDirect => "p2p-webrtc-direct"@,
            Protocol::Ws => "ws"@,
            Protocol::Wss => "wss"@,
        }
    }

    /// The bytes of the protocol's name.
    pub open spec fn spec_name(self) -> Seq<u8> {
        encode_utf8(self.name_chars())
    }

    /// The number that stands for the protocol on the wire.
    pub open spec fn spec_code(self) -> u128 {
        match self {
            Protocol::Ip4 => multicodec::IP4,
            Protocol::Ip6 => multicodec::IP6,
            Protocol::Tcp => multicodec::TCP,
            Protocol::Dns => multicodec::DNS,
            Protocol::Dns4 => multicodec::DNS4,
            Protocol::Dns6 => multicodec::DNS6,
            Protocol::Dnsaddr => multicodec::DNSADDR,
            Protocol::Udp => multicodec::UDP,
            Protocol::Dccp => multicodec::DCCP,
            Protocol::Ip6zone => multicodec::IP6ZONE,
            Protocol::Sctp => multicodec::SCTP,
            Protocol::Onion => multicodec::ONION,
            Protocol::Onion3 => multicodec::ONION3,
            Protocol::Garlic32 => multicodec::GARLIC32,
            Protocol::Garlic64 => multicodec::GARLIC64,
            Protocol::P2p => multicodec::P2P,
            Protocol::Unix => multicodec::UNIX,
            Protocol::Utp => multicodec::UTP,
            Protocol::Udt => multicodec::UDT,
            Protocol::Quic => multicodec::QUIC,
            Protocol::Http => multicodec::HTTP,
            Protocol::Https => multicodec::HTTPS,
            Protocol::P2pCircuit => multicodec::P2P_CIRCUIT,
            Protocol::P2pWebRtcDirect => multicodec::P2P_WEBRTC_DIRECT,
            Protocol::Ws => multicodec::WS,
            Protocol::Wss => multicodec::WSS,
        }
    }

    /// The shape of the protocol's payload.
    pub open spec fn spec_form(self) -> Form {
        match self {
            Protocol::Ip4 => Form::Ip4,
            Protocol::Ip6 => Form::Ip6,
            Protocol::Tcp => Form::Port,
            Protocol::Dns => Form::Name,
            Protocol::Dns4 => Form::Name,
            Protocol::Dns6 => Form::Name,
            Protocol::Dnsaddr => Form::Name,
            Protocol::Udp => Form::Port,
            Protocol::Dccp => Form::Port,
            Protocol::Ip6zone => Form::Name,
            Protocol::Sctp => Form::Port,
            Protocol::Onion => Form::Onion,
            Protocol::Onion3 => Form::Onion3,
            Protocol::Garlic32 => Form::Garlic32,
            Protocol::Garlic64 => Form::Garlic64,
            Protocol::P2p => Form::Peer,
            Protocol::Unix => Form::Path,
            Protocol::Utp => Form::Marker,
            Protocol::Udt => Form::Marker,
            Protocol::Quic => Form::Marker,
            Protocol::Http => Form::Marker,
            Protocol::Https => Form::Marker,
            Protocol::P2pCircuit => Form::Marker,
            Protocol::P2pWebRtcDirect => Form::Marker,
            Protocol::Ws => Form::Marker,
            Protocol::Wss => Form::Marker,
        }
    }

    /// The protocol that goes by the name `token`.
    pub open spec fn named(token: Seq<u8>) -> Option<Protocol> {
        if token == Protocol::Ip4.spec_name() {
            Some(Protocol::Ip4)
        } else if token == Protocol::Ip6.spec_name() {
            Some(Protocol::Ip6)
        } else if token == Protocol::Tcp.spec_name() {
            Some(Protocol::Tcp)
        } else if token == Protocol::Dns.spec_name() {
            Some(Protocol::Dns)
        } else if token == Protocol::Dns4.spec_name() {
            Some(Protocol::Dns4)
        } else if token == Protocol::Dns6.spec_name() {
            Some(Protocol::Dns6)
        } else if token == Protocol::Dnsaddr.spec_name() {
            Some(Protocol::Dnsaddr)
        } else if token == Protocol::Udp.spec_name() {
            Some(Protocol::Udp)
        } else if token == Protocol::Dccp.spec_name() {
            Some(Protocol::Dccp)
        } else if token == Protocol::Ip6zone.spec_name() {
            Some(Protocol::Ip6zone)
        } else if token == Protocol::Sctp.spec_name() {
            Some(Protocol::Sctp)
        } else if token == Protocol::Onion.spec_name() {
            Some(Protocol::Onion)
        } else if token == Protocol::Onion3.spec_name() {
            Some(Protocol::Onion3)
        } else if token == Protocol::Garlic32.spec_name() {
            Some(Protocol::Garlic32)
        } else if token == Protocol::Garlic64.spec_name() {
            Some(Protocol::Garlic64)
        } else if token == Protocol::P2p.spec_name() {
            Some(Protocol::P2p)
        } else if token == Protocol::Unix.spec_name() {
            Some(Protocol::Unix)
        } else if token == Protocol::Utp.spec_name() {
            Some(Protocol::Utp)
        } else if token == Protocol::Udt.spec_name() {
            Some(Protocol::Udt)
        } else if token == Protocol::Quic.spec_name() {
            Some(Protocol::Quic)
        } else if token == Protocol::Http.spec_name() {
            Some(Protocol::Http)
        } else if token == Protocol::Https.spec_name() {
            Some(Protocol::Https)
        } else if token == Protocol::P2pCircuit.spec_name() {
            Some(Protocol::P2pCircuit)
        } else if token == Protocol::P2pWebRtcDirect.spec_name() {
            Some(Protocol::P2pWebRtcDirect)
        } else if token == Protocol::Ws.spec_name() {
            Some(Protocol::Ws)
        } else if token == Protocol::Wss.spec_name() {
            Some(Protocol::Wss)
        } else {
            None
        }
    }

    /// The protocol that the number `code` stands for.
    pub open spec fn coded(code: u128) -> Option<Protocol> {
        if code == multicodec::IP4 {
            Some(Protocol::Ip4)
        } else if code == multicodec::IP6 {
            Some(Protocol::Ip6)
        } else if code == multicodec::TCP {
            Some(Protocol::Tcp)
        } else if code == multicodec::DNS {
            Some(Protocol::Dns)
        } else if code == multicodec::DNS4 {
            Some(Protocol::Dns4)
        } else if code == multicodec::DNS6 {
            Some(Protocol::Dns6)
        } else if code == multicodec::DNSADDR {
            Some(Protocol::Dnsaddr)
        } else if code == multicodec::UDP {
            Some(Protocol::Udp)
        } else if code == multicodec::DCCP {
            Some(Protocol::Dccp)
        } else if code == multicodec::IP6ZONE {
            Some(Protocol::Ip6zone)
        } else if code == multicodec::SCTP {
            Some(Protocol::Sctp)
        } else if code == multicodec::ONION {
            Some(Protocol::Onion)
        } else if code == multicodec::ONION3 {
            Some(Protocol::Onion3)
        } else if code == multicodec::GARLIC32 {
            Some(Protocol::Garlic32)
        } else if code == multicodec::GARLIC64 {
            Some(Protocol::Garlic64)
        } else if code == multicodec::P2P {
            Some(Protocol::P2p)
        } else if code == multicodec::UNIX {
            Some(Protocol::Unix)
        } else if code == multicodec::UTP {
            Some(Protocol::Utp)
        } else if code == multicodec::UDT {
            Some(Protocol::Udt)
        } else if code == multicodec::QUIC {
            Some(Protocol::Quic)
        } else if code == multicodec::HTTP {
            Some(Protocol::Http)
        } else if code == multicodec::HTTPS {
            Some(Protocol::Https)
        } else if code == multicodec::P2P_CIRCUIT {
            Some(Protocol::P2pCircuit)
        } else if code == multicodec::P2P_WEBRTC_DIRECT {
            Some(Protocol::P2pWebRtcDirect)
        } else if code == multicodec::WS {
            Some(Protocol::Ws)
        } else if code == multicodec::WSS {
            Some(Protocol::Wss)
        } else {
            None
        }
    }

    /// The protocol's name.
    pub fn name(self) -> (s: &'static str)
        ensures
            s@ == self.name_chars(),
            s.spec_bytes() == self.spec_name(),
    {
        match self {
            Protocol::Ip4 => "ip4",
            Protocol::Ip6 => "ip6",
            Protocol::Tcp => "tcp",
            Protocol::Dns => "dns",
            Protocol::Dns4 => "dns4",
            Protocol::Dns6 => "dns6",
            Protocol::Dnsaddr => "dnsaddr",
            Protocol::Udp => "udp",
            Protocol::Dccp => "dccp",
            Protocol::Ip6zone => "ip6zone",
            Protocol::Sctp => "sctp",
            Protocol::Onion => "onion",
            Protocol::Onion3 => "onion3",
            Protocol::Garlic32 => "garlic32",
            Protocol::Garlic64 => "garlic64",
            Protocol::P2p => "p2p",
            Protocol::Unix => "unix",
            Protocol::Utp => "utp",
            Protocol::Udt => "udt",
            Protocol::Quic => "quic",
            Protocol::Http => "http",
            Protocol::Https => "https",
            Protocol::P2pCircuit => "p2p-circuit",
            Protocol::P2pWebRtcDirect => "p2p-webrtc-direct",
            Protocol::Ws => "ws",
            Protocol::Wss => "wss",
        }
    }

    /// The number that stands for the protocol on the wire.
    #[verifier::when_used_as_spec(spec_code)]
    pub fn code(self) -> (c: u128)
        ensures
            c == self.spec_code(),
    {
        match self {
            Protocol::Ip4 => multicodec::IP4,
            Protocol::Ip6 => multicodec::IP6,
            Protocol::Tcp => multicodec::TCP,
            Protocol::Dns => multicodec::DNS,
            Protocol::Dns4 => multicodec::DNS4,
            Protocol::Dns6 => multicodec::DNS6,
            Protocol::Dnsaddr => multicodec::DNSADDR,
            Protocol::Udp => multicodec::UDP,
            Protocol::Dccp => multicodec::DCCP,
            Protocol::Ip6zone => multicodec::IP6ZONE,
            Protocol::Sctp => multicodec::SCTP,
            Protocol::Onion => multicodec::ONION,
            Protocol::Onion3 => multicodec::ONION3,
            Protocol::Garlic32 => multicodec::GARLIC32,
            Protocol::Garlic64 => multicodec::GARLIC64,
            Protocol::P2p => multicodec::P2P,
            Protocol::Unix => multicodec::UNIX,
            Protocol::Utp => multicodec::UTP,
            Protocol::Udt => multicodec::UDT,
            Protocol::Quic => multicodec::QUIC,
            Protocol::Http => multicodec::HTTP,
            Protocol::Https => multicodec::HTTPS,
            Protocol::P2pCircuit => multicodec::P2P_CIRCUIT,
            Protocol::P2pWebRtcDirect => multicodec::P2P_WEBRTC_DIRECT,
            Protocol::Ws => multicodec::WS,
            Protocol::Wss => multicodec::WSS,
        }
    }

    /// The shape of the protocol's payload.
    #[verifier::when_used_as_spec(spec_form)]
    pub fn form(self) -> (f: Form)
        ensures
            f == self.spec_form(),
    {
        match self {
            Protocol::Ip4 => Form::Ip4,
            Protocol::Ip6 => Form::Ip6,
            Protocol::Tcp => Form::Port,
            Protocol::Dns => Form::Name,
            Protocol::Dns4 => Form::Name,
            Protocol::Dns6 => Form::Name,
            Protocol::Dnsaddr => Form::Name,
            Protocol::Udp => Form::Port,
            Protocol::Dccp => Form::Port,
            Protocol::Ip6zone => Form::Name,
            Protocol::Sctp => Form::Port,
            Protocol::Onion => Form::Onion,
            Protocol::Onion3 => Form::Onion3,
            Protocol::Garlic32 => Form::Garlic32,
            Protocol::Garlic64 => Form::Garlic64,
            Protocol::P2p => Form::Peer,
            Protocol::Unix => Form::Path,
            Protocol::Utp => Form::Marker,
            Protocol::Udt => Form::Marker,
            Protocol::Quic => Form::Marker,
            Protocol::Http => Form::Marker,
            Protocol::Https => Form::Marker,
            Protocol::P2pCircuit => Form::Marker,
            Protocol::P2pWebRtcDirect => Form::Marker,
            Protocol::Ws => Form::Marker,
            Protocol::Wss => Form::Marker,
        }
    }

    /// The protocol that goes by the name `token`.
    pub fn from_name(token: &[u8]) -> (r: Option<Protocol>)
        ensures
            r == Protocol::named(token@),
    {
        if same_bytes(token, "ip4".as_bytes()) {
            Some(Protocol::Ip4)
        } else if same_bytes(token, "ip6".as_bytes()) {
            Some(Protocol::Ip6)
        } else if same_bytes(token, "tcp".as_bytes()) {
            Some(Protocol::Tcp)
        } else if same_bytes(token, "dns".as_bytes()) {
            Some(Protocol::Dns)
        } else if same_bytes(token, "dns4".as_bytes()) {
            Some(Protocol::Dns4)
        } else if same_bytes(token, "dns6".as_bytes()) {
            Some(Protocol::Dns6)
        } else if same_bytes(token, "dnsaddr".as_bytes()) {
            Some(Protocol::Dnsaddr)
        } else if same_bytes(token, "udp".as_bytes()) {
            Some(Protocol::Udp)
        } else if same_bytes(token, "dccp".as_bytes()) {
            Some(Protocol::Dccp)
        } else if same_bytes(token, "ip6zone".as_bytes()) {
            Some(Protocol::Ip6zone)
        } else if same_bytes(token, "sctp".as_bytes()) {
            Some(Protocol::Sctp)
        } else if same_bytes(token, "onion".as_bytes()) {
            Some(Protocol::Onion)
        } else if same_bytes(token, "onion3".as_bytes()) {
            Some(Protocol::Onion3)
        } else if same_bytes(token, "garlic32".as_bytes()) {
            Some(Protocol::Garlic32)
        } else if same_bytes(token, "garlic64".as_bytes()) {
            Some(Protocol::Garlic64)
        } else if same_bytes(token, "p2p".as_bytes()) {
            Some(Protocol::P2p)
        } else if same_bytes(token, "unix".as_bytes()) {
            Some(Protocol::Unix)
        } else if same_bytes(token, "utp".as_bytes()) {
            Some(Protocol::Utp)
        } else if same_bytes(token, "udt".as_bytes()) {
            Some(Protocol::Udt)
        } else if same_bytes(token, "quic".as_bytes()) {
            Some(Protocol::Quic)
        } else if same_bytes(token, "http".as_bytes()) {
            Some(Protocol::Http)
        } else if same_bytes(token, "https".as_bytes()) {
            Some(Protocol::Https)
        } else if same_bytes(token, "p2p-circuit".as_bytes()) {
            Some(Protocol::P2pCircuit)
        } else if same_bytes(token, "p2p-webrtc-direct".as_bytes()) {
            Some(Protocol::P2pWebRtcDirect)
        } else if same_bytes(token, "ws".as_bytes()) {
            Some(Protocol::Ws)
        } else if same_bytes(token, "wss".as_bytes()) {
            Some(Protocol::Wss)
        } else {
            None
        }
    }

    /// The protocol that the number `code` stands for.
    pub fn from_code(code: u128) -> (r: Option<Protocol>)
        ensures
            r == Protocol::coded(code),
    {
        if code == multicodec::IP4 {
            Some(Protocol::Ip4)
        } else if code == multicodec::IP6 {
            Some(Protocol::Ip6)
        } else if code == multicodec::TCP {
            Some(Protocol::Tcp)
        } else if code == multicodec::DNS {
            Some(Protocol::Dns)
        } else if code == multicodec::DNS4 {
            Some(Protocol::Dns4)
        } else if code == multicodec::DNS6 {
            Some(Protocol::Dns6)
        } else if code == multicodec::DNSADDR {
            Some(Protocol::Dnsaddr)
        } else if code == multicodec::UDP {
            Some(Protocol::Udp)
        } else if code == multicodec::DCCP {
            Some(Protocol::Dccp)
        } else if code == multicodec::IP6ZONE {
            Some(Protocol::Ip6zone)
        } else if code == multicodec::SCTP {
            Some(Protocol::Sctp)
        } else if code == multicodec::ONION {
            Some(Protocol::Onion)
        } else if code == multicodec::ONION3 {
            Some(Protocol::Onion3)
        } else if code == multicodec::GARLIC32 {
            Some(Protocol::Garlic32)
        } else if code == multicodec::GARLIC64 {
            Some(Protocol::Garlic64)
        } else if code == multicodec::P2P {
            Some(Protocol::P2p)
        } else if code == multicodec::UNIX {
            Some(Protocol::Unix)
        } else if code == multicodec::UTP {
            Some(Protocol::Utp)
        } else if code == multicodec::UDT {
            Some(Protocol::Udt)
        } else if code == multicodec::QUIC {
            Some(Protocol::Quic)
        } else if code == multicodec::HTTP {
            Some(Protocol::Http)
        } else if code == multicodec::HTTPS {
            Some(Protocol::Https)
        } else if code == multicodec::P2P_CIRCUIT {
            Some(Protocol::P2pCircuit)
        } else if code == multicodec::P2P_WEBRTC_DIRECT {
            Some(Protocol::P2pWebRtcDirect)
        } else if code == multicodec::WS {
            Some(Protocol::Ws)
        } else if code == multicodec::WSS {
            Some(Protocol::Wss)
        } else {
            None
        }
    }
}

/// Each protocol is found again by its number.
pub proof fn lemma_coded(p: Protocol)
    ensures
        Protocol::coded(p.spec_code()) == Some(p),
{
}

} // verus!
