//! Addresses as chains of protocol segments.

pub mod addr;
pub mod chain;
pub mod dccp;
pub mod dns;
pub mod dns4;
pub mod dns6;
pub mod dnsaddr;
pub mod garlic32;
pub mod garlic64;
pub mod http;
pub mod https;
pub mod ip4;
pub mod ip6;
pub mod ip6_laws;
pub mod ip6zone;
pub mod laws;
pub mod onion;
pub mod onion3;
pub mod p2p;
pub mod p2p_circuit;
pub mod p2p_webrtc_direct;
pub mod payload;
pub mod peer;
pub mod protocol;
pub mod quic;
pub mod sctp;
pub mod segment;
pub mod tcp;
pub mod text_form;
pub mod udp;
pub mod udt;
pub mod unix;
pub mod utp;
pub mod wire;
pub mod ws;
pub mod wss;

pub use addr::{Multiaddr, MultiaddrView};
pub use segment::Segment;
