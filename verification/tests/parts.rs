use multiformats::multiaddr::dns4::Dns4;
use multiformats::multiaddr::http::Http;
use multiformats::multiaddr::ip4::Ip4;
use multiformats::multiaddr::p2p::{P2p, PeerId};
use multiformats::multiaddr::protocol::{Form, Protocol};
use multiformats::multiaddr::udp::Udp;
use multiformats::multiaddr::unix::Unix;
use multiformats::multiaddr::Segment;
use multiformats::{Error, ErrorKind};

fn tokens<'a>(parts: &'a [&'a str]) -> Vec<&'a [u8]> {
    parts.iter().map(|p| p.as_bytes()).collect()
}

#[test]
fn a_port_takes_one_token() {
    let parts = tokens(&["53", "quic", "x"]);
    let (udp, rest) = Udp::from_text(&parts).unwrap();
    assert_eq!(udp.to_port(), 53);
    assert_eq!(rest, &parts[1..]);
    assert_eq!(udp.to_text().unwrap(), "/udp/53");
    assert_eq!(udp.encode().unwrap(), vec![0x91, 0x02, 0, 53]);
    let (back, left) = Udp::decode(&[0, 53, 9]).unwrap();
    assert_eq!(back, udp);
    assert_eq!(left, &[9]);
    assert_eq!(Udp::from_text(&[]).unwrap_err().kind(), ErrorKind::BadAddr);
    assert_eq!(Udp::decode(&[0]).unwrap_err().kind(), ErrorKind::DecodeError);
}

#[test]
fn segments_from_plain_values() {
    let udp: Udp = 53u16.into();
    assert_eq!(udp, Udp::from_port(53));
    assert_eq!(Udp::from(7u16).to_port(), 7);
    let unix: Unix = String::from("/tmp/sock").into();
    assert_eq!(unix, Unix::from_path("/tmp/sock".to_string()));
    assert_eq!(Unix::from("/a".to_string()).to_path(), "/a");
}

#[test]
fn a_marker_takes_no_token() {
    let parts = tokens(&["80"]);
    let (http, rest) = Http::from_text(&parts).unwrap();
    assert_eq!(rest, &parts[..]);
    assert_eq!(http.to_text().unwrap(), "/http");
    assert_eq!(http.encode().unwrap(), vec![0xe0, 0x03]);
    let (_, left) = Http::decode(&[1, 2]).unwrap();
    assert_eq!(left, &[1, 2]);
}

#[test]
fn a_name_is_its_bytes() {
    let parts = tokens(&["example.com", "tcp"]);
    let (dns, rest) = Dns4::from_text(&parts).unwrap();
    assert_eq!(rest.len(), 1);
    assert_eq!(dns.as_str().unwrap(), "example.com");
    assert_eq!(dns.as_bytes(), b"example.com");
    let odd = Dns4::from_bytes(&[0xff]);
    assert_eq!(odd.as_str().unwrap_err().kind(), ErrorKind::DecodeError);
    assert_eq!(odd.to_text().unwrap_err().kind(), ErrorKind::DecodeError);
    assert_eq!(odd.encode().unwrap(), vec![0x36, 1, 0xff]);
}

#[test]
fn a_path_takes_every_token() {
    let parts = tokens(&["a", "b", "c"]);
    let (unix, rest) = Unix::from_text(&parts).unwrap();
    assert!(rest.is_empty());
    assert_eq!(unix.to_path(), "/a/b/c");
    assert_eq!(unix.to_text().unwrap(), "/unix/a/b/c");
    let odd = [&[0xffu8][..]];
    assert_eq!(Unix::from_text(&odd).unwrap_err().kind(), ErrorKind::BadAddr);
}

#[test]
fn an_address_is_four_bytes() {
    let ip = Ip4::from_octets([192, 168, 1, 20]);
    assert_eq!(ip.to_addr(), [192, 168, 1, 20]);
    assert_eq!(ip.to_text().unwrap(), "/ip4/192.168.1.20");
    assert_eq!(ip.encode().unwrap(), vec![4, 192, 168, 1, 20]);
}

#[test]
fn a_peer_identity_in_both_forms() {
    let id = "QmcgpsyWgH8Y8ajJz1Cu72KnS5uo2Aa2LpzU7kinSupNKC";
    let text = PeerId::Text(id.to_string());
    let bytes = text.to_bytes().unwrap();
    match &bytes {
        PeerId::Binr(b) => {
            assert_eq!(b.len(), 34);
            assert_eq!(&b[..2], &[0x12, 0x20]);
        }
        other => panic!("not bytes: {:?}", other),
    }
    assert_eq!(bytes.to_bytes().unwrap(), bytes);
    assert_eq!(bytes.to_text().unwrap(), text);
    assert_eq!(text.to_text().unwrap(), text);
    assert_eq!(P2p::from_peer_id(bytes).to_peer_id().unwrap(), id);
    assert_eq!(P2p::from_peer_id(text).to_peer_id().unwrap(), id);
    let odd = [&[0xffu8][..]];
    assert_eq!(P2p::from_text(&odd).unwrap_err().kind(), ErrorKind::BadAddr);
}

#[test]
fn a_segment_is_found_by_its_name() {
    let parts = tokens(&["tcp", "80", "ws"]);
    let (seg, rest) = Segment::from_text(&parts).unwrap();
    assert_eq!(seg.protocol(), Protocol::Tcp);
    assert_eq!(seg.to_multicodec().to_code(), 0x06);
    assert_eq!(rest.len(), 1);
    assert_eq!(seg.to_text().unwrap(), "/tcp/80");
    let data = seg.encode().unwrap();
    let (back, left) = Segment::decode(&data).unwrap();
    assert_eq!(back, seg);
    assert!(left.is_empty());
    assert_eq!(Segment::from_text(&[]).unwrap_err().kind(), ErrorKind::BadAddr);
    assert_eq!(Segment::decode(&[]).unwrap_err().kind(), ErrorKind::DecodeError);
}

#[test]
fn protocols_have_names_numbers_and_shapes() {
    assert_eq!(Protocol::Ip4.name(), "ip4");
    assert_eq!(Protocol::Ip4.code(), 0x04);
    assert_eq!(Protocol::Ip4.form(), Form::Ip4);
    assert_eq!(Protocol::P2pWebRtcDirect.name(), "p2p-webrtc-direct");
    assert_eq!(Protocol::P2pWebRtcDirect.code(), 0x0114);
    assert_eq!(Protocol::P2pWebRtcDirect.form(), Form::Marker);
    assert_eq!(Protocol::from_name(b"garlic64"), Some(Protocol::Garlic64));
    assert_eq!(Protocol::from_name(b"ip"), None);
    assert_eq!(Protocol::from_name(b"ipfs"), None);
    assert_eq!(Protocol::from_name(b""), None);
    assert_eq!(Protocol::from_code(0x01bf), Some(Protocol::Garlic32));
    assert_eq!(Protocol::from_code(0x0113), None);
    assert_eq!(Protocol::Unix.form(), Form::Path);
    assert_eq!(Protocol::Dnsaddr.form(), Form::Name);
}

#[test]
fn errors_say_where_and_what() {
    let e = Error::new(ErrorKind::BadAddr, "udp", "not a port");
    assert_eq!(e.kind(), ErrorKind::BadAddr);
    assert_eq!(e.to_string(), "udp BadAddr: not a port");
    assert_eq!(e, Error::BadAddr("udp".to_string(), "not a port".to_string()));
    let e = Error::new(ErrorKind::NotImplemented, "a", "b");
    assert_eq!(e.to_string(), "a NotImplemented: b");
    let e = Error::new(ErrorKind::IOError, "", "");
    assert_eq!(e.to_string(), " IOError: ");
    assert_eq!(ErrorKind::DecodeError.label(), " DecodeError: ");
}
