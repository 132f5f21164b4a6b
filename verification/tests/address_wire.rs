use multiformats::multiaddr::dns4::Dns4;
use multiformats::multiaddr::ip4::Ip4;
use multiformats::multiaddr::ip6::Ip6;
use multiformats::multiaddr::p2p::{P2p, PeerId};
use multiformats::multiaddr::tcp::Tcp;
use multiformats::multiaddr::udp::Udp;
use multiformats::multiaddr::unix::Unix;
use multiformats::multiaddr::ws::Ws;
use multiformats::multiaddr::{Multiaddr, Segment};
use multiformats::ErrorKind;

fn wire(text: &str) -> Vec<u8> {
    Multiaddr::from_text(text).unwrap().encode().unwrap()
}

fn through_wire(text: &str) -> String {
    let data = wire(text);
    let (ma, rest) = Multiaddr::decode(&data).unwrap();
    assert!(rest.is_empty());
    ma.to_text().unwrap()
}

fn truncated(data: &[u8]) -> bool {
    match Multiaddr::decode(data) {
        Ok(_) => false,
        Err(e) => e.kind() == ErrorKind::DecodeError,
    }
}

#[test]
fn encodes_ip4_and_tcp() {
    assert_eq!(wire("/ip4/127.0.0.1/tcp/4001"), vec![0x04, 127, 0, 0, 1, 0x06, 0x0f, 0xa1]);
}

#[test]
fn decodes_ip4_and_tcp() {
    let data = [0x04, 127, 0, 0, 1, 0x06, 0x0f, 0xa1];
    let (ma, rest) = Multiaddr::decode(&data).unwrap();
    assert!(rest.is_empty());
    assert_eq!(
        ma,
        Multiaddr::from_segments(vec![
            Segment::Ip4(Ip4::from_octets([127, 0, 0, 1])),
            Segment::Tcp(Tcp::from_port(4001)),
        ])
    );
}

#[test]
fn empty_buffer_is_the_empty_chain() {
    let (ma, rest) = Multiaddr::decode(&[]).unwrap();
    assert!(rest.is_empty());
    assert_eq!(ma, Multiaddr::empty());
    assert_eq!(ma.encode().unwrap(), Vec::<u8>::new());
    assert_eq!(ma.to_text().unwrap(), "");
}

#[test]
fn tags_are_varints() {
    // udp is 0x0111, two bytes as a varint
    assert_eq!(wire("/udp/53"), vec![0x91, 0x02, 0, 53]);
    // ws is 0x01dd and carries nothing
    assert_eq!(wire("/ws"), vec![0xdd, 0x03]);
    assert_eq!(
        Multiaddr::from_segments(vec![Segment::Ws(Ws)]).encode().unwrap(),
        vec![0xdd, 0x03]
    );
    assert_eq!(wire("/http"), vec![0xe0, 0x03]);
    assert_eq!(wire("/p2p-circuit"), vec![0xa2, 0x02]);
}

#[test]
fn ports_travel_high_byte_first() {
    assert_eq!(
        Multiaddr::from_segments(vec![Segment::Udp(Udp::from_port(0x1234))]).encode().unwrap(),
        vec![0x91, 0x02, 0x12, 0x34]
    );
    let (ma, _) = Multiaddr::decode(&[0x06, 0xff, 0x01]).unwrap();
    assert_eq!(ma, Multiaddr::from_segments(vec![Segment::Tcp(Tcp::from_port(0xff01))]));
}

#[test]
fn ip6_travels_as_sixteen_bytes() {
    let mut expected = vec![0x29];
    expected.extend_from_slice(&[0x20, 0x01, 0x0d, 0xb8, 0, 0, 0, 0, 0, 0, 0, 0, 0, 0, 0, 1]);
    assert_eq!(wire("/ip6/2001:db8::1"), expected);
    let (ma, _) = Multiaddr::decode(&expected).unwrap();
    assert_eq!(
        ma,
        Multiaddr::from_segments(vec![Segment::Ip6(Ip6::from_octets([
            0x20, 0x01, 0x0d, 0xb8, 0, 0, 0, 0, 0, 0, 0, 0, 0, 0, 0, 1
        ]))])
    );
}

#[test]
fn names_travel_behind_their_length() {
    let mut expected = vec![0x36, 11];
    expected.extend_from_slice(b"example.com");
    expected.extend_from_slice(&[0x06, 0, 80]);
    assert_eq!(wire("/dns4/example.com/tcp/80"), expected);
    let (ma, _) = Multiaddr::decode(&expected).unwrap();
    assert_eq!(
        ma,
        Multiaddr::from_segments(vec![
            Segment::Dns4(Dns4::from_bytes(b"example.com")),
            Segment::Tcp(Tcp::from_port(80)),
        ])
    );
}

#[test]
fn long_names_have_a_long_length() {
    let name = "x".repeat(300);
    let data = wire(&format!("/dns/{}", name));
    assert_eq!(&data[..3], &[0x35, 0xac, 0x02]);
    assert_eq!(data.len(), 303);
    assert_eq!(through_wire(&format!("/dns/{}", name)), format!("/dns/{}", name));
}

#[test]
fn onion_travels_as_hash_and_port() {
    assert_eq!(
        wire("/onion/timaq4ygg2iegci7:1234"),
        vec![0xbc, 0x03, 0x9a, 0x18, 0x08, 0x73, 0x06, 0x36, 0x90, 0x43, 0x09, 0x1f, 0x04, 0xd2]
    );
    assert_eq!(through_wire("/onion/timaq4ygg2iegci7:1234"), "/onion/TIMAQ4YGG2IEGCI7:1234");
}

#[test]
fn onion3_travels_as_hash_and_port() {
    let label = "vww6ybal4bd7szmgncyruucpgfkqahzddi37ktceo3ah7ngmcopnpyyd";
    let data = wire(&format!("/onion3/{}:1234", label));
    assert_eq!(data.len(), 2 + 35 + 2);
    assert_eq!(&data[..4], &[0xbd, 0x03, 0xad, 0xad]);
    assert_eq!(&data[37..], &[0x04, 0xd2]);
    assert_eq!(
        through_wire(&format!("/onion3/{}:1234", label)),
        format!("/onion3/{}:1234", label.to_uppercase())
    );
}

#[test]
fn unix_travels_behind_its_length() {
    assert_eq!(wire("/unix/a/b"), vec![0x90, 0x03, 4, b'/', b'a', b'/', b'b']);
    let (ma, _) = Multiaddr::decode(&[0x90, 0x03, 4, b'/', b'a', b'/', b'b']).unwrap();
    assert_eq!(
        ma,
        Multiaddr::from_segments(vec![Segment::Unix(Unix::from_path("/a/b".to_string()))])
    );
    assert!(truncated(&[0x90, 0x03, 2, 0xff, 0xfe]));
}

#[test]
fn garlic_travels_behind_its_length() {
    let data = wire(&format!("/garlic32/{}", "a".repeat(52)));
    assert_eq!(&data[..3], &[0xbf, 0x03, 32]);
    assert_eq!(data.len(), 35);
    let data = wire(&format!("/garlic64/{}", "A".repeat(516)));
    assert_eq!(&data[..4], &[0xbe, 0x03, 0x83, 0x03]);
    assert_eq!(data.len(), 4 + 387);
}

#[test]
fn truncated_segments_are_rejected() {
    assert!(truncated(&[0x04]));
    assert!(truncated(&[0x04, 127, 0, 0]));
    assert!(truncated(&[0x04, 127, 0, 0, 1, 0x06]));
    assert!(truncated(&[0x04, 127, 0, 0, 1, 0x06, 0x0f]));
    assert!(truncated(&[0x29, 1, 2, 3, 4, 5, 6, 7, 8, 9, 10, 11, 12, 13, 14, 15]));
    assert!(truncated(&[0x36]));
    assert!(truncated(&[0x36, 3, b'a', b'b']));
    assert!(truncated(&[0xbc, 0x03, 1, 2, 3, 4, 5, 6, 7, 8, 9, 10, 0]));
    assert!(truncated(&[0x91]));
    assert!(truncated(&[0x80]));
}

#[test]
fn unknown_tags_are_rejected() {
    assert!(truncated(&[0x05]));
    assert!(truncated(&[0x12, 0x20]));
    assert!(truncated(&[0x00]));
    // a zero byte behind a byte that promises more is padding
    assert!(truncated(&[0x84, 0x00, 0, 1]));
}

#[test]
fn a_length_that_runs_past_the_end_is_rejected() {
    assert!(truncated(&[0x36, 0xff, 0xff, 0xff, 0xff, 0xff, 0xff, 0xff, 0xff, 0xff, 0x01, b'a']));
    assert!(truncated(&[
        0x36, 0x80, 0x80, 0x80, 0x80, 0x80, 0x80, 0x80, 0x80, 0x80, 0x80, 0x80, 0x80, 0x80, 0x80,
        0x80, 0x80, 0x80, 0x80, 0x02, b'a'
    ]));
}

#[test]
fn legacy_peer_identity_travels_as_its_digest() {
    let id = "QmcgpsyWgH8Y8ajJz1Cu72KnS5uo2Aa2LpzU7kinSupNKC";
    let data = wire(&format!("/p2p/{}", id));
    let mut expected = vec![0xa5, 0x03, 34, 0x12, 0x20];
    expected.extend_from_slice(&[
        0xd5, 0x2e, 0xbb, 0x89, 0xd8, 0x5b, 0x02, 0xa2, 0x84, 0x94, 0x82, 0x03, 0xa6, 0x2f, 0xf2,
        0x83, 0x89, 0xc5, 0x7c, 0x9f, 0x42, 0xbe, 0xec, 0x4e, 0xc2, 0x0d, 0xb7, 0x6a, 0x68, 0x91,
        0x1c, 0x0b,
    ]);
    assert_eq!(data, expected);
    assert_eq!(through_wire(&format!("/p2p/{}", id)), format!("/p2p/{}", id));
    assert_eq!(through_wire(&format!("/ipfs/{}", id)), format!("/p2p/{}", id));
}

#[test]
fn wrapped_peer_identity_travels_as_its_digest() {
    let cid = "bafzbeigvf25ytwc3akrijfecaotc74udrhcxzh2cx3we5qqnw5vgrei4bm";
    let id = "QmcgpsyWgH8Y8ajJz1Cu72KnS5uo2Aa2LpzU7kinSupNKC";
    assert_eq!(wire(&format!("/p2p/{}", cid)), wire(&format!("/p2p/{}", id)));
    assert_eq!(through_wire(&format!("/p2p/{}", cid)), format!("/p2p/{}", id));
}

#[test]
fn identity_peer_identity_travels_as_it_is() {
    let id = "12D3KooWD3eckifWpRn9wQpMG9R9hX3sD158z7EqHWmweQAJU5SA";
    let data = wire(&format!("/p2p/{}", id));
    assert_eq!(&data[..5], &[0xa5, 0x03, 38, 0x00, 0x24]);
    assert_eq!(data.len(), 3 + 38);
    assert_eq!(through_wire(&format!("/p2p/{}", id)), format!("/p2p/{}", id));
}

#[test]
fn peer_identity_that_is_none_cannot_travel() {
    let bad = Multiaddr::from_text("/p2p/not-an-identity-at-all").unwrap();
    assert_eq!(bad.encode().unwrap_err().kind(), ErrorKind::BadInput);
    // base58 for bytes that are no record of a digest
    let bad = Multiaddr::from_text("/p2p/Qm").unwrap();
    assert!(bad.encode().is_err());
    // a version 1 identifier that wraps something other than a libp2p key:
    // "bafk..." is a raw block
    let raw = Multiaddr::from_text(
        "/p2p/bafkreifzjut3te2nhyekklss27nh3k72ysco7y32koao5eei66wof36n5e",
    )
    .unwrap();
    assert_eq!(raw.encode().unwrap_err().kind(), ErrorKind::Invalid);
}

#[test]
fn peer_identity_with_an_unknown_hash_is_not_implemented() {
    // 0x22 is murmur3-128: known to the table, not to the hashers
    let data = [0xa5, 0x03, 4, 0x22, 2, 0xaa, 0xbb];
    let (ma, _) = Multiaddr::decode(&data).unwrap();
    assert_eq!(ma.to_text().unwrap_err().kind(), ErrorKind::NotImplemented);
    assert_eq!(ma.encode().unwrap(), data.to_vec());
    match ma {
        Multiaddr::Chain(segments) => match &segments[0] {
            Segment::P2p(p) => {
                assert_eq!(p.to_peer_id().unwrap_err().kind(), ErrorKind::NotImplemented)
            }
            other => panic!("not p2p: {:?}", other),
        },
        other => panic!("not a chain: {:?}", other),
    }
}

#[test]
fn peer_identity_read_off_the_wire_is_kept_as_bytes() {
    let data = [0xa5, 0x03, 4, 0x00, 2, 0xaa, 0xbb];
    let (ma, _) = Multiaddr::decode(&data).unwrap();
    assert_eq!(
        ma,
        Multiaddr::from_segments(vec![Segment::P2p(P2p::from_peer_id(PeerId::Binr(vec![
            0x00, 2, 0xaa, 0xbb
        ])))])
    );
}

#[test]
fn unparsed_bytes_are_decoded_before_they_are_encoded() {
    let lazy = Multiaddr::Binary(vec![0x04, 127, 0, 0, 1, 0x06, 0x0f, 0xa1]);
    assert_eq!(lazy.to_text().unwrap(), "/ip4/127.0.0.1/tcp/4001");
    assert_eq!(lazy.encode().unwrap(), vec![0x04, 127, 0, 0, 1, 0x06, 0x0f, 0xa1]);
    let cut = Multiaddr::Binary(vec![0x04, 127, 0, 0]);
    assert_eq!(cut.encode().unwrap_err().kind(), ErrorKind::DecodeError);
    assert_eq!(cut.to_text().unwrap_err().kind(), ErrorKind::DecodeError);
}

#[test]
fn every_protocol_comes_back_from_the_wire() {
    let texts = [
        "/ip4/1.2.3.4",
        "/ip6/1:2:3:4:5:6:7:8",
        "/tcp/1",
        "/dns/a",
        "/dns4/a",
        "/dns6/a",
        "/dnsaddr/a",
        "/udp/2",
        "/dccp/3",
        "/ip6zone/eth0",
        "/sctp/4",
        "/onion/TIMAQ4YGG2IEGCI7:5",
        "/onion3/VWW6YBAL4BD7SZMGNCYRUUCPGFKQAHZDDI37KTCEO3AH7NGMCOPNPYYD:6",
        "/p2p/QmcgpsyWgH8Y8ajJz1Cu72KnS5uo2Aa2LpzU7kinSupNKC",
        "/unix/a/b",
        "/utp",
        "/udt",
        "/quic",
        "/http",
        "/https",
        "/p2p-circuit",
        "/p2p-webrtc-direct",
        "/ws",
        "/wss",
    ];
    for text in texts.iter() {
        assert_eq!(through_wire(text), *text);
    }
    let all: String = texts[..14].concat();
    assert_eq!(through_wire(&all), all);
}

#[test]
fn the_first_number_of_a_chain_is_its_codec() {
    let ma = Multiaddr::from_text("/ip4/127.0.0.1/tcp/4001").unwrap();
    assert_eq!(ma.to_multicodec().unwrap().to_code(), 0x04);
    let ma = Multiaddr::from_text("/wss").unwrap();
    assert_eq!(ma.to_multicodec().unwrap().to_code(), 0x01de);
    assert!(Multiaddr::empty().to_multicodec().is_none());
    assert!(Multiaddr::Text("/ip4/1.2.3.4".to_string()).to_multicodec().is_none());
    assert!(Multiaddr::Binary(vec![0x04, 1, 2, 3, 4]).to_multicodec().is_none());
}
