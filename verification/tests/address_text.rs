use multiformats::multiaddr::ip4::Ip4;
use multiformats::multiaddr::ip6::Ip6;
use multiformats::multiaddr::onion::Onion;
use multiformats::multiaddr::p2p::{P2p, PeerId};
use multiformats::multiaddr::tcp::Tcp;
use multiformats::multiaddr::unix::Unix;
use multiformats::multiaddr::{Multiaddr, Segment};
use multiformats::ErrorKind;

fn chain(text: &str) -> Vec<Segment> {
    match Multiaddr::from_text(text).unwrap() {
        Multiaddr::Chain(segments) => segments,
        other => panic!("not a chain: {:?}", other),
    }
}

fn rejected(text: &str) -> bool {
    match Multiaddr::from_text(text) {
        Ok(_) => false,
        Err(e) => e.kind() == ErrorKind::BadAddr,
    }
}

fn round_trip(text: &str) {
    let ma = Multiaddr::from_text(text).unwrap();
    assert_eq!(ma.to_text().unwrap(), text);
}

fn ip6_of(text: &str) -> [u8; 16] {
    let t = format!("/ip6/{}", text);
    match chain(&t).pop().unwrap() {
        Segment::Ip6(ip) => ip.to_addr(),
        other => panic!("not ip6: {:?}", other),
    }
}

fn ip6_text(addr: [u8; 16]) -> String {
    Multiaddr::from_segments(vec![Segment::Ip6(Ip6::from_octets(addr))]).to_text().unwrap()
}

#[test]
fn parses_ip4_and_tcp() {
    let segments = chain("/ip4/127.0.0.1/tcp/4001");
    assert_eq!(
        segments,
        vec![
            Segment::Ip4(Ip4::from_octets([127, 0, 0, 1])),
            Segment::Tcp(Tcp::from_port(4001)),
        ]
    );
}

#[test]
fn text_must_start_with_a_slash() {
    assert!(rejected("ip4/127.0.0.1"));
    assert!(rejected("tcp"));
    assert!(rejected("a/ip4/1.2.3.4"));
}

#[test]
fn empty_text_is_rejected() {
    assert!(rejected(""));
    assert!(rejected("/"));
    assert!(rejected("//"));
}

#[test]
fn unknown_protocol_is_rejected() {
    assert!(rejected("/ip5/1.2.3.4"));
    assert!(rejected("/tcp/80/nothing"));
    assert!(rejected("/IP4/1.2.3.4"));
}

#[test]
fn trailing_slash_is_rejected() {
    assert!(rejected("/tcp/80/"));
    assert!(rejected("/http/"));
}

#[test]
fn missing_payload_is_rejected() {
    assert!(rejected("/tcp"));
    assert!(rejected("/ip4"));
    assert!(rejected("/ip4/1.2.3.4/udp"));
    assert!(rejected("/unix"));
    assert!(rejected("/p2p"));
    assert!(rejected("/onion"));
    assert!(rejected("/dns4"));
}

#[test]
fn markers_take_no_payload() {
    round_trip("/http");
    round_trip("/https/ws/wss/quic/utp/udt/p2p-circuit/p2p-webrtc-direct");
    round_trip("/ip4/1.2.3.4/tcp/443/https");
    assert!(rejected("/http/80"));
}

#[test]
fn ports_are_decimal() {
    round_trip("/tcp/0");
    round_trip("/udp/65535");
    round_trip("/dccp/7");
    round_trip("/sctp/1234");
    assert!(rejected("/tcp/65536"));
    assert!(rejected("/tcp/-1"));
    assert!(rejected("/tcp/"));
    assert!(rejected("/tcp/8o"));
    assert!(rejected("/tcp/+"));
    assert!(rejected("/tcp/99999999999999999999999999"));
}

#[test]
fn ports_are_written_without_sign_or_leading_zeros() {
    assert_eq!(Multiaddr::from_text("/tcp/+80").unwrap().to_text().unwrap(), "/tcp/80");
    assert_eq!(Multiaddr::from_text("/tcp/0080").unwrap().to_text().unwrap(), "/tcp/80");
    assert_eq!(Multiaddr::from_text("/udp/000").unwrap().to_text().unwrap(), "/udp/0");
}

#[test]
fn ip4_is_dotted_decimal() {
    round_trip("/ip4/0.0.0.0");
    round_trip("/ip4/255.255.255.255");
    round_trip("/ip4/10.0.200.1");
    assert!(rejected("/ip4/256.0.0.1"));
    assert!(rejected("/ip4/1.2.3"));
    assert!(rejected("/ip4/1.2.3.4.5"));
    assert!(rejected("/ip4/01.2.3.4"));
    assert!(rejected("/ip4/1.2.3.04"));
    assert!(rejected("/ip4/1..2.3"));
    assert!(rejected("/ip4/1.2.3.4 "));
    assert!(rejected("/ip4/+1.2.3.4"));
    assert!(rejected("/ip4/1.2.3.1000"));
    assert!(rejected("/ip4/::1"));
}

#[test]
fn ip6_reads_full_and_shortened_forms() {
    assert_eq!(ip6_of("::"), [0u8; 16]);
    assert_eq!(ip6_of("::1"), [0, 0, 0, 0, 0, 0, 0, 0, 0, 0, 0, 0, 0, 0, 0, 1]);
    assert_eq!(ip6_of("1::"), [0, 1, 0, 0, 0, 0, 0, 0, 0, 0, 0, 0, 0, 0, 0, 0]);
    assert_eq!(
        ip6_of("2001:db8::ff00:42:8329"),
        [0x20, 0x01, 0x0d, 0xb8, 0, 0, 0, 0, 0, 0, 0xff, 0, 0, 0x42, 0x83, 0x29]
    );
    assert_eq!(
        ip6_of("1:2:3:4:5:6:7:8"),
        [0, 1, 0, 2, 0, 3, 0, 4, 0, 5, 0, 6, 0, 7, 0, 8]
    );
    assert_eq!(
        ip6_of("1:2:3:4:5:6:7::"),
        [0, 1, 0, 2, 0, 3, 0, 4, 0, 5, 0, 6, 0, 7, 0, 0]
    );
    assert_eq!(
        ip6_of("::2:3:4:5:6:7:8"),
        [0, 0, 0, 2, 0, 3, 0, 4, 0, 5, 0, 6, 0, 7, 0, 8]
    );
    assert_eq!(
        ip6_of("ABCD:EF01:2345:6789:abcd:ef01:2345:6789"),
        [0xab, 0xcd, 0xef, 0x01, 0x23, 0x45, 0x67, 0x89, 0xab, 0xcd, 0xef, 0x01, 0x23, 0x45, 0x67,
            0x89]
    );
    assert_eq!(
        ip6_of("0001:002:03:4::"),
        [0, 1, 0, 2, 0, 3, 0, 4, 0, 0, 0, 0, 0, 0, 0, 0]
    );
}

#[test]
fn ip6_reads_dotted_decimal_at_the_end() {
    assert_eq!(
        ip6_of("::ffff:1.2.3.4"),
        [0, 0, 0, 0, 0, 0, 0, 0, 0, 0, 0xff, 0xff, 1, 2, 3, 4]
    );
    assert_eq!(ip6_of("::1.2.3.4"), [0, 0, 0, 0, 0, 0, 0, 0, 0, 0, 0, 0, 1, 2, 3, 4]);
    assert_eq!(
        ip6_of("1:2:3:4:5:6:1.2.3.4"),
        [0, 1, 0, 2, 0, 3, 0, 4, 0, 5, 0, 6, 1, 2, 3, 4]
    );
    assert_eq!(
        ip6_of("1:2:3:4:5::1.2.3.4"),
        [0, 1, 0, 2, 0, 3, 0, 4, 0, 5, 0, 0, 1, 2, 3, 4]
    );
    assert!(rejected("/ip6/1:2:3:4:5:6::1.2.3.4"));
    assert!(rejected("/ip6/1.2.3.4::"));
    assert!(rejected("/ip6/1.2.3.4::1"));
    assert!(rejected("/ip6/1:2:3:4:5:6:7:1.2.3.4"));
    assert!(rejected("/ip6/1:2:3:4:5:1.2.3.4:8"));
    assert!(rejected("/ip6/::1.2.3"));
    assert!(rejected("/ip6/::01.2.3.4"));
    assert!(rejected("/ip6/1.2.3.4"));
}

#[test]
fn ip6_rejects_what_is_no_address() {
    assert!(rejected("/ip6/"));
    assert!(rejected("/ip6/:"));
    assert!(rejected("/ip6/:::"));
    assert!(rejected("/ip6/1"));
    assert!(rejected("/ip6/1:2:3:4:5:6:7"));
    assert!(rejected("/ip6/1:2:3:4:5:6:7:8:9"));
    assert!(rejected("/ip6/1:2:3:4:5:6:7:8::"));
    assert!(rejected("/ip6/::1:2:3:4:5:6:7:8"));
    assert!(rejected("/ip6/1::2::3"));
    assert!(rejected("/ip6/1:::2"));
    assert!(rejected("/ip6/12345::"));
    assert!(rejected("/ip6/g::"));
    assert!(rejected("/ip6/:1:2:3:4:5:6:7"));
    assert!(rejected("/ip6/1:2:3:4:5:6:7:"));
    assert!(rejected("/ip6/::1 "));
    assert!(rejected("/ip6/127.0.0.1"));
}

#[test]
fn ip6_is_written_in_its_shortest_form() {
    assert_eq!(ip6_text([0u8; 16]), "/ip6/::");
    assert_eq!(ip6_text([0, 0, 0, 0, 0, 0, 0, 0, 0, 0, 0, 0, 0, 0, 0, 1]), "/ip6/::1");
    assert_eq!(ip6_text([0, 1, 0, 0, 0, 0, 0, 0, 0, 0, 0, 0, 0, 0, 0, 0]), "/ip6/1::");
    assert_eq!(
        ip6_text([0x20, 0x01, 0x0d, 0xb8, 0, 0, 0, 0, 0, 0, 0xff, 0, 0, 0x42, 0x83, 0x29]),
        "/ip6/2001:db8::ff00:42:8329"
    );
    assert_eq!(
        ip6_text([0, 1, 0, 2, 0, 3, 0, 4, 0, 5, 0, 6, 0, 7, 0, 8]),
        "/ip6/1:2:3:4:5:6:7:8"
    );
    // a single zero group is written out
    assert_eq!(
        ip6_text([0, 1, 0, 0, 0, 3, 0, 4, 0, 5, 0, 6, 0, 7, 0, 8]),
        "/ip6/1:0:3:4:5:6:7:8"
    );
    // of two runs of the same length the first is left out
    assert_eq!(
        ip6_text([0, 1, 0, 0, 0, 0, 0, 4, 0, 5, 0, 0, 0, 0, 0, 8]),
        "/ip6/1::4:5:0:0:8"
    );
    // the longer run is left out, wherever it stands
    assert_eq!(
        ip6_text([0, 1, 0, 0, 0, 0, 0, 4, 0, 0, 0, 0, 0, 0, 0, 8]),
        "/ip6/1:0:0:4::8"
    );
    assert_eq!(
        ip6_text([0xab, 0xcd, 0, 0x0f, 0, 0, 0, 0, 0, 0, 0, 0, 0, 0, 0x10, 0]),
        "/ip6/abcd:f::1000"
    );
}

#[test]
fn ip6_keeps_dotted_decimal_for_mapped_addresses() {
    assert_eq!(
        ip6_text([0, 0, 0, 0, 0, 0, 0, 0, 0, 0, 0xff, 0xff, 192, 168, 0, 1]),
        "/ip6/::ffff:192.168.0.1"
    );
    assert_eq!(
        ip6_text([0, 0, 0, 0, 0, 0, 0, 0, 0, 0, 0, 0, 1, 2, 3, 4]),
        "/ip6/::102:304"
    );
    assert_eq!(
        ip6_text([0, 0, 0, 0, 0, 0, 0, 0, 0, 0, 0xff, 0xfe, 1, 2, 3, 4]),
        "/ip6/::fffe:102:304"
    );
}

#[test]
fn ip_token_tries_version_4_first() {
    assert_eq!(chain("/ip/127.0.0.1"), vec![Segment::Ip4(Ip4::from_octets([127, 0, 0, 1]))]);
    assert_eq!(
        chain("/ip/::1"),
        vec![Segment::Ip6(Ip6::from_octets([0, 0, 0, 0, 0, 0, 0, 0, 0, 0, 0, 0, 0, 0, 0, 1]))]
    );
    assert_eq!(
        Multiaddr::from_text("/ip/127.0.0.1/tcp/80").unwrap().to_text().unwrap(),
        "/ip4/127.0.0.1/tcp/80"
    );
    assert_eq!(Multiaddr::from_text("/ip/::1").unwrap().to_text().unwrap(), "/ip6/::1");
    assert!(rejected("/ip/nothing"));
    assert!(rejected("/ip"));
}

#[test]
fn ipfs_is_another_name_for_p2p() {
    let id = "QmcgpsyWgH8Y8ajJz1Cu72KnS5uo2Aa2LpzU7kinSupNKC";
    let old = Multiaddr::from_text(&format!("/ipfs/{}", id)).unwrap();
    let new = Multiaddr::from_text(&format!("/p2p/{}", id)).unwrap();
    assert_eq!(old, new);
    assert_eq!(
        new,
        Multiaddr::from_segments(vec![Segment::P2p(P2p::from_peer_id(PeerId::Text(
            id.to_string()
        )))])
    );
    assert_eq!(old.to_text().unwrap(), format!("/p2p/{}", id));
}

#[test]
fn names_are_kept_as_written() {
    round_trip("/dns/example.com");
    round_trip("/dns4/example.com/tcp/80");
    round_trip("/dns6/ipv6.example.com/udp/53");
    round_trip("/dnsaddr/bootstrap.libp2p.io");
    round_trip("/ip6zone/eth0/ip6/fe80::1");
    round_trip("/dns4/b\u{fc}cher.example");
    round_trip("/dns4//tcp/1");
}

#[test]
fn unix_takes_all_that_is_left() {
    let segments = chain("/unix/var/run/app.sock");
    assert_eq!(segments.len(), 1);
    match &segments[0] {
        Segment::Unix(u) => assert_eq!(u.to_path(), "/var/run/app.sock"),
        other => panic!("not unix: {:?}", other),
    }
    round_trip("/unix/var/run/app.sock");
    round_trip("/ip4/127.0.0.1/unix/tcp/80");
    let after = chain("/ip4/127.0.0.1/unix/tcp/80");
    assert_eq!(after.len(), 2);
    round_trip("/unix/a//b/");
}

#[test]
fn unix_writes_its_path_as_it_is() {
    let ma = Multiaddr::from_segments(vec![Segment::Unix(Unix::from_path("/a/b".to_string()))]);
    assert_eq!(ma.to_text().unwrap(), "/unix/a/b");
}

#[test]
fn onion_boundaries() {
    round_trip("/onion/TIMAQ4YGG2IEGCI7:80");
    round_trip("/onion/TIMAQ4YGG2IEGCI7:1");
    round_trip("/onion/TIMAQ4YGG2IEGCI7:65535");
    assert!(rejected("/onion/TIMAQ4YGG2IEGCI7:0"));
    assert!(rejected("/onion/TIMAQ4YGG2IEGCI7:65536"));
    assert!(rejected("/onion/TIMAQ4YGG2IEGCI7:-1"));
    assert!(rejected("/onion/TIMAQ4YGG2IEGCI7"));
    assert!(rejected("/onion/TIMAQ4YGG2IEGCI7:"));
    assert!(rejected("/onion/TIMAQ4YGG2IEGCI:80"));
    assert!(rejected("/onion/TIMAQ4YGG2IEGCI77:80"));
    assert!(rejected("/onion/TIMAQ4YGG2IEGCI1:80"));
    assert!(rejected("/onion/TIMAQ4YGG2IEGC=7:80"));
}

#[test]
fn onion_labels_are_read_in_either_case_and_written_in_capitals() {
    let lower = Multiaddr::from_text("/onion/timaq4ygg2iegci7:1234").unwrap();
    let upper = Multiaddr::from_text("/onion/TIMAQ4YGG2IEGCI7:1234").unwrap();
    assert_eq!(lower, upper);
    assert_eq!(lower.to_text().unwrap(), "/onion/TIMAQ4YGG2IEGCI7:1234");
    match chain("/onion/timaq4ygg2iegci7:1234").pop().unwrap() {
        Segment::Onion(o) => {
            assert_eq!(o.to_hash(), [0x9a, 0x18, 0x08, 0x73, 0x06, 0x36, 0x90, 0x43, 0x09, 0x1f]);
            assert_eq!(o.to_port(), 1234);
        }
        other => panic!("not onion: {:?}", other),
    }
}

#[test]
fn onion_ignores_what_follows_a_second_colon() {
    let ma = Multiaddr::from_text("/onion/TIMAQ4YGG2IEGCI7:80:more").unwrap();
    assert_eq!(ma.to_text().unwrap(), "/onion/TIMAQ4YGG2IEGCI7:80");
}

#[test]
fn onion3_boundaries() {
    let label = "VWW6YBAL4BD7SZMGNCYRUUCPGFKQAHZDDI37KTCEO3AH7NGMCOPNPYYD";
    round_trip(&format!("/onion3/{}:1234", label));
    round_trip(&format!("/onion3/{}:1", label));
    assert!(rejected(&format!("/onion3/{}:0", label)));
    assert!(rejected(&format!("/onion3/{}:65536", label)));
    assert!(rejected(&format!("/onion3/{}", label)));
    assert!(rejected(&format!("/onion3/{}:80", &label[1..])));
    assert!(rejected("/onion3/TIMAQ4YGG2IEGCI7:80"));
    assert!(rejected(&format!("/onion/{}:80", label)));
    let lower = Multiaddr::from_text(&format!("/onion3/{}:80", label.to_lowercase())).unwrap();
    assert_eq!(lower.to_text().unwrap(), format!("/onion3/{}:80", label));
}

#[test]
fn garlic64_boundaries() {
    let shortest = "A".repeat(516);
    let too_short = "A".repeat(515);
    let longest = "A".repeat(616);
    let too_long = "A".repeat(617);
    assert!(rejected(&format!("/garlic64/{}", too_short)));
    assert!(rejected(&format!("/garlic64/{}", too_long)));
    round_trip(&format!("/garlic64/{}", shortest));
    round_trip(&format!("/garlic64/{}", longest));
    match chain(&format!("/garlic64/{}", shortest)).pop().unwrap() {
        Segment::Garlic64(g) => assert_eq!(g.as_bytes(), vec![0u8; 387].as_slice()),
        other => panic!("not garlic64: {:?}", other),
    }
}

#[test]
fn garlic64_reads_the_i2p_alphabet() {
    let mut text = "A".repeat(512);
    text.push_str("-~-~");
    match chain(&format!("/garlic64/{}", text)).pop().unwrap() {
        Segment::Garlic64(g) => {
            let b = g.as_bytes();
            assert_eq!(b.len(), 387);
            assert_eq!(&b[384..], &[0xfb, 0xff, 0xbf]);
        }
        other => panic!("not garlic64: {:?}", other),
    }
    let mut plus = "A".repeat(512);
    plus.push_str("+/+/");
    assert!(rejected(&format!("/garlic64/{}", plus)));
}

#[test]
fn garlic32_boundaries() {
    let usual = "a".repeat(52);
    assert!(rejected(&format!("/garlic32/{}", "a".repeat(51))));
    assert!(rejected(&format!("/garlic32/{}", "a".repeat(53))));
    assert!(rejected(&format!("/garlic32/{}", "a".repeat(54))));
    assert!(rejected("/garlic32/"));
    match chain(&format!("/garlic32/{}", usual)).pop().unwrap() {
        Segment::Garlic32(g) => assert_eq!(g.as_bytes(), vec![0u8; 32].as_slice()),
        other => panic!("not garlic32: {:?}", other),
    }
    let ma = Multiaddr::from_text(&format!("/garlic32/{}", usual)).unwrap();
    assert_eq!(ma.to_text().unwrap(), format!("/garlic32/{}====", usual));
    assert!(rejected(&format!("/garlic32/{}", "A".repeat(52))));
}

#[test]
fn garlic32_pads_to_the_next_multiple_of_eight() {
    // 55 signs take one sign of padding, 56 take eight and read as nothing
    match chain(&format!("/garlic32/{}", "a".repeat(55))).pop().unwrap() {
        Segment::Garlic32(g) => assert_eq!(g.as_bytes(), vec![0u8; 34].as_slice()),
        other => panic!("not garlic32: {:?}", other),
    }
    match chain(&format!("/garlic32/{}", "a".repeat(58))).pop().unwrap() {
        Segment::Garlic32(g) => assert_eq!(g.as_bytes(), vec![0u8; 36].as_slice()),
        other => panic!("not garlic32: {:?}", other),
    }
    assert!(rejected(&format!("/garlic32/{}", "a".repeat(56))));
}

#[test]
fn peer_identities_are_kept_as_written() {
    round_trip("/p2p/QmcgpsyWgH8Y8ajJz1Cu72KnS5uo2Aa2LpzU7kinSupNKC");
    round_trip("/p2p/bafzbeigvf25ytwc3akrijfecaotc74udrhcxzh2cx3we5qqnw5vgrei4bm");
    round_trip("/p2p/not-an-identity-at-all");
    round_trip("/ip4/1.2.3.4/tcp/4001/p2p/QmcgpsyWgH8Y8ajJz1Cu72KnS5uo2Aa2LpzU7kinSupNKC");
}

#[test]
fn unparsed_text_is_parsed_before_it_is_written() {
    let lazy = Multiaddr::Text("/ip/127.0.0.1/tcp/+80".to_string());
    assert_eq!(lazy.to_text().unwrap(), "/ip4/127.0.0.1/tcp/80");
    let bad = Multiaddr::Text("ip4/127.0.0.1".to_string());
    assert_eq!(bad.to_text().unwrap_err().kind(), ErrorKind::BadAddr);
    assert_eq!(bad.encode().unwrap_err().kind(), ErrorKind::BadAddr);
}

#[test]
fn names_that_are_no_text_cannot_be_written() {
    let data = [0x36, 2, 0xff, 0xfe];
    let (ma, _) = Multiaddr::decode(&data).unwrap();
    assert_eq!(ma.to_text().unwrap_err().kind(), ErrorKind::DecodeError);
    assert_eq!(ma.encode().unwrap(), data.to_vec());
}

#[test]
fn onion_text_and_structure() {
    let ma = Multiaddr::from_text("/onion/TIMAQ4YGG2IEGCI7:80").unwrap();
    match ma {
        Multiaddr::Chain(ref segments) => match &segments[0] {
            Segment::Onion(o) => {
                let again: &Onion = o;
                assert_eq!(again.to_port(), 80);
            }
            other => panic!("not onion: {:?}", other),
        },
        ref other => panic!("not a chain: {:?}", other),
    }
}
