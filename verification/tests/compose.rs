use multiformats::multiaddr::ip4::Ip4;
use multiformats::multiaddr::tcp::Tcp;
use multiformats::multiaddr::{Multiaddr, Segment};
use multiformats::ErrorKind;

fn thin(text: &str) -> bool {
    Multiaddr::from_text(text).unwrap().is_thin_wait()
}

#[test]
fn split_and_join_ip4_tcp() {
    let ma = Multiaddr::from_text("/ip4/127.0.0.1/tcp/4001").unwrap();
    let parts = ma.clone().split().unwrap();
    assert_eq!(
        parts,
        vec![
            Multiaddr::from_segments(vec![Segment::Ip4(Ip4::from_octets([127, 0, 0, 1]))]),
            Multiaddr::from_segments(vec![Segment::Tcp(Tcp::from_port(4001))]),
        ]
    );
    assert_eq!(Multiaddr::join(parts).unwrap(), ma);
}

#[test]
fn split_keeps_the_order_of_the_segments() {
    let text = "/dns4/example.com/tcp/443/https/ws/p2p/QmcgpsyWgH8Y8ajJz1Cu72KnS5uo2Aa2LpzU7kinSupNKC";
    let parts = Multiaddr::from_text(text).unwrap().split().unwrap();
    let texts: Vec<String> = parts.iter().map(|p| p.to_text().unwrap()).collect();
    assert_eq!(
        texts,
        vec![
            "/dns4/example.com",
            "/tcp/443",
            "/https",
            "/ws",
            "/p2p/QmcgpsyWgH8Y8ajJz1Cu72KnS5uo2Aa2LpzU7kinSupNKC"
        ]
    );
    assert_eq!(Multiaddr::join(parts).unwrap().to_text().unwrap(), text);
}

#[test]
fn split_reads_text_and_bytes_first() {
    let parts = Multiaddr::Text("/ip4/1.2.3.4/udp/53".to_string()).split().unwrap();
    assert_eq!(parts.len(), 2);
    assert_eq!(parts[1].to_text().unwrap(), "/udp/53");
    let parts = Multiaddr::Binary(vec![0x04, 1, 2, 3, 4, 0x06, 0, 80]).split().unwrap();
    assert_eq!(parts.len(), 2);
    assert_eq!(parts[0].to_text().unwrap(), "/ip4/1.2.3.4");
    assert_eq!(
        Multiaddr::Text("nothing".to_string()).split().unwrap_err().kind(),
        ErrorKind::BadAddr
    );
    assert_eq!(
        Multiaddr::Binary(vec![0x04, 1]).split().unwrap_err().kind(),
        ErrorKind::DecodeError
    );
}

#[test]
fn split_of_nothing_is_nothing() {
    assert_eq!(Multiaddr::empty().split().unwrap(), Vec::<Multiaddr>::new());
    assert_eq!(Multiaddr::join(Vec::new()).unwrap(), Multiaddr::empty());
}

#[test]
fn join_wants_one_segment_in_each_part() {
    let two = Multiaddr::from_text("/ip4/1.2.3.4/tcp/80").unwrap();
    let one = Multiaddr::from_text("/ws").unwrap();
    assert_eq!(
        Multiaddr::join(vec![one.clone(), two]).unwrap_err().kind(),
        ErrorKind::Invalid
    );
    assert_eq!(
        Multiaddr::join(vec![one.clone(), Multiaddr::empty()]).unwrap_err().kind(),
        ErrorKind::Invalid
    );
    assert_eq!(
        Multiaddr::join(vec![Multiaddr::Text("/ws".to_string()), one.clone()])
            .unwrap_err()
            .kind(),
        ErrorKind::Invalid
    );
    assert_eq!(
        Multiaddr::join(vec![one.clone(), Multiaddr::Binary(vec![0xdd, 0x03])])
            .unwrap_err()
            .kind(),
        ErrorKind::Invalid
    );
    assert_eq!(Multiaddr::join(vec![one.clone(), one]).unwrap().to_text().unwrap(), "/ws/ws");
}

#[test]
fn thin_waist_cases() {
    assert!(thin("/ip4/1.2.3.4/tcp/80"));
    assert!(thin("/ip6/::1"));
    assert!(thin("/ip4/1.2.3.4"));
    assert!(thin("/ip6/::1/udp/53"));
    assert!(thin("/ip/1.2.3.4/udp/53"));
    assert!(!thin("/dns4/example.com"));
    assert!(!thin("/ip4/1.2.3.4/tcp/80/ws"));
    assert!(!thin("/ip4/1.2.3.4/udp/53/quic"));
    assert!(!thin("/ip4/1.2.3.4/sctp/80"));
    assert!(!thin("/ip4/1.2.3.4/dccp/80"));
    assert!(!thin("/ip4/1.2.3.4/ip4/1.2.3.4"));
    assert!(!thin("/tcp/80"));
    assert!(!thin("/tcp/80/ip4/1.2.3.4"));
    assert!(!Multiaddr::empty().is_thin_wait());
}

#[test]
fn thin_waist_does_not_look_into_text_or_bytes() {
    assert!(!Multiaddr::Text("/ip4/1.2.3.4/tcp/80".to_string()).is_thin_wait());
    assert!(!Multiaddr::Binary(vec![0x04, 1, 2, 3, 4]).is_thin_wait());
    assert!(Multiaddr::Text("/ip4/1.2.3.4/tcp/80".to_string()).parse().unwrap().is_thin_wait());
    assert!(Multiaddr::Binary(vec![0x04, 1, 2, 3, 4]).parse().unwrap().is_thin_wait());
}

#[test]
fn parse_turns_text_and_bytes_into_a_chain() {
    let chain = Multiaddr::from_text("/ip4/1.2.3.4/tcp/80").unwrap();
    assert_eq!(Multiaddr::Text("/ip4/1.2.3.4/tcp/80".to_string()).parse().unwrap(), chain);
    assert_eq!(
        Multiaddr::Binary(vec![0x04, 1, 2, 3, 4, 0x06, 0, 80]).parse().unwrap(),
        chain
    );
    assert_eq!(chain.clone().parse().unwrap(), chain);
    assert_eq!(
        Multiaddr::Text("/ip4".to_string()).parse().unwrap_err().kind(),
        ErrorKind::BadAddr
    );
    assert_eq!(
        Multiaddr::Binary(vec![0x06, 0]).parse().unwrap_err().kind(),
        ErrorKind::DecodeError
    );
}
