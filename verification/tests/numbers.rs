use multiformats::multiaddr::ip4::Ip4;
use multiformats::multiaddr::ip6::Ip6;
use multiformats::multiaddr::{Multiaddr, Segment};

fn next(state: &mut u64) -> u64 {
    *state ^= *state << 13;
    *state ^= *state >> 7;
    *state ^= *state << 17;
    *state
}

fn ours_ip4(text: &str) -> Option<[u8; 4]> {
    match Ip4::from_text(&[text.as_bytes()]) {
        Ok((ip, _)) => Some(ip.to_addr()),
        Err(_) => None,
    }
}

fn ours_ip6(text: &str) -> Option<[u8; 16]> {
    match Ip6::from_text(&[text.as_bytes()]) {
        Ok((ip, _)) => Some(ip.to_addr()),
        Err(_) => None,
    }
}

fn ours_port(text: &str) -> Option<u16> {
    match Multiaddr::from_text(&format!("/tcp/{}", text)) {
        Ok(Multiaddr::Chain(segments)) => match &segments[0] {
            Segment::Tcp(t) => Some(t.to_port()),
            _ => None,
        },
        _ => None,
    }
}

#[test]
fn ports_are_read_as_std_reads_them() {
    let cases = [
        "0", "1", "80", "+80", "-80", "++80", "+", "-", "", "65535", "65536", "065535", "00000",
        "+0", "-0", "99999", "4294967296", "8 0", " 80", "80 ", "0x50", "8_0", "1e3", "٣",
    ];
    for text in cases.iter() {
        assert_eq!(ours_port(text), text.parse::<u16>().ok(), "{:?}", text);
    }
    let mut state = 0x2545f4914f6cdd1du64;
    let signs = ["", "", "", "+", "-", "0", "00"];
    for _ in 0..2000 {
        let sign = signs[(next(&mut state) % 7) as usize];
        let text = format!("{}{}", sign, next(&mut state) % 140000);
        assert_eq!(ours_port(&text), text.parse::<u16>().ok(), "{:?}", text);
    }
}

#[test]
fn ports_are_written_as_std_writes_them() {
    for port in [0u16, 1, 9, 10, 99, 100, 999, 1000, 9999, 10000, 65535].iter() {
        let text = Multiaddr::from_segments(vec![Segment::Tcp(
            multiformats::multiaddr::tcp::Tcp::from_port(*port),
        )])
        .to_text()
        .unwrap();
        assert_eq!(text, format!("/tcp/{}", port));
    }
}

#[test]
fn ip4_that_was_written_is_read_again() {
    let mut state = 0x1234567u64;
    for _ in 0..500 {
        let v = next(&mut state);
        let addr = [v as u8, (v >> 8) as u8, (v >> 16) as u8, (v >> 24) as u8];
        let text = Ip4::from_octets(addr).to_text().unwrap();
        assert_eq!(ours_ip4(&text[5..]), Some(addr));
        assert_eq!(
            text,
            format!("/ip4/{}.{}.{}.{}", addr[0], addr[1], addr[2], addr[3])
        );
    }
}

#[test]
fn ip6_that_was_written_is_read_again() {
    let mut state = 0x0123456789abcdefu64;
    for round in 0..5000 {
        let mut addr = [0u8; 16];
        for g in 0..8 {
            let v = next(&mut state);
            // many zero groups, so that runs of every length and place occur
            let group: u16 = match v % 4 {
                0 | 1 => 0,
                2 => (v >> 8) as u16 & 0xff,
                _ => (v >> 8) as u16,
            };
            addr[2 * g] = (group >> 8) as u8;
            addr[2 * g + 1] = group as u8;
        }
        if round % 50 == 0 {
            for b in addr.iter_mut().take(10) {
                *b = 0;
            }
            addr[10] = 0xff;
            addr[11] = 0xff;
        }
        let text = Ip6::from_octets(addr).to_text().unwrap();
        assert_eq!(ours_ip6(&text[5..]), Some(addr));
        assert!(text.len() <= 5 + 39);
        assert!(!text.contains(":::"));
        assert!(text == text.to_lowercase());
    }
}
