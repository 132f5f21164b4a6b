use multiformats::multicodec::{self, known_codes, multihash_codes, table, Codepoint, Multicodec};
use multiformats::ErrorKind;

#[test]
fn test_codec() {
    for entry in table().iter() {
        let code: Multicodec = entry.into();

        let buf = code.encode().unwrap();

        let (res_code, res_buf) = Multicodec::decode(&buf).unwrap();
        assert_eq!(res_code, code, "{:?}", code);
        assert_eq!(res_buf, vec![].as_slice(), "{:?}", code);
    }
}

#[test]
fn varint_of_small_and_large_numbers() {
    let cases: [(u128, &[u8]); 9] = [
        (0, &[0x00]),
        (1, &[0x01]),
        (127, &[0x7f]),
        (128, &[0x80, 0x01]),
        (255, &[0xff, 0x01]),
        (300, &[0xac, 0x02]),
        (16384, &[0x80, 0x80, 0x01]),
        (0x01a5, &[0xa5, 0x03]),
        (
            u128::MAX,
            &[
                0xff, 0xff, 0xff, 0xff, 0xff, 0xff, 0xff, 0xff, 0xff, 0xff, 0xff, 0xff, 0xff, 0xff,
                0xff, 0xff, 0xff, 0xff, 0x03,
            ],
        ),
    ];
    for (n, bytes) in cases.iter() {
        let codec = Multicodec::from_code(*n).unwrap();
        assert_eq!(codec.to_code(), *n);
        assert_eq!(codec.encode().unwrap(), bytes.to_vec());
        let (back, rest) = Multicodec::decode(bytes).unwrap();
        assert_eq!(back.to_code(), *n);
        assert!(rest.is_empty());
    }
}

#[test]
fn varint_leaves_what_follows() {
    let (codec, rest) = Multicodec::decode(&[0xac, 0x02, 7, 8, 9]).unwrap();
    assert_eq!(codec.to_code(), 300);
    assert_eq!(rest, &[7, 8, 9]);
    let (codec, rest) = Multicodec::decode(&[0x00, 0x80]).unwrap();
    assert_eq!(codec.to_code(), 0);
    assert_eq!(rest, &[0x80]);
}

#[test]
fn varint_that_is_cut_short_is_a_decode_error() {
    assert_eq!(Multicodec::decode(&[]).unwrap_err().kind(), ErrorKind::DecodeError);
    assert_eq!(Multicodec::decode(&[0x80]).unwrap_err().kind(), ErrorKind::DecodeError);
    assert_eq!(Multicodec::decode(&[0xff, 0xff]).unwrap_err().kind(), ErrorKind::DecodeError);
}

#[test]
fn varint_that_is_padded_or_too_long_is_a_decode_error() {
    assert_eq!(Multicodec::decode(&[0x80, 0x00]).unwrap_err().kind(), ErrorKind::DecodeError);
    assert_eq!(
        Multicodec::decode(&[0x81, 0x80, 0x00]).unwrap_err().kind(),
        ErrorKind::DecodeError
    );
    let twenty = [0x80u8; 20];
    assert_eq!(Multicodec::decode(&twenty).unwrap_err().kind(), ErrorKind::DecodeError);
    let mut nineteen_open = [0x80u8; 19];
    nineteen_open[18] = 0x81;
    assert_eq!(Multicodec::decode(&nineteen_open).unwrap_err().kind(), ErrorKind::DecodeError);
}

#[test]
fn varint_keeps_the_low_128_bits() {
    let mut bytes = [0x80u8; 19];
    bytes[18] = 0x7f;
    let (codec, rest) = Multicodec::decode(&bytes).unwrap();
    assert_eq!(codec.to_code(), 3u128 << 126);
    assert!(rest.is_empty());
}

#[test]
fn codes_have_names_and_tags() {
    let sha = Multicodec::from_code(multicodec::SHA2_256).unwrap();
    assert_eq!(sha.name(), Some("sha2-256"));
    assert_eq!(sha.tag(), Some("multihash"));
    assert_eq!(sha.to_string(), "sha2-256");
    let p2p = Multicodec::from_code(multicodec::P2P).unwrap();
    assert_eq!(p2p.name(), Some("p2p"));
    assert_eq!(p2p.tag(), Some("multiaddr"));
    assert_eq!(multicodec::IPFS, multicodec::P2P);
    let none = Multicodec::from_code(0x05).unwrap();
    assert_eq!(none.name(), None);
    assert_eq!(none.tag(), None);
    assert_eq!(none.to_string(), "@#bad-code#@");
    let from: Multicodec = 0x06.into();
    assert_eq!(from.name(), Some("tcp"));
    let back: u128 = from.into();
    assert_eq!(back, 0x06);
    assert_eq!(table()[5].to_multicodec(), from);
    assert_eq!(Multicodec::from_code(multicodec::HOLOCHAIN_SIG_V1).unwrap().tag(), Some("holochain"));
}

#[test]
fn the_table_is_in_the_order_of_the_numbers() {
    let rows = table();
    assert_eq!(rows.len(), 458);
    assert_eq!(rows.len(), multicodec::TABLE_LEN);
    for pair in rows.windows(2) {
        assert!(pair[0].code < pair[1].code);
    }
    assert_eq!(
        rows[0],
        Codepoint { code: 0, name: "identity".to_string(), tag: "multihash".to_string() }
    );
    assert_eq!(rows[4].name, "ip4");
    assert_eq!(rows[4].tag, "multiaddr");
    assert_eq!(rows[457].name, "holochain-sig-v1");
    assert_eq!(rows[457].code, 0xa37124);
    let codes: Vec<u128> = rows.iter().map(|r| r.code).collect();
    assert_eq!(codes, known_codes());
}

#[test]
fn the_hash_functions_of_the_table() {
    let codes = multihash_codes();
    assert_eq!(codes.len(), 351);
    assert_eq!(codes[0], 0x00);
    assert_eq!(codes[1], 0x11);
    assert_eq!(codes[350], 0xb402);
    for pair in codes.windows(2) {
        assert!(pair[0] < pair[1]);
    }
    assert!(codes.contains(&multicodec::SHA2_256));
    assert!(codes.contains(&multicodec::BLAKE2B_512));
    assert!(!codes.contains(&multicodec::IP4));
    assert!(!codes.contains(&multicodec::CID_V1));
    let tagged: Vec<u128> =
        table().iter().filter(|r| r.tag == "multihash").map(|r| r.code).collect();
    assert_eq!(codes, tagged);
}
