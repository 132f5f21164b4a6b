use multiformats::multibase::{bases, Base, Multibase};
use multiformats::multicodec;
use multiformats::multihash::Multihash;
use multiformats::ErrorKind;
use std::str::from_utf8;

#[test]
fn test_base_formats() {
    for base in bases().iter() {
        match base.code() {
            'k' | 'K' => continue,
            _ => (),
        }

        let mb = Multibase::with_char(base.code(), "hello world".as_bytes()).unwrap();
        let out = mb.to_text().unwrap();
        println!(".... BASE {:?} encoded {}", base.code(), out);

        let data = Multibase::from_text(&out).unwrap().to_bytes().unwrap();
        let text = from_utf8(&data).unwrap();
        assert_eq!(text, "hello world");
    }
}

#[test]
fn test_bs58_multibase() {
    let mh = {
        let data = "hello world".as_bytes();
        Multihash::new(multicodec::SHA2_256.into(), data).unwrap()
    };
    let data = mh.encode().unwrap();

    let mb = Multibase::with_char('z', &data).unwrap();
    let out1 = mb.to_text().unwrap();

    let out2 = bs58::encode(&data).into_string();
    let mut out2 = out2.as_bytes().to_vec();
    out2.insert(0, ' ' as u8);
    let out2 = std::str::from_utf8(&out2).unwrap();

    println!(".... BS58 encoded      {}", out1);
    println!(".... MULTIBASE encoded {}", out2);

    assert_eq!(&out1.as_bytes()[1..], &out2.as_bytes()[1..])
}

#[test]
fn text_in_known_bases() {
    let h = "hello world".as_bytes();
    let cases = [
        (Base::Base16Lower, "f68656c6c6f20776f726c64"),
        (Base::Base16Upper, "F68656C6C6F20776F726C64"),
        (Base::Base32Lower, "bnbswy3dpeb3w64tmmq"),
        (Base::Base64, "maGVsbG8gd29ybGQ"),
        (Base::Base64Pad, "MaGVsbG8gd29ybGQ="),
        (Base::Base58Btc, "zStV1DL6CwTryKyV"),
        (Base::Identity, "\0hello world"),
        (
            Base::Base2,
            "00110100001100101011011000110110001101111001000000111011101101111011100100110110001100100",
        ),
    ];
    for (base, text) in cases.iter() {
        let mb = Multibase::with_base(*base, h).unwrap();
        assert_eq!(mb.to_base(), *base);
        assert_eq!(mb.to_text().unwrap(), *text);
        let back = Multibase::from_text(text).unwrap();
        assert_eq!(back.to_base(), *base);
        assert_eq!(back.to_bytes().unwrap(), h.to_vec());
        assert_eq!(back, mb);
    }
}

#[test]
fn every_base_has_its_own_character() {
    let all = bases();
    assert_eq!(all.len(), 25);
    for base in all.iter() {
        assert_eq!(Base::from_code(base.code()), Some(*base));
        assert!(!base.name().is_empty());
    }
    assert_eq!(Base::Base58Btc.code(), 'z');
    assert_eq!(Base::Base58Btc.name(), "base58btc");
    assert_eq!(Base::Identity.code(), '\0');
    assert_eq!(Base::from_code('x'), None);
    assert_eq!(Base::from_code('1'), None);
}

#[test]
fn unknown_base_is_bad_input() {
    assert_eq!(Multibase::with_char('x', b"abc").unwrap_err().kind(), ErrorKind::BadInput);
    assert_eq!(Multibase::from_text("xabc").unwrap_err().kind(), ErrorKind::BadInput);
    assert_eq!(Multibase::from_text("").unwrap_err().kind(), ErrorKind::BadInput);
}

#[test]
fn text_that_is_not_in_its_base_is_bad_input() {
    assert_eq!(Multibase::from_text("fzz").unwrap_err().kind(), ErrorKind::BadInput);
    assert_eq!(Multibase::from_text("z0OIl").unwrap_err().kind(), ErrorKind::BadInput);
    assert_eq!(Multibase::from_text("f6").unwrap_err().kind(), ErrorKind::BadInput);
}

#[test]
fn identity_base_writes_text_only() {
    let mb = Multibase::with_base(Base::Identity, &[0xff, 0xfe]).unwrap();
    assert_eq!(mb.to_text().unwrap_err().kind(), ErrorKind::EncodeError);
    let mb = Multibase::with_base(Base::Base16Lower, &[0xff, 0xfe]).unwrap();
    assert_eq!(mb.to_text().unwrap(), "ffffe");
}

#[test]
fn empty_data_is_the_character_alone() {
    let mb = Multibase::with_base(Base::Base32Lower, &[]).unwrap();
    assert_eq!(mb.to_text().unwrap(), "b");
    assert_eq!(Multibase::from_text("b").unwrap().to_bytes().unwrap(), Vec::<u8>::new());
}
