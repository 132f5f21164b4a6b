use multiformats::multibase::{Base, Multibase};
use multiformats::multicodec;
use multiformats::multihash::Multihash;
use multiformats::ErrorKind;

fn hex(data: &[u8]) -> String {
    let text = Multibase::with_base(Base::Base16Lower, data).unwrap().to_text().unwrap();
    text[1..].to_string()
}

fn digest(code: u128, data: &str) -> String {
    hex(&Multihash::new(code.into(), data.as_bytes()).unwrap().to_digest().unwrap())
}

#[test]
fn test_sha1() {
    let mh = {
        let data = "Hello world".as_bytes();
        Multihash::new(multicodec::SHA1.into(), data).unwrap()
    };

    {
        let orig = "f11147b502c3a1f48c8609ae212cdfb639dee39673f5e";
        let data = mh.encode().unwrap();
        let mb = Multibase::with_base(Base::Base16Lower, &data).unwrap();
        assert_eq!(mb.to_text().unwrap(), orig);
    }
    {
        let orig = "f7b502c3a1f48c8609ae212cdfb639dee39673f5e";
        let data = mh.to_digest().unwrap();
        let mb = Multibase::with_base(Base::Base16Lower, &data).unwrap();
        assert_eq!(mb.to_text().unwrap(), orig);
    }
}

#[test]
fn test_sha2_256() {
    let mut mh = {
        let data = "Hello world".as_bytes();
        Multihash::new(multicodec::SHA2_256.into(), data).unwrap()
    };

    {
        let orig = "f122064ec88ca00b268e5ba1a35678a1b5316d212f4f366b2477232534a8aeca37f3c";
        let data = mh.encode().unwrap();
        let mb = Multibase::with_base(Base::Base16Lower, &data).unwrap();
        assert_eq!(mb.to_text().unwrap(), orig);
    }
    {
        let orig = "f64ec88ca00b268e5ba1a35678a1b5316d212f4f366b2477232534a8aeca37f3c";
        let data = mh.to_digest().unwrap();
        let mb = Multibase::with_base(Base::Base16Lower, &data).unwrap();
        assert_eq!(mb.to_text().unwrap(), orig);
    }

    mh.reset().unwrap();
    mh.write("hello world".as_bytes()).unwrap();
    mh.finish().unwrap();

    let data = mh.encode().unwrap();
    let mb = Multibase::with_base(Base::Base16Lower, &data).unwrap();
    let orig = "f1220b94d27b9934d3e08a52e52d7da7dabfac484efe37a5380ee9088f7ace2efcde9";
    assert_eq!(mb.to_text().unwrap(), orig);
}

#[test]
fn test_multihash_pretty() {
    let mh = {
        let data = "hello world".as_bytes();
        Multihash::new(multicodec::SHA2_256.into(), data).unwrap()
    };
    assert_eq!(
        mh.to_string(),
        "sha2-256-256-b94d27b9934d3e08a52e52d7da7dabfac484efe37a5380ee9088f7ace2efcde9".to_string(),
    );
}

#[test]
fn digests_of_hello_world() {
    assert_eq!(digest(multicodec::IDENTITY, "hello world"), "68656c6c6f20776f726c64");
    assert_eq!(digest(multicodec::MD5, "hello world"), "5eb63bbbe01eeed093cb22bb8f5acdc3");
    assert_eq!(
        digest(multicodec::SHA1, "hello world"),
        "2aae6c35c94fcfb415dbe95f408b9ce91ee846ed"
    );
    assert_eq!(
        digest(multicodec::SHA2_512, "hello world"),
        "309ecc489c12d6eb4cc40f50c902f2b4d0ed77ee511a7c7a9bcd3ca86d4cd86f989dd35bc5ff499670da34255b45b0cfd830e81f605dcf7dc5542e93ae9cd76f"
    );
    assert_eq!(
        digest(multicodec::SHA3_256, "hello world"),
        "644bcc7e564373040999aac89e7622f3ca71fba1d972fd94a31c3bfbf24e3938"
    );
    assert_eq!(
        digest(multicodec::SHA3_224, "hello world"),
        "dfb7f18c77e928bb56faeb2da27291bd790bc1045cde45f3210bb6c5"
    );
    assert_eq!(
        digest(multicodec::BLAKE2B_256, "hello world"),
        "256c83b297114d201b30179f3f0ef0cace9783622da5974326b436178aeef610"
    );
    assert_eq!(
        digest(multicodec::BLAKE2S_128, "hello world"),
        "37deae0226c30da2ab424a7b8ee14e83"
    );
    assert_eq!(
        digest(multicodec::RIPEMD_160, "hello world"),
        "98c615784ccb5fe5936fbc0cbe9dfdb408d92f0f"
    );
}

#[test]
fn digest_lengths_follow_the_code() {
    let len = |code: u128| {
        Multihash::new(code.into(), b"abc").unwrap().to_digest().unwrap().len()
    };
    assert_eq!(len(multicodec::SHA1), 20);
    assert_eq!(len(multicodec::SHA2_256), 32);
    assert_eq!(len(multicodec::DBL_SHA2_256), 32);
    assert_eq!(len(multicodec::SHA2_512), 64);
    assert_eq!(len(multicodec::SHA3_384), 48);
    assert_eq!(len(multicodec::SHA3_512), 64);
    assert_eq!(len(multicodec::KECCAK_224), 28);
    assert_eq!(len(multicodec::KECCAK_256), 32);
    assert_eq!(len(multicodec::KECCAK_384), 48);
    assert_eq!(len(multicodec::KECCAK_512), 64);
    assert_eq!(len(multicodec::BLAKE3), 32);
    assert_eq!(len(multicodec::MD4), 16);
    assert_eq!(len(multicodec::MD5), 16);
    assert_eq!(len(multicodec::RIPEMD_320), 40);
    assert_eq!(len(multicodec::BLAKE2B_8), 1);
    assert_eq!(len(multicodec::BLAKE2B_512), 64);
    assert_eq!(len(multicodec::BLAKE2S_8), 1);
    assert_eq!(len(multicodec::BLAKE2S_256), 32);
    assert_eq!(len(multicodec::IDENTITY), 3);
}

#[test]
fn double_sha2_is_sha2_of_sha2() {
    let once = Multihash::new(multicodec::SHA2_256.into(), b"abc").unwrap().to_digest().unwrap();
    let twice = Multihash::new(multicodec::SHA2_256.into(), &once).unwrap().to_digest().unwrap();
    let dbl = Multihash::new(multicodec::DBL_SHA2_256.into(), b"abc").unwrap();
    assert_eq!(dbl.to_digest().unwrap(), twice);
    assert_eq!(dbl.to_codec().unwrap().to_code(), multicodec::DBL_SHA2_256);
}

#[test]
fn functions_without_a_digest_are_not_implemented() {
    let kinds = [
        multicodec::SHAKE_128,
        multicodec::SHAKE_256,
        multicodec::MURMUR3_128,
        multicodec::RIPEMD_128,
        multicodec::RIPEMD_256,
        multicodec::SM3_256,
        multicodec::IP4,
        0xffff_ffff,
    ];
    for code in kinds.iter() {
        let r = Multihash::new((*code).into(), b"abc");
        assert_eq!(r.unwrap_err().kind(), ErrorKind::NotImplemented);
    }
    assert_eq!(
        Multihash::from_digest(multicodec::MURMUR3_128.into(), b"abc").unwrap_err().kind(),
        ErrorKind::NotImplemented
    );
    // a digest made elsewhere can be held even where none can be made here
    let held = Multihash::from_digest(multicodec::SHAKE_128.into(), b"abc").unwrap();
    assert_eq!(held.to_digest().unwrap(), b"abc".to_vec());
}

#[test]
fn records_are_code_length_digest() {
    let mh = Multihash::from_digest(multicodec::SHA1.into(), &[1, 2, 3]).unwrap();
    assert_eq!(mh.encode().unwrap(), vec![0x11, 3, 1, 2, 3]);
    let mh = Multihash::from_digest(multicodec::BLAKE2B_256.into(), &[9]).unwrap();
    assert_eq!(mh.encode().unwrap(), vec![0xa0, 0xe4, 0x02, 1, 9]);
    let (back, rest) = Multihash::decode(&[0xa0, 0xe4, 0x02, 1, 9, 7, 7]).unwrap();
    assert_eq!(rest, &[7, 7]);
    assert_eq!(back.to_codec().unwrap().to_code(), multicodec::BLAKE2B_256);
    assert_eq!(back.to_digest().unwrap(), vec![9]);
    let (codec, digest) = back.unwrap().unwrap();
    assert_eq!(codec.to_code(), multicodec::BLAKE2B_256);
    assert_eq!(digest, vec![9]);
}

#[test]
fn records_that_are_cut_short_are_rejected() {
    assert_eq!(Multihash::decode(&[]).unwrap_err().kind(), ErrorKind::DecodeError);
    assert_eq!(Multihash::decode(&[0x80]).unwrap_err().kind(), ErrorKind::DecodeError);
    assert_eq!(Multihash::decode(&[0x11]).unwrap_err().kind(), ErrorKind::BadInput);
    assert_eq!(Multihash::decode(&[0x11, 0x80]).unwrap_err().kind(), ErrorKind::BadInput);
    assert_eq!(Multihash::decode(&[0x11, 3, 1, 2]).unwrap_err().kind(), ErrorKind::BadInput);
    assert_eq!(Multihash::decode(&[0x22, 1, 9]).unwrap_err().kind(), ErrorKind::NotImplemented);
    // the length is read before the function is looked up
    assert_eq!(Multihash::decode(&[0x22, 3, 9]).unwrap_err().kind(), ErrorKind::BadInput);
}

#[test]
fn lazy_records_are_read_when_asked() {
    let bytes = [0x11, 3, 1, 2, 3];
    let mut lazy = Multihash::decode_lazy(&bytes).unwrap();
    assert_eq!(lazy.encode().unwrap(), bytes.to_vec());
    assert_eq!(lazy.to_codec().unwrap().to_code(), multicodec::SHA1);
    assert_eq!(lazy.to_digest().unwrap(), vec![1, 2, 3]);
    assert_eq!(lazy.write(b"x").unwrap_err().kind(), ErrorKind::Invalid);
    assert_eq!(lazy.finish().unwrap_err().kind(), ErrorKind::Invalid);
    assert_eq!(lazy.reset().unwrap_err().kind(), ErrorKind::Invalid);
    lazy.parse().unwrap();
    assert_eq!(lazy.encode().unwrap(), bytes.to_vec());
    lazy.parse().unwrap();
    assert_eq!(lazy.to_digest().unwrap(), vec![1, 2, 3]);

    let mut bad = Multihash::decode_lazy(&[0x11, 3, 1]).unwrap();
    assert_eq!(bad.parse().unwrap_err().kind(), ErrorKind::BadInput);
    assert_eq!(bad.to_codec().unwrap_err().kind(), ErrorKind::BadInput);
    assert_eq!(bad.to_digest().unwrap_err().kind(), ErrorKind::BadInput);
    assert_eq!(bad.encode().unwrap(), vec![0x11, 3, 1]);
    assert_eq!(bad.to_string(), "xxx-xxx-xxx...");
}

#[test]
fn a_hasher_is_fed_then_finished() {
    let mut mh = Multihash::new(multicodec::SHA2_256.into(), b"hello ").unwrap();
    assert_eq!(mh.write(b"world").unwrap_err().kind(), ErrorKind::Invalid);
    assert_eq!(mh.finish().unwrap_err().kind(), ErrorKind::Invalid);
    mh.reset().unwrap();
    assert_eq!(mh.to_digest().unwrap_err().kind(), ErrorKind::Invalid);
    assert_eq!(mh.encode().unwrap_err().kind(), ErrorKind::Invalid);
    assert_eq!(mh.to_string(), "xxx-xxx-xxx...");
    mh.write(b"hello ").unwrap();
    mh.write(b"world").unwrap();
    mh.finish().unwrap();
    assert_eq!(
        hex(&mh.to_digest().unwrap()),
        "b94d27b9934d3e08a52e52d7da7dabfac484efe37a5380ee9088f7ace2efcde9"
    );
}

#[test]
fn pretty_digests() {
    let mh = Multihash::from_digest(multicodec::SHA1.into(), &[0xab, 0xcd]).unwrap();
    assert_eq!(mh.to_string(), "sha1-16-abcd");
    let mh = Multihash::new(multicodec::IDENTITY.into(), b"").unwrap();
    assert_eq!(mh.to_string(), "identity-0-");
}
