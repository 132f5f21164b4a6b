//! Code points: the numeric identifiers of protocols, hash functions and
//! formats, with the name and the category each one goes by, and the varint
//! form in which an identifier travels.

use crate::error::Error;
use crate::varint::{
    lemma_read_u128_varint, lemma_varint_shape, read_u128, take_u128, varint, write_u128, Reading,
};
use vstd::prelude::*;
use vstd::std_specs::convert::FromSpecImpl;
use vstd::string::*;

verus! {

/// `identity` (multihash).
pub const IDENTITY: u128 = 0x00;

/// `cidv1` (ipld).
pub const CID_V1: u128 = 0x01;

/// `cidv2` (ipld).
pub const CID_V2: u128 = 0x02;

/// `cidv3` (ipld).
pub const CID_V3: u128 = 0x03;

/// `ip4` (multiaddr).
pub const IP4: u128 = 0x04;

/// `tcp` (multiaddr).
pub const TCP: u128 = 0x06;

/// `sha1` (multihash).
pub const SHA1: u128 = 0x11;

/// `sha2-256` (multihash).
pub const SHA2_256: u128 = 0x12;

/// `sha2-512` (multihash).
pub const SHA2_512: u128 = 0x13;

/// `sha3-512` (multihash).
pub const SHA3_512: u128 = 0x14;

/// `sha3-384` (multihash).
pub const SHA3_384: u128 = 0x15;

/// `sha3-256` (multihash).
pub const SHA3_256: u128 = 0x16;

/// `sha3-224` (multihash).
pub const SHA3_224: u128 = 0x17;

/// `shake-128` (multihash).
pub const SHAKE_128: u128 = 0x18;

/// `shake-256` (multihash).
pub const SHAKE_256: u128 = 0x19;

/// `keccak-224` (multihash).
pub const KECCAK_224: u128 = 0x1a;

/// `keccak-256` (multihash).
pub const KECCAK_256: u128 = 0x1b;

/// `keccak-384` (multihash).
pub const KECCAK_384: u128 = 0x1c;

/// `keccak-512` (multihash).
pub const KECCAK_512: u128 = 0x1d;

/// `blake3` (multihash).
pub const BLAKE3: u128 = 0x1e;

/// `dccp` (multiaddr).
pub const DCCP: u128 = 0x21;

/// `murmur3-128` (multihash).
pub const MURMUR3_128: u128 = 0x22;

/// `murmur3-32` (multihash).
pub const MURMUR3_32: u128 = 0x23;

/// `ip6` (multiaddr).
pub const IP6: u128 = 0x29;

/// `ip6zone` (multiaddr).
pub const IP6ZONE: u128 = 0x2a;

/// `path` (namespace).
pub const PATH: u128 = 0x2f;

/// `multicodec` (multiformat).
pub const MULTICODEC: u128 = 0x30;

/// `multihash` (multiformat).
pub const MULTIHASH: u128 = 0x31;

/// `multiaddr` (multiformat).
pub const MULTIADDR: u128 = 0x32;

/// `multibase` (multiformat).
pub const MULTIBASE: u128 = 0x33;

/// `dns` (multiaddr).
pub const DNS: u128 = 0x35;

/// `dns4` (multiaddr).
pub const DNS4: u128 = 0x36;

/// `dns6` (multiaddr).
pub const DNS6: u128 = 0x37;

/// `dnsaddr` (multiaddr).
pub const DNSADDR: u128 = 0x38;

/// `protobuf` (serialization).
pub const PROTOBUF: u128 = 0x50;

/// `cbor` (serialization).
pub const CBOR: u128 = 0x51;

/// `raw` (ipld).
pub const RAW: u128 = 0x55;

/// `dbl-sha2-256` (multihash).
pub const DBL_SHA2_256: u128 = 0x56;

/// `rlp` (serialization).
pub const RLP: u128 = 0x60;

/// `bencode` (serialization).
pub const BENCODE: u128 = 0x63;

/// `dag-pb` (ipld).
pub const DAG_PB: u128 = 0x70;

/// `dag-cbor` (ipld).
pub const DAG_CBOR: u128 = 0x71;

/// `libp2p-key` (ipld).
pub const LIBP2P_KEY: u128 = 0x72;

/// `git-raw` (ipld).
pub const GIT_RAW: u128 = 0x78;

/// `torrent-info` (ipld).
pub const TORRENT_INFO: u128 = 0x7b;

/// `torrent-file` (ipld).
pub const TORRENT_FILE: u128 = 0x7c;

/// `leofcoin-block` (ipld).
pub const LEOFCOIN_BLOCK: u128 = 0x81;

/// `leofcoin-tx` (ipld).
pub const LEOFCOIN_TX: u128 = 0x82;

/// `leofcoin-pr` (ipld).
pub const LEOFCOIN_PR: u128 = 0x83;

/// `sctp` (multiaddr).
pub const SCTP: u128 = 0x84;

/// `dag-jose` (ipld).
pub const DAG_JOSE: u128 = 0x85;

/// `dag-cose` (ipld).
pub const DAG_COSE: u128 = 0x86;

/// `eth-block` (ipld).
pub const ETH_BLOCK: u128 = 0x90;

/// `eth-block-list` (ipld).
pub const ETH_BLOCK_LIST: u128 = 0x91;

/// `eth-tx-trie` (ipld).
pub const ETH_TX_TRIE: u128 = 0x92;

/// `eth-tx` (ipld).
pub const ETH_TX: u128 = 0x93;

/// `eth-tx-receipt-trie` (ipld).
pub const ETH_TX_RECEIPT_TRIE: u128 = 0x94;

/// `eth-tx-receipt` (ipld).
pub const ETH_TX_RECEIPT: u128 = 0x95;

/// `eth-state-trie` (ipld).
pub const ETH_STATE_TRIE: u128 = 0x96;

/// `eth-account-snapshot` (ipld).
pub const ETH_ACCOUNT_SNAPSHOT: u128 = 0x97;

/// `eth-storage-trie` (ipld).
pub const ETH_STORAGE_TRIE: u128 = 0x98;

/// `bitcoin-block` (ipld).
pub const BITCOIN_BLOCK: u128 = 0xb0;

/// `bitcoin-tx` (ipld).
pub const BITCOIN_TX: u128 = 0xb1;

/// `bitcoin-witness-commitment` (ipld).
pub const BITCOIN_WITNESS_COMMITMENT: u128 = 0xb2;

/// `zcash-block` (ipld).
pub const ZCASH_BLOCK: u128 = 0xc0;

/// `zcash-tx` (ipld).
pub const ZCASH_TX: u128 = 0xc1;

/// `docid` (namespace).
pub const DOCID: u128 = 0xce;

/// `stellar-block` (ipld).
pub const STELLAR_BLOCK: u128 = 0xd0;

/// `stellar-tx` (ipld).
pub const STELLAR_TX: u128 = 0xd1;

/// `md4` (multihash).
pub const MD4: u128 = 0xd4;

/// `md5` (multihash).
pub const MD5: u128 = 0xd5;

/// `bmt` (multihash).
pub const BMT: u128 = 0xd6;

/// `decred-block` (ipld).
pub const DECRED_BLOCK: u128 = 0xe0;

/// `decred-tx` (ipld).
pub const DECRED_TX: u128 = 0xe1;

/// `ipld-ns` (namespace).
pub const IPLD_NS: u128 = 0xe2;

/// `ipfs-ns` (namespace).
pub const IPFS_NS: u128 = 0xe3;

/// `swarm-ns` (namespace).
pub const SWARM_NS: u128 = 0xe4;

/// `ipns-ns` (namespace).
pub const IPNS_NS: u128 = 0xe5;

/// `zeronet` (namespace).
pub const ZERONET: u128 = 0xe6;

/// `secp256k1-pub` (key).
pub const SECP256K1_PUB: u128 = 0xe7;

/// `bls12_381-g1-pub` (key).
pub const BLS12_381_G1_PUB: u128 = 0xea;

/// `bls12_381-g2-pub` (key).
pub const BLS12_381_G2_PUB: u128 = 0xeb;

/// `x25519-pub` (key).
pub const X25519_PUB: u128 = 0xec;

/// `ed25519-pub` (key).
pub const ED25519_PUB: u128 = 0xed;

/// `bls12_381-g1g2-pub` (key).
pub const BLS12_381_G1G2_PUB: u128 = 0xee;

/// `dash-block` (ipld).
pub const DASH_BLOCK: u128 = 0xf0;

/// `dash-tx` (ipld).
pub const DASH_TX: u128 = 0xf1;

/// `swarm-manifest` (ipld).
pub const SWARM_MANIFEST: u128 = 0xfa;

/// `swarm-feed` (ipld).
pub const SWARM_FEED: u128 = 0xfb;

/// `udp` (multiaddr).
pub const UDP: u128 = 0x0111;

/// `p2p-webrtc-star` (multiaddr).
pub const P2P_WEBRTC_STAR: u128 = 0x0113;

/// `p2p-webrtc-direct` (multiaddr).
pub const P2P_WEBRTC_DIRECT: u128 = 0x0114;

/// `p2p-stardust` (multiaddr).
pub const P2P_STARDUST: u128 = 0x0115;

/// `p2p-circuit` (multiaddr).
pub const P2P_CIRCUIT: u128 = 0x0122;

/// `dag-json` (ipld).
pub const DAG_JSON: u128 = 0x0129;

/// `udt` (multiaddr).
pub const UDT: u128 = 0x012d;

/// `utp` (multiaddr).
pub const UTP: u128 = 0x012e;

/// `unix` (multiaddr).
pub const UNIX: u128 = 0x0190;

/// `p2p` (multiaddr).
pub const P2P: u128 = 0x01a5;

/// `https` (multiaddr).
pub const HTTPS: u128 = 0x01bb;

/// `onion` (multiaddr).
pub const ONION: u128 = 0x01bc;

/// `onion3` (multiaddr).
pub const ONION3: u128 = 0x01bd;

/// `garlic64` (multiaddr).
pub const GARLIC64: u128 = 0x01be;

/// `garlic32` (multiaddr).
pub const GARLIC32: u128 = 0x01bf;

/// `tls` (multiaddr).
pub const TLS: u128 = 0x01c0;

/// `quic` (multiaddr).
pub const QUIC: u128 = 0x01cc;

/// `ws` (multiaddr).
pub const WS: u128 = 0x01dd;

/// `wss` (multiaddr).
pub const WSS: u128 = 0x01de;

/// `p2p-websocket-star` (multiaddr).
pub const P2P_WEBSOCKET_STAR: u128 = 0x01df;

/// `http` (multiaddr).
pub const HTTP: u128 = 0x01e0;

/// `json` (serialization).
pub const JSON: u128 = 0x0200;

/// `messagepack` (serialization).
pub const MESSAGEPACK: u128 = 0x0201;

/// `libp2p-peer-record` (libp2p).
pub const LIBP2P_PEER_RECORD: u128 = 0x0301;

/// `sha2-256-trunc254-padded` (multihash).
pub const SHA2_256_TRUNC254_PADDED: u128 = 0x1012;

/// `ripemd-128` (multihash).
pub const RIPEMD_128: u128 = 0x1052;

/// `ripemd-160` (multihash).
pub const RIPEMD_160: u128 = 0x1053;

/// `ripemd-256` (multihash).
pub const RIPEMD_256: u128 = 0x1054;

/// `ripemd-320` (multihash).
pub const RIPEMD_320: u128 = 0x1055;

/// `x11` (multihash).
pub const X11: u128 = 0x1100;

/// `p256-pub` (key).
pub const P256_PUB: u128 = 0x1200;

/// `p384-pub` (key).
pub const P384_PUB: u128 = 0x1201;

/// `p521-pub` (key).
pub const P521_PUB: u128 = 0x1202;

/// `ed448-pub` (key).
pub const ED448_PUB: u128 = 0x1203;

/// `x448-pub` (key).
pub const X448_PUB: u128 = 0x1204;

/// `ed25519-priv` (key).
pub const ED25519_PRIV: u128 = 0x1300;

/// `kangarootwelve` (multihash).
pub const KANGAROOTWELVE: u128 = 0x1d01;

/// `sm3-256` (multihash).
pub const SM3_256: u128 = 0x534d;

/// `blake2b-8` (multihash).
pub const BLAKE2B_8: u128 = 0xb201;

/// `blake2b-16` (multihash).
pub const BLAKE2B_16: u128 = 0xb202;

/// `blake2b-24` (multihash).
pub const BLAKE2B_24: u128 = 0xb203;

/// `blake2b-32` (multihash).
pub const BLAKE2B_32: u128 = 0xb204;

/// `blake2b-40` (multihash).
pub const BLAKE2B_40: u128 = 0xb205;

/// `blake2b-48` (multihash).
pub const BLAKE2B_48: u128 = 0xb206;

/// `blake2b-56` (multihash).
pub const BLAKE2B_56: u128 = 0xb207;

/// `blake2b-64` (multihash).
pub const BLAKE2B_64: u128 = 0xb208;

/// `blake2b-72` (multihash).
pub const BLAKE2B_72: u128 = 0xb209;

/// `blake2b-80` (multihash).
pub const BLAKE2B_80: u128 = 0xb20a;

/// `blake2b-88` (multihash).
pub const BLAKE2B_88: u128 = 0xb20b;

/// `blake2b-96` (multihash).
pub const BLAKE2B_96: u128 = 0xb20c;

/// `blake2b-104` (multihash).
pub const BLAKE2B_104: u128 = 0xb20d;

/// `blake2b-112` (multihash).
pub const BLAKE2B_112: u128 = 0xb20e;

/// `blake2b-120` (multihash).
pub const BLAKE2B_120: u128 = 0xb20f;

/// `blake2b-128` (multihash).
pub const BLAKE2B_128: u128 = 0xb210;

/// `blake2b-136` (multihash).
pub const BLAKE2B_136: u128 = 0xb211;

/// `blake2b-144` (multihash).
pub const BLAKE2B_144: u128 = 0xb212;

/// `blake2b-152` (multihash).
pub const BLAKE2B_152: u128 = 0xb213;

/// `blake2b-160` (multihash).
pub const BLAKE2B_160: u128 = 0xb214;

/// `blake2b-168` (multihash).
pub const BLAKE2B_168: u128 = 0xb215;

/// `blake2b-176` (multihash).
pub const BLAKE2B_176: u128 = 0xb216;

/// `blake2b-184` (multihash).
pub const BLAKE2B_184: u128 = 0xb217;

/// `blake2b-192` (multihash).
pub const BLAKE2B_192: u128 = 0xb218;

/// `blake2b-200` (multihash).
pub const BLAKE2B_200: u128 = 0xb219;

/// `blake2b-208` (multihash).
pub const BLAKE2B_208: u128 = 0xb21a;

/// `blake2b-216` (multihash).
pub const BLAKE2B_216: u128 = 0xb21b;

/// `blake2b-224` (multihash).
pub const BLAKE2B_224: u128 = 0xb21c;

/// `blake2b-232` (multihash).
pub const BLAKE2B_232: u128 = 0xb21d;

/// `blake2b-240` (multihash).
pub const BLAKE2B_240: u128 = 0xb21e;

/// `blake2b-248` (multihash).
pub const BLAKE2B_248: u128 = 0xb21f;

/// `blake2b-256` (multihash).
pub const BLAKE2B_256: u128 = 0xb220;

/// `blake2b-264` (multihash).
pub const BLAKE2B_264: u128 = 0xb221;

/// `blake2b-272` (multihash).
pub const BLAKE2B_272: u128 = 0xb222;

/// `blake2b-280` (multihash).
pub const BLAKE2B_280: u128 = 0xb223;

/// `blake2b-288` (multihash).
pub const BLAKE2B_288: u128 = 0xb224;

/// `blake2b-296` (multihash).
pub const BLAKE2B_296: u128 = 0xb225;

/// `blake2b-304` (multihash).
pub const BLAKE2B_304: u128 = 0xb226;

/// `blake2b-312` (multihash).
pub const BLAKE2B_312: u128 = 0xb227;

/// `blake2b-320` (multihash).
pub const BLAKE2B_320: u128 = 0xb228;

/// `blake2b-328` (multihash).
pub const BLAKE2B_328: u128 = 0xb229;

/// `blake2b-336` (multihash).
pub const BLAKE2B_336: u128 = 0xb22a;

/// `blake2b-344` (multihash).
pub const BLAKE2B_344: u128 = 0xb22b;

/// `blake2b-352` (multihash).
pub const BLAKE2B_352: u128 = 0xb22c;

/// `blake2b-360` (multihash).
pub const BLAKE2B_360: u128 = 0xb22d;

/// `blake2b-368` (multihash).
pub const BLAKE2B_368: u128 = 0xb22e;

/// `blake2b-376` (multihash).
pub const BLAKE2B_376: u128 = 0xb22f;

/// `blake2b-384` (multihash).
pub const BLAKE2B_384: u128 = 0xb230;

/// `blake2b-392` (multihash).
pub const BLAKE2B_392: u128 = 0xb231;

/// `blake2b-400` (multihash).
pub const BLAKE2B_400: u128 = 0xb232;

/// `blake2b-408` (multihash).
pub const BLAKE2B_408: u128 = 0xb233;

/// `blake2b-416` (multihash).
pub const BLAKE2B_416: u128 = 0xb234;

/// `blake2b-424` (multihash).
pub const BLAKE2B_424: u128 = 0xb235;

/// `blake2b-432` (multihash).
pub const BLAKE2B_432: u128 = 0xb236;

/// `blake2b-440` (multihash).
pub const BLAKE2B_440: u128 = 0xb237;

/// `blake2b-448` (multihash).
pub const BLAKE2B_448: u128 = 0xb238;

/// `blake2b-456` (multihash).
pub const BLAKE2B_456: u128 = 0xb239;

/// `blake2b-464` (multihash).
pub const BLAKE2B_464: u128 = 0xb23a;

/// `blake2b-472` (multihash).
pub const BLAKE2B_472: u128 = 0xb23b;

/// `blake2b-480` (multihash).
pub const BLAKE2B_480: u128 = 0xb23c;

/// `blake2b-488` (multihash).
pub const BLAKE2B_488: u128 = 0xb23d;

/// `blake2b-496` (multihash).
pub const BLAKE2B_496: u128 = 0xb23e;

/// `blake2b-504` (multihash).
pub const BLAKE2B_504: u128 = 0xb23f;

/// `blake2b-512` (multihash).
pub const BLAKE2B_512: u128 = 0xb240;

/// `blake2s-8` (multihash).
pub const BLAKE2S_8: u128 = 0xb241;

/// `blake2s-16` (multihash).
pub const BLAKE2S_16: u128 = 0xb242;

/// `blake2s-24` (multihash).
pub const BLAKE2S_24: u128 = 0xb243;

/// `blake2s-32` (multihash).
pub const BLAKE2S_32: u128 = 0xb244;

/// `blake2s-40` (multihash).
pub const BLAKE2S_40: u128 = 0xb245;

/// `blake2s-48` (multihash).
pub const BLAKE2S_48: u128 = 0xb246;

/// `blake2s-56` (multihash).
pub const BLAKE2S_56: u128 = 0xb247;

/// `blake2s-64` (multihash).
pub const BLAKE2S_64: u128 = 0xb248;

/// `blake2s-72` (multihash).
pub const BLAKE2S_72: u128 = 0xb249;

/// `blake2s-80` (multihash).
pub const BLAKE2S_80: u128 = 0xb24a;

/// `blake2s-88` (multihash).
pub const BLAKE2S_88: u128 = 0xb24b;

/// `blake2s-96` (multihash).
pub const BLAKE2S_96: u128 = 0xb24c;

/// `blake2s-104` (multihash).
pub const BLAKE2S_104: u128 = 0xb24d;

/// `blake2s-112` (multihash).
pub const BLAKE2S_112: u128 = 0xb24e;

/// `blake2s-120` (multihash).
pub const BLAKE2S_120: u128 = 0xb24f;

/// `blake2s-128` (multihash).
pub const BLAKE2S_128: u128 = 0xb250;

/// `blake2s-136` (multihash).
pub const BLAKE2S_136: u128 = 0xb251;

/// `blake2s-144` (multihash).
pub const BLAKE2S_144: u128 = 0xb252;

/// `blake2s-152` (multihash).
pub const BLAKE2S_152: u128 = 0xb253;

/// `blake2s-160` (multihash).
pub const BLAKE2S_160: u128 = 0xb254;

/// `blake2s-168` (multihash).
pub const BLAKE2S_168: u128 = 0xb255;

/// `blake2s-176` (multihash).
pub const BLAKE2S_176: u128 = 0xb256;

/// `blake2s-184` (multihash).
pub const BLAKE2S_184: u128 = 0xb257;

/// `blake2s-192` (multihash).
pub const BLAKE2S_192: u128 = 0xb258;

/// `blake2s-200` (multihash).
pub const BLAKE2S_200: u128 = 0xb259;

/// `blake2s-208` (multihash).
pub const BLAKE2S_208: u128 = 0xb25a;

/// `blake2s-216` (multihash).
pub const BLAKE2S_216: u128 = 0xb25b;

/// `blake2s-224` (multihash).
pub const BLAKE2S_224: u128 = 0xb25c;

/// `blake2s-232` (multihash).
pub const BLAKE2S_232: u128 = 0xb25d;

/// `blake2s-240` (multihash).
pub const BLAKE2S_240: u128 = 0xb25e;

/// `blake2s-248` (multihash).
pub const BLAKE2S_248: u128 = 0xb25f;

/// `blake2s-256` (multihash).
pub const BLAKE2S_256: u128 = 0xb260;

/// `skein256-8` (multihash).
pub const SKEIN256_8: u128 = 0xb301;

/// `skein256-16` (multihash).
pub const SKEIN256_16: u128 = 0xb302;

/// `skein256-24` (multihash).
pub const SKEIN256_24: u128 = 0xb303;

/// `skein256-32` (multihash).
pub const SKEIN256_32: u128 = 0xb304;

/// `skein256-40` (multihash).
pub const SKEIN256_40: u128 = 0xb305;

/// `skein256-48` (multihash).
pub const SKEIN256_48: u128 = 0xb306;

/// `skein256-56` (multihash).
pub const SKEIN256_56: u128 = 0xb307;

/// `skein256-64` (multihash).
pub const SKEIN256_64: u128 = 0xb308;

/// `skein256-72` (multihash).
pub const SKEIN256_72: u128 = 0xb309;

/// `skein256-80` (multihash).
pub const SKEIN256_80: u128 = 0xb30a;

/// `skein256-88` (multihash).
pub const SKEIN256_88: u128 = 0xb30b;

/// `skein256-96` (multihash).
pub const SKEIN256_96: u128 = 0xb30c;

/// `skein256-104` (multihash).
pub const SKEIN256_104: u128 = 0xb30d;

/// `skein256-112` (multihash).
pub const SKEIN256_112: u128 = 0xb30e;

/// `skein256-120` (multihash).
pub const SKEIN256_120: u128 = 0xb30f;

/// `skein256-128` (multihash).
pub const SKEIN256_128: u128 = 0xb310;

/// `skein256-136` (multihash).
pub const SKEIN256_136: u128 = 0xb311;

/// `skein256-144` (multihash).
pub const SKEIN256_144: u128 = 0xb312;

/// `skein256-152` (multihash).
pub const SKEIN256_152: u128 = 0xb313;

/// `skein256-160` (multihash).
pub const SKEIN256_160: u128 = 0xb314;

/// `skein256-168` (multihash).
pub const SKEIN256_168: u128 = 0xb315;

/// `skein256-176` (multihash).
pub const SKEIN256_176: u128 = 0xb316;

/// `skein256-184` (multihash).
pub const SKEIN256_184: u128 = 0xb317;

/// `skein256-192` (multihash).
pub const SKEIN256_192: u128 = 0xb318;

/// `skein256-200` (multihash).
pub const SKEIN256_200: u128 = 0xb319;

/// `skein256-208` (multihash).
pub const SKEIN256_208: u128 = 0xb31a;

/// `skein256-216` (multihash).
pub const SKEIN256_216: u128 = 0xb31b;

/// `skein256-224` (multihash).
pub const SKEIN256_224: u128 = 0xb31c;

/// `skein256-232` (multihash).
pub const SKEIN256_232: u128 = 0xb31d;

/// `skein256-240` (multihash).
pub const SKEIN256_240: u128 = 0xb31e;

/// `skein256-248` (multihash).
pub const SKEIN256_248: u128 = 0xb31f;

/// `skein256-256` (multihash).
pub const SKEIN256_256: u128 = 0xb320;

/// `skein512-8` (multihash).
pub const SKEIN512_8: u128 = 0xb321;

/// `skein512-16` (multihash).
pub const SKEIN512_16: u128 = 0xb322;

/// `skein512-24` (multihash).
pub const SKEIN512_24: u128 = 0xb323;

/// `skein512-32` (multihash).
pub const SKEIN512_32: u128 = 0xb324;

/// `skein512-40` (multihash).
pub const SKEIN512_40: u128 = 0xb325;

/// `skein512-48` (multihash).
pub const SKEIN512_48: u128 = 0xb326;

/// `skein512-56` (multihash).
pub const SKEIN512_56: u128 = 0xb327;

/// `skein512-64` (multihash).
pub const SKEIN512_64: u128 = 0xb328;

/// `skein512-72` (multihash).
pub const SKEIN512_72: u128 = 0xb329;

/// `skein512-80` (multihash).
pub const SKEIN512_80: u128 = 0xb32a;

/// `skein512-88` (multihash).
pub const SKEIN512_88: u128 = 0xb32b;

/// `skein512-96` (multihash).
pub const SKEIN512_96: u128 = 0xb32c;

/// `skein512-104` (multihash).
pub const SKEIN512_104: u128 = 0xb32d;

/// `skein512-112` (multihash).
pub const SKEIN512_112: u128 = 0xb32e;

/// `skein512-120` (multihash).
pub const SKEIN512_120: u128 = 0xb32f;

/// `skein512-128` (multihash).
pub const SKEIN512_128: u128 = 0xb330;

/// `skein512-136` (multihash).
pub const SKEIN512_136: u128 = 0xb331;

/// `skein512-144` (multihash).
pub const SKEIN512_144: u128 = 0xb332;

/// `skein512-152` (multihash).
pub const SKEIN512_152: u128 = 0xb333;

/// `skein512-160` (multihash).
pub const SKEIN512_160: u128 = 0xb334;

/// `skein512-168` (multihash).
pub const SKEIN512_168: u128 = 0xb335;

/// `skein512-176` (multihash).
pub const SKEIN512_176: u128 = 0xb336;

/// `skein512-184` (multihash).
pub const SKEIN512_184: u128 = 0xb337;

/// `skein512-192` (multihash).
pub const SKEIN512_192: u128 = 0xb338;

/// `skein512-200` (multihash).
pub const SKEIN512_200: u128 = 0xb339;

/// `skein512-208` (multihash).
pub const SKEIN512_208: u128 = 0xb33a;

/// `skein512-216` (multihash).
pub const SKEIN512_216: u128 = 0xb33b;

/// `skein512-224` (multihash).
pub const SKEIN512_224: u128 = 0xb33c;

/// `skein512-232` (multihash).
pub const SKEIN512_232: u128 = 0xb33d;

/// `skein512-240` (multihash).
pub const SKEIN512_240: u128 = 0xb33e;

/// `skein512-248` (multihash).
pub const SKEIN512_248: u128 = 0xb33f;

/// `skein512-256` (multihash).
pub const SKEIN512_256: u128 = 0xb340;

/// `skein512-264` (multihash).
pub const SKEIN512_264: u128 = 0xb341;

/// `skein512-272` (multihash).
pub const SKEIN512_272: u128 = 0xb342;

/// `skein512-280` (multihash).
pub const SKEIN512_280: u128 = 0xb343;

/// `skein512-288` (multihash).
pub const SKEIN512_288: u128 = 0xb344;

/// `skein512-296` (multihash).
pub const SKEIN512_296: u128 = 0xb345;

/// `skein512-304` (multihash).
pub const SKEIN512_304: u128 = 0xb346;

/// `skein512-312` (multihash).
pub const SKEIN512_312: u128 = 0xb347;

/// `skein512-320` (multihash).
pub const SKEIN512_320: u128 = 0xb348;

/// `skein512-328` (multihash).
pub const SKEIN512_328: u128 = 0xb349;

/// `skein512-336` (multihash).
pub const SKEIN512_336: u128 = 0xb34a;

/// `skein512-344` (multihash).
pub const SKEIN512_344: u128 = 0xb34b;

/// `skein512-352` (multihash).
pub const SKEIN512_352: u128 = 0xb34c;

/// `skein512-360` (multihash).
pub const SKEIN512_360: u128 = 0xb34d;

/// `skein512-368` (multihash).
pub const SKEIN512_368: u128 = 0xb34e;

/// `skein512-376` (multihash).
pub const SKEIN512_376: u128 = 0xb34f;

/// `skein512-384` (multihash).
pub const SKEIN512_384: u128 = 0xb350;

/// `skein512-392` (multihash).
pub const SKEIN512_392: u128 = 0xb351;

/// `skein512-400` (multihash).
pub const SKEIN512_400: u128 = 0xb352;

/// `skein512-408` (multihash).
pub const SKEIN512_408: u128 = 0xb353;

/// `skein512-416` (multihash).
pub const SKEIN512_416: u128 = 0xb354;

/// `skein512-424` (multihash).
pub const SKEIN512_424: u128 = 0xb355;

/// `skein512-432` (multihash).
pub const SKEIN512_432: u128 = 0xb356;

/// `skein512-440` (multihash).
pub const SKEIN512_440: u128 = 0xb357;

/// `skein512-448` (multihash).
pub const SKEIN512_448: u128 = 0xb358;

/// `skein512-456` (multihash).
pub const SKEIN512_456: u128 = 0xb359;

/// `skein512-464` (multihash).
pub const SKEIN512_464: u128 = 0xb35a;

/// `skein512-472` (multihash).
pub const SKEIN512_472: u128 = 0xb35b;

/// `skein512-480` (multihash).
pub const SKEIN512_480: u128 = 0xb35c;

/// `skein512-488` (multihash).
pub const SKEIN512_488: u128 = 0xb35d;

/// `skein512-496` (multihash).
pub const SKEIN512_496: u128 = 0xb35e;

/// `skein512-504` (multihash).
pub const SKEIN512_504: u128 = 0xb35f;

/// `skein512-512` (multihash).
pub const SKEIN512_512: u128 = 0xb360;

/// `skein1024-8` (multihash).
pub const SKEIN1024_8: u128 = 0xb361;

/// `skein1024-16` (multihash).
pub const SKEIN1024_16: u128 = 0xb362;

/// `skein1024-24` (multihash).
pub const SKEIN1024_24: u128 = 0xb363;

/// `skein1024-32` (multihash).
pub const SKEIN1024_32: u128 = 0xb364;

/// `skein1024-40` (multihash).
pub const SKEIN1024_40: u128 = 0xb365;

/// `skein1024-48` (multihash).
pub const SKEIN1024_48: u128 = 0xb366;

/// `skein1024-56` (multihash).
pub const SKEIN1024_56: u128 = 0xb367;

/// `skein1024-64` (multihash).
pub const SKEIN1024_64: u128 = 0xb368;

/// `skein1024-72` (multihash).
pub const SKEIN1024_72: u128 = 0xb369;

/// `skein1024-80` (multihash).
pub const SKEIN1024_80: u128 = 0xb36a;

/// `skein1024-88` (multihash).
pub const SKEIN1024_88: u128 = 0xb36b;

/// `skein1024-96` (multihash).
pub const SKEIN1024_96: u128 = 0xb36c;

/// `skein1024-104` (multihash).
pub const SKEIN1024_104: u128 = 0xb36d;

/// `skein1024-112` (multihash).
pub const SKEIN1024_112: u128 = 0xb36e;

/// `skein1024-120` (multihash).
pub const SKEIN1024_120: u128 = 0xb36f;

/// `skein1024-128` (multihash).
pub const SKEIN1024_128: u128 = 0xb370;

/// `skein1024-136` (multihash).
pub const SKEIN1024_136: u128 = 0xb371;

/// `skein1024-144` (multihash).
pub const SKEIN1024_144: u128 = 0xb372;

/// `skein1024-152` (multihash).
pub const SKEIN1024_152: u128 = 0xb373;

/// `skein1024-160` (multihash).
pub const SKEIN1024_160: u128 = 0xb374;

/// `skein1024-168` (multihash).
pub const SKEIN1024_168: u128 = 0xb375;

/// `skein1024-176` (multihash).
pub const SKEIN1024_176: u128 = 0xb376;

/// `skein1024-184` (multihash).
pub const SKEIN1024_184: u128 = 0xb377;

/// `skein1024-192` (multihash).
pub const SKEIN1024_192: u128 = 0xb378;

/// `skein1024-200` (multihash).
pub const SKEIN1024_200: u128 = 0xb379;

/// `skein1024-208` (multihash).
pub const SKEIN1024_208: u128 = 0xb37a;

/// `skein1024-216` (multihash).
pub const SKEIN1024_216: u128 = 0xb37b;

/// `skein1024-224` (multihash).
pub const SKEIN1024_224: u128 = 0xb37c;

/// `skein1024-232` (multihash).
pub const SKEIN1024_232: u128 = 0xb37d;

/// `skein1024-240` (multihash).
pub const SKEIN1024_240: u128 = 0xb37e;

/// `skein1024-248` (multihash).
pub const SKEIN1024_248: u128 = 0xb37f;

/// `skein1024-256` (multihash).
pub const SKEIN1024_256: u128 = 0xb380;

/// `skein1024-264` (multihash).
pub const SKEIN1024_264: u128 = 0xb381;

/// `skein1024-272` (multihash).
pub const SKEIN1024_272: u128 = 0xb382;

/// `skein1024-280` (multihash).
pub const SKEIN1024_280: u128 = 0xb383;

/// `skein1024-288` (multihash).
pub const SKEIN1024_288: u128 = 0xb384;

/// `skein1024-296` (multihash).
pub const SKEIN1024_296: u128 = 0xb385;

/// `skein1024-304` (multihash).
pub const SKEIN1024_304: u128 = 0xb386;

/// `skein1024-312` (multihash).
pub const SKEIN1024_312: u128 = 0xb387;

/// `skein1024-320` (multihash).
pub const SKEIN1024_320: u128 = 0xb388;

/// `skein1024-328` (multihash).
pub const SKEIN1024_328: u128 = 0xb389;

/// `skein1024-336` (multihash).
pub const SKEIN1024_336: u128 = 0xb38a;

/// `skein1024-344` (multihash).
pub const SKEIN1024_344: u128 = 0xb38b;

/// `skein1024-352` (multihash).
pub const SKEIN1024_352: u128 = 0xb38c;

/// `skein1024-360` (multihash).
pub const SKEIN1024_360: u128 = 0xb38d;

/// `skein1024-368` (multihash).
pub const SKEIN1024_368: u128 = 0xb38e;

/// `skein1024-376` (multihash).
pub const SKEIN1024_376: u128 = 0xb38f;

/// `skein1024-384` (multihash).
pub const SKEIN1024_384: u128 = 0xb390;

/// `skein1024-392` (multihash).
pub const SKEIN1024_392: u128 = 0xb391;

/// `skein1024-400` (multihash).
pub const SKEIN1024_400: u128 = 0xb392;

/// `skein1024-408` (multihash).
pub const SKEIN1024_408: u128 = 0xb393;

/// `skein1024-416` (multihash).
pub const SKEIN1024_416: u128 = 0xb394;

/// `skein1024-424` (multihash).
pub const SKEIN1024_424: u128 = 0xb395;

/// `skein1024-432` (multihash).
pub const SKEIN1024_432: u128 = 0xb396;

/// `skein1024-440` (multihash).
pub const SKEIN1024_440: u128 = 0xb397;

/// `skein1024-448` (multihash).
pub const SKEIN1024_448: u128 = 0xb398;

/// `skein1024-456` (multihash).
pub const SKEIN1024_456: u128 = 0xb399;

/// `skein1024-464` (multihash).
pub const SKEIN1024_464: u128 = 0xb39a;

/// `skein1024-472` (multihash).
pub const SKEIN1024_472: u128 = 0xb39b;

/// `skein1024-480` (multihash).
pub const SKEIN1024_480: u128 = 0xb39c;

/// `skein1024-488` (multihash).
pub const SKEIN1024_488: u128 = 0xb39d;

/// `skein1024-496` (multihash).
pub const SKEIN1024_496: u128 = 0xb39e;

/// `skein1024-504` (multihash).
pub const SKEIN1024_504: u128 = 0xb39f;

/// `skein1024-512` (multihash).
pub const SKEIN1024_512: u128 = 0xb3a0;

/// `skein1024-520` (multihash).
pub const SKEIN1024_520: u128 = 0xb3a1;

/// `skein1024-528` (multihash).
pub const SKEIN1024_528: u128 = 0xb3a2;

/// `skein1024-536` (multihash).
pub const SKEIN1024_536: u128 = 0xb3a3;

/// `skein1024-544` (multihash).
pub const SKEIN1024_544: u128 = 0xb3a4;

/// `skein1024-552` (multihash).
pub const SKEIN1024_552: u128 = 0xb3a5;

/// `skein1024-560` (multihash).
pub const SKEIN1024_560: u128 = 0xb3a6;

/// `skein1024-568` (multihash).
pub const SKEIN1024_568: u128 = 0xb3a7;

/// `skein1024-576` (multihash).
pub const SKEIN1024_576: u128 = 0xb3a8;

/// `skein1024-584` (multihash).
pub const SKEIN1024_584: u128 = 0xb3a9;

/// `skein1024-592` (multihash).
pub const SKEIN1024_592: u128 = 0xb3aa;

/// `skein1024-600` (multihash).
pub const SKEIN1024_600: u128 = 0xb3ab;

/// `skein1024-608` (multihash).
pub const SKEIN1024_608: u128 = 0xb3ac;

/// `skein1024-616` (multihash).
pub const SKEIN1024_616: u128 = 0xb3ad;

/// `skein1024-624` (multihash).
pub const SKEIN1024_624: u128 = 0xb3ae;

/// `skein1024-632` (multihash).
pub const SKEIN1024_632: u128 = 0xb3af;

/// `skein1024-640` (multihash).
pub const SKEIN1024_640: u128 = 0xb3b0;

/// `skein1024-648` (multihash).
pub const SKEIN1024_648: u128 = 0xb3b1;

/// `skein1024-656` (multihash).
pub const SKEIN1024_656: u128 = 0xb3b2;

/// `skein1024-664` (multihash).
pub const SKEIN1024_664: u128 = 0xb3b3;

/// `skein1024-672` (multihash).
pub const SKEIN1024_672: u128 = 0xb3b4;

/// `skein1024-680` (multihash).
pub const SKEIN1024_680: u128 = 0xb3b5;

/// `skein1024-688` (multihash).
pub const SKEIN1024_688: u128 = 0xb3b6;

/// `skein1024-696` (multihash).
pub const SKEIN1024_696: u128 = 0xb3b7;

/// `skein1024-704` (multihash).
pub const SKEIN1024_704: u128 = 0xb3b8;

/// `skein1024-712` (multihash).
pub const SKEIN1024_712: u128 = 0xb3b9;

/// `skein1024-720` (multihash).
pub const SKEIN1024_720: u128 = 0xb3ba;

/// `skein1024-728` (multihash).
pub const SKEIN1024_728: u128 = 0xb3bb;

/// `skein1024-736` (multihash).
pub const SKEIN1024_736: u128 = 0xb3bc;

/// `skein1024-744` (multihash).
pub const SKEIN1024_744: u128 = 0xb3bd;

/// `skein1024-752` (multihash).
pub const SKEIN1024_752: u128 = 0xb3be;

/// `skein1024-760` (multihash).
pub const SKEIN1024_760: u128 = 0xb3bf;

/// `skein1024-768` (multihash).
pub const SKEIN1024_768: u128 = 0xb3c0;

/// `skein1024-776` (multihash).
pub const SKEIN1024_776: u128 = 0xb3c1;

/// `skein1024-784` (multihash).
pub const SKEIN1024_784: u128 = 0xb3c2;

/// `skein1024-792` (multihash).
pub const SKEIN1024_792: u128 = 0xb3c3;

/// `skein1024-800` (multihash).
pub const SKEIN1024_800: u128 = 0xb3c4;

/// `skein1024-808` (multihash).
pub const SKEIN1024_808: u128 = 0xb3c5;

/// `skein1024-816` (multihash).
pub const SKEIN1024_816: u128 = 0xb3c6;

/// `skein1024-824` (multihash).
pub const SKEIN1024_824: u128 = 0xb3c7;

/// `skein1024-832` (multihash).
pub const SKEIN1024_832: u128 = 0xb3c8;

/// `skein1024-840` (multihash).
pub const SKEIN1024_840: u128 = 0xb3c9;

/// `skein1024-848` (multihash).
pub const SKEIN1024_848: u128 = 0xb3ca;

/// `skein1024-856` (multihash).
pub const SKEIN1024_856: u128 = 0xb3cb;

/// `skein1024-864` (multihash).
pub const SKEIN1024_864: u128 = 0xb3cc;

/// `skein1024-872` (multihash).
pub const SKEIN1024_872: u128 = 0xb3cd;

/// `skein1024-880` (multihash).
pub const SKEIN1024_880: u128 = 0xb3ce;

/// `skein1024-888` (multihash).
pub const SKEIN1024_888: u128 = 0xb3cf;

/// `skein1024-896` (multihash).
pub const SKEIN1024_896: u128 = 0xb3d0;

/// `skein1024-904` (multihash).
pub const SKEIN1024_904: u128 = 0xb3d1;

/// `skein1024-912` (multihash).
pub const SKEIN1024_912: u128 = 0xb3d2;

/// `skein1024-920` (multihash).
pub const SKEIN1024_920: u128 = 0xb3d3;

/// `skein1024-928` (multihash).
pub const SKEIN1024_928: u128 = 0xb3d4;

/// `skein1024-936` (multihash).
pub const SKEIN1024_936: u128 = 0xb3d5;

/// `skein1024-944` (multihash).
pub const SKEIN1024_944: u128 = 0xb3d6;

/// `skein1024-952` (multihash).
pub const SKEIN1024_952: u128 = 0xb3d7;

/// `skein1024-960` (multihash).
pub const SKEIN1024_960: u128 = 0xb3d8;

/// `skein1024-968` (multihash).
pub const SKEIN1024_968: u128 = 0xb3d9;

/// `skein1024-976` (multihash).
pub const SKEIN1024_976: u128 = 0xb3da;

/// `skein1024-984` (multihash).
pub const SKEIN1024_984: u128 = 0xb3db;

/// `skein1024-992` (multihash).
pub const SKEIN1024_992: u128 = 0xb3dc;

/// `skein1024-1000` (multihash).
pub const SKEIN1024_1000: u128 = 0xb3dd;

/// `skein1024-1008` (multihash).
pub const SKEIN1024_1008: u128 = 0xb3de;

/// `skein1024-1016` (multihash).
pub const SKEIN1024_1016: u128 = 0xb3df;

/// `skein1024-1024` (multihash).
pub const SKEIN1024_1024: u128 = 0xb3e0;

/// `poseidon-bls12_381-a2-fc1` (multihash).
pub const POSEIDON_BLS12_381_A2_FC1: u128 = 0xb401;

/// `poseidon-bls12_381-a2-fc1-sc` (multihash).
pub const POSEIDON_BLS12_381_A2_FC1_SC: u128 = 0xb402;

/// `zeroxcert-imprint-256` (zeroxcert).
pub const ZEROXCERT_IMPRINT_256: u128 = 0xce11;

/// `fil-commitment-unsealed` (filecoin).
pub const FIL_COMMITMENT_UNSEALED: u128 = 0xf101;

/// `fil-commitment-sealed` (filecoin).
pub const FIL_COMMITMENT_SEALED: u128 = 0xf102;

/// `holochain-adr-v0` (holochain).
pub const HOLOCHAIN_ADR_V0: u128 = 0x807124;

/// `holochain-adr-v1` (holochain).
pub const HOLOCHAIN_ADR_V1: u128 = 0x817124;

/// `holochain-key-v0` (holochain).
pub const HOLOCHAIN_KEY_V0: u128 = 0x947124;

/// `holochain-key-v1` (holochain).
pub const HOLOCHAIN_KEY_V1: u128 = 0x957124;

/// `holochain-sig-v0` (holochain).
pub const HOLOCHAIN_SIG_V0: u128 = 0xa27124;

/// `holochain-sig-v1` (holochain).
pub const HOLOCHAIN_SIG_V1: u128 = 0xa37124;

/// The older name of `P2P`.
pub const IPFS: u128 = 0x01a5;

/// The number of rows of the table.
pub const TABLE_LEN: usize = 458;

/// The name of a code point, if the number names one.
pub open spec fn name_of(code: u128) -> Option<Seq<char>> {
    if code <= 0x82 {
        name_in_part_0(code)
    } else if code <= 0x012d {
        name_in_part_1(code)
    } else if code <= 0xb211 {
        name_in_part_2(code)
    } else if code <= 0xb241 {
        name_in_part_3(code)
    } else if code <= 0xb311 {
        name_in_part_4(code)
    } else if code <= 0xb341 {
        name_in_part_5(code)
    } else if code <= 0xb371 {
        name_in_part_6(code)
    } else if code <= 0xb3a1 {
        name_in_part_7(code)
    } else if code <= 0xb3d1 {
        name_in_part_8(code)
    } else {
        name_in_part_9(code)
    }
}

/// `name_of` on the rows from `identity` to `leofcoin-tx`.
pub open spec fn name_in_part_0(code: u128) -> Option<Seq<char>> {
    match code {
        0x00 => Some("identity"@),
        0x01 => Some("cidv1"@),
        0x02 => Some("cidv2"@),
        0x03 => Some("cidv3"@),
        0x04 => Some("ip4"@),
        0x06 => Some("tcp"@),
        0x11 => Some("sha1"@),
        0x12 => Some("sha2-256"@),
        0x13 => Some("sha2-512"@),
        0x14 => Some("sha3-512"@),
        0x15 => Some("sha3-384"@),
        0x16 => Some("sha3-256"@),
        0x17 => Some("sha3-224"@),
        0x18 => Some("shake-128"@),
        0x19 => Some("shake-256"@),
        0x1a => Some("keccak-224"@),
        0x1b => Some("keccak-256"@),
        0x1c => Some("keccak-384"@),
        0x1d => Some("keccak-512"@),
        0x1e => Some("blake3"@),
        0x21 => Some("dccp"@),
        0x22 => Some("murmur3-128"@),
        0x23 => Some("murmur3-32"@),
        0x29 => Some("ip6"@),
        0x2a => Some("ip6zone"@),
        0x2f => Some("path"@),
        0x30 => Some("multicodec"@),
        0x31 => Some("multihash"@),
        0x32 => Some("multiaddr"@),
        0x33 => Some("multibase"@),
        0x35 => Some("dns"@),
        0x36 => Some("dns4"@),
        0x37 => Some("dns6"@),
        0x38 => Some("dnsaddr"@),
        0x50 => Some("protobuf"@),
        0x51 => Some("cbor"@),
        0x55 => Some("raw"@),
        0x56 => Some("dbl-sha2-256"@),
        0x60 => Some("rlp"@),
        0x63 => Some("bencode"@),
        0x70 => Some("dag-pb"@),
        0x71 => Some("dag-cbor"@),
        0x72 => Some("libp2p-key"@),
        0x78 => Some("git-raw"@),
        0x7b => Some("torrent-info"@),
        0x7c => Some("torrent-file"@),
        0x81 => Some("leofcoin-block"@),
        0x82 => Some("leofcoin-tx"@),
        _ => None,
    }
}

/// `name_of` on the rows from `leofcoin-pr` to `udt`.
pub open spec fn name_in_part_1(code: u128) -> Option<Seq<char>> {
    match code {
        0x83 => Some("leofcoin-pr"@),
        0x84 => Some("sctp"@),
        0x85 => Some("dag-jose"@),
        0x86 => Some("dag-cose"@),
        0x90 => Some("eth-block"@),
        0x91 => Some("eth-block-list"@),
        0x92 => Some("eth-tx-trie"@),
        0x93 => Some("eth-tx"@),
        0x94 => Some("eth-tx-receipt-trie"@),
        0x95 => Some("eth-tx-receipt"@),
        0x96 => Some("eth-state-trie"@),
        0x97 => Some("eth-account-snapshot"@),
        0x98 => Some("eth-storage-trie"@),
        0xb0 => Some("bitcoin-block"@),
        0xb1 => Some("bitcoin-tx"@),
        0xb2 => Some("bitcoin-witness-commitment"@),
        0xc0 => Some("zcash-block"@),
        0xc1 => Some("zcash-tx"@),
        0xce => Some("docid"@),
        0xd0 => Some("stellar-block"@),
        0xd1 => Some("stellar-tx"@),
        0xd4 => Some("md4"@),
        0xd5 => Some("md5"@),
        0xd6 => Some("bmt"@),
        0xe0 => Some("decred-block"@),
        0xe1 => Some("decred-tx"@),
        0xe2 => Some("ipld-ns"@),
        0xe3 => Some("ipfs-ns"@),
        0xe4 => Some("swarm-ns"@),
        0xe5 => Some("ipns-ns"@),
        0xe6 => Some("zeronet"@),
        0xe7 => Some("secp256k1-pub"@),
        0xea => Some("bls12_381-g1-pub"@),
        0xeb => Some("bls12_381-g2-pub"@),
        0xec => Some("x25519-pub"@),
        0xed => Some("ed25519-pub"@),
        0xee => Some("bls12_381-g1g2-pub"@),
        0xf0 => Some("dash-block"@),
        0xf1 => Some("dash-tx"@),
        0xfa => Some("swarm-manifest"@),
        0xfb => Some("swarm-feed"@),
        0x0111 => Some("udp"@),
        0x0113 => Some("p2p-webrtc-star"@),
        0x0114 => Some("p2p-webrtc-direct"@),
        0x0115 => Some("p2p-stardust"@),
        0x0122 => Some("p2p-circuit"@),
        0x0129 => Some("dag-json"@),
        0x012d => Some("udt"@),
        _ => None,
    }
}

/// `name_of` on the rows from `utp` to `blake2b-136`.
pub open spec fn name_in_part_2(code: u128) -> Option<Seq<char>> {
    match code {
        0x012e => Some("utp"@),
        0x0190 => Some("unix"@),
        0x01a5 => Some("p2p"@),
        0x01bb => Some("https"@),
        0x01bc => Some("onion"@),
        0x01bd => Some("onion3"@),
        0x01be => Some("garlic64"@),
        0x01bf => Some("garlic32"@),
        0x01c0 => Some("tls"@),
        0x01cc => Some("quic"@),
        0x01dd => Some("ws"@),
        0x01de => Some("wss"@),
        0x01df => Some("p2p-websocket-star"@),
        0x01e0 => Some("http"@),
        0x0200 => Some("json"@),
        0x0201 => Some("messagepack"@),
        0x0301 => Some("libp2p-peer-record"@),
        0x1012 => Some("sha2-256-trunc254-padded"@),
        0x1052 => Some("ripemd-128"@),
        0x1053 => Some("ripemd-160"@),
        0x1054 => Some("ripemd-256"@),
        0x1055 => Some("ripemd-320"@),
        0x1100 => Some("x11"@),
        0x1200 => Some("p256-pub"@),
        0x1201 => Some("p384-pub"@),
        0x1202 => Some("p521-pub"@),
        0x1203 => Some("ed448-pub"@),
        0x1204 => Some("x448-pub"@),
        0x1300 => Some("ed25519-priv"@),
        0x1d01 => Some("kangarootwelve"@),
        0x534d => Some("sm3-256"@),
        0xb201 => Some("blake2b-8"@),
        0xb202 => Some("blake2b-16"@),
        0xb203 => Some("blake2b-24"@),
        0xb204 => Some("blake2b-32"@),
        0xb205 => Some("blake2b-40"@),
        0xb206 => Some("blake2b-48"@),
        0xb207 => Some("blake2b-56"@),
        0xb208 => Some("blake2b-64"@),
        0xb209 => Some("blake2b-72"@),
        0xb20a => Some("blake2b-80"@),
        0xb20b => Some("blake2b-88"@),
        0xb20c => Some("blake2b-96"@),
        0xb20d => Some("blake2b-104"@),
        0xb20e => Some("blake2b-112"@),
        0xb20f => Some("blake2b-120"@),
        0xb210 => Some("blake2b-128"@),
        0xb211 => Some("blake2b-136"@),
        _ => None,
    }
}

/// `name_of` on the rows from `blake2b-144` to `blake2s-8`.
pub open spec fn name_in_part_3(code: u128) -> Option<Seq<char>> {
    match code {
        0xb212 => Some("blake2b-144"@),
        0xb213 => Some("blake2b-152"@),
        0xb214 => Some("blake2b-160"@),
        0xb215 => Some("blake2b-168"@),
        0xb216 => Some("blake2b-176"@),
        0xb217 => Some("blake2b-184"@),
        0xb218 => Some("blake2b-192"@),
        0xb219 => Some("blake2b-200"@),
        0xb21a => Some("blake2b-208"@),
        0xb21b => Some("blake2b-216"@),
        0xb21c => Some("blake2b-224"@),
        0xb21d => Some("blake2b-232"@),
        0xb21e => Some("blake2b-240"@),
        0xb21f => Some("blake2b-248"@),
        0xb220 => Some("blake2b-256"@),
        0xb221 => Some("blake2b-264"@),
        0xb222 => Some("blake2b-272"@),
        0xb223 => Some("blake2b-280"@),
        0xb224 => Some("blake2b-288"@),
        0xb225 => Some("blake2b-296"@),
        0xb226 => Some("blake2b-304"@),
        0xb227 => Some("blake2b-312"@),
        0xb228 => Some("blake2b-320"@),
        0xb229 => Some("blake2b-328"@),
        0xb22a => Some("blake2b-336"@),
        0xb22b => Some("blake2b-344"@),
        0xb22c => Some("blake2b-352"@),
        0xb22d => Some("blake2b-360"@),
        0xb22e => Some("blake2b-368"@),
        0xb22f => Some("blake2b-376"@),
        0xb230 => Some("blake2b-384"@),
        0xb231 => Some("blake2b-392"@),
        0xb232 => Some("blake2b-400"@),
        0xb233 => Some("blake2b-408"@),
        0xb234 => Some("blake2b-416"@),
        0xb235 => Some("blake2b-424"@),
        0xb236 => Some("blake2b-432"@),
        0xb237 => Some("blake2b-440"@),
        0xb238 => Some("blake2b-448"@),
        0xb239 => Some("blake2b-456"@),
        0xb23a => Some("blake2b-464"@),
        0xb23b => Some("blake2b-472"@),
        0xb23c => Some("blake2b-480"@),
        0xb23d => Some("blake2b-488"@),
        0xb23e => Some("blake2b-496"@),
        0xb23f => Some("blake2b-504"@),
        0xb240 => Some("blake2b-512"@),
        0xb241 => Some("blake2s-8"@),
        _ => None,
    }
}

/// `name_of` on the rows from `blake2s-16` to `skein256-136`.
pub open spec fn name_in_part_4(code: u128) -> Option<Seq<char>> {
    match code {
        0xb242 => Some("blake2s-16"@),
        0xb243 => Some("blake2s-24"@),
        0xb244 => Some("blake2s-32"@),
        0xb245 => Some("blake2s-40"@),
        0xb246 => Some("blake2s-48"@),
        0xb247 => Some("blake2s-56"@),
        0xb248 => Some("blake2s-64"@),
        0xb249 => Some("blake2s-72"@),
        0xb24a => Some("blake2s-80"@),
        0xb24b => Some("blake2s-88"@),
        0xb24c => Some("blake2s-96"@),
        0xb24d => Some("blake2s-104"@),
        0xb24e => Some("blake2s-112"@),
        0xb24f => Some("blake2s-120"@),
        0xb250 => Some("blake2s-128"@),
        0xb251 => Some("blake2s-136"@),
        0xb252 => Some("blake2s-144"@),
        0xb253 => Some("blake2s-152"@),
        0xb254 => Some("blake2s-160"@),
        0xb255 => Some("blake2s-168"@),
        0xb256 => Some("blake2s-176"@),
        0xb257 => Some("blake2s-184"@),
        0xb258 => Some("blake2s-192"@),
        0xb259 => Some("blake2s-200"@),
        0xb25a => Some("blake2s-208"@),
        0xb25b => Some("blake2s-216"@),
        0xb25c => Some("blake2s-224"@),
        0xb25d => Some("blake2s-232"@),
        0xb25e => Some("blake2s-240"@),
        0xb25f => Some("blake2s-248"@),
        0xb260 => Some("blake2s-256"@),
        0xb301 => Some("skein256-8"@),
        0xb302 => Some("skein256-16"@),
        0xb303 => Some("skein256-24"@),
        0xb304 => Some("skein256-32"@),
        0xb305 => Some("skein256-40"@),
        0xb306 => Some("skein256-48"@),
        0xb307 => Some("skein256-56"@),
        0xb308 => Some("skein256-64"@),
        0xb309 => Some("skein256-72"@),
        0xb30a => Some("skein256-80"@),
        0xb30b => Some("skein256-88"@),
        0xb30c => Some("skein256-96"@),
        0xb30d => Some("skein256-104"@),
        0xb30e => Some("skein256-112"@),
        0xb30f => Some("skein256-120"@),
        0xb310 => Some("skein256-128"@),
        0xb311 => Some("skein256-136"@),
        _ => None,
    }
}

/// `name_of` on the rows from `skein256-144` to `skein512-264`.
pub open spec fn name_in_part_5(code: u128) -> Option<Seq<char>> {
    match code {
        0xb312 => Some("skein256-144"@),
        0xb313 => Some("skein256-152"@),
        0xb314 => Some("skein256-160"@),
        0xb315 => Some("skein256-168"@),
        0xb316 => Some("skein256-176"@),
        0xb317 => Some("skein256-184"@),
        0xb318 => Some("skein256-192"@),
        0xb319 => Some("skein256-200"@),
        0xb31a => Some("skein256-208"@),
        0xb31b => Some("skein256-216"@),
        0xb31c => Some("skein256-224"@),
        0xb31d => Some("skein256-232"@),
        0xb31e => Some("skein256-240"@),
        0xb31f => Some("skein256-248"@),
        0xb320 => Some("skein256-256"@),
        0xb321 => Some("skein512-8"@),
        0xb322 => Some("skein512-16"@),
        0xb323 => Some("skein512-24"@),
        0xb324 => Some("skein512-32"@),
        0xb325 => Some("skein512-40"@),
        0xb326 => Some("skein512-48"@),
        0xb327 => Some("skein512-56"@),
        0xb328 => Some("skein512-64"@),
        0xb329 => Some("skein512-72"@),
        0xb32a => Some("skein512-80"@),
        0xb32b => Some("skein512-88"@),
        0xb32c => Some("skein512-96"@),
        0xb32d => Some("skein512-104"@),
        0xb32e => Some("skein512-112"@),
        0xb32f => Some("skein512-120"@),
        0xb330 => Some("skein512-128"@),
        0xb331 => Some("skein512-136"@),
        0xb332 => Some("skein512-144"@),
        0xb333 => Some("skein512-152"@),
        0xb334 => Some("skein512-160"@),
        0xb335 => Some("skein512-168"@),
        0xb336 => Some("skein512-176"@),
        0xb337 => Some("skein512-184"@),
        0xb338 => Some("skein512-192"@),
        0xb339 => Some("skein512-200"@),
        0xb33a => Some("skein512-208"@),
        0xb33b => Some("skein512-216"@),
        0xb33c => Some("skein512-224"@),
        0xb33d => Some("skein512-232"@),
        0xb33e => Some("skein512-240"@),
        0xb33f => Some("skein512-248"@),
        0xb340 => Some("skein512-256"@),
        0xb341 => Some("skein512-264"@),
        _ => None,
    }
}

/// `name_of` on the rows from `skein512-272` to `skein1024-136`.
pub open spec fn name_in_part_6(code: u128) -> Option<Seq<char>> {
    match code {
        0xb342 => Some("skein512-272"@),
        0xb343 => Some("skein512-280"@),
        0xb344 => Some("skein512-288"@),
        0xb345 => Some("skein512-296"@),
        0xb346 => Some("skein512-304"@),
        0xb347 => Some("skein512-312"@),
        0xb348 => Some("skein512-320"@),
        0xb349 => Some("skein512-328"@),
        0xb34a => Some("skein512-336"@),
        0xb34b => Some("skein512-344"@),
        0xb34c => Some("skein512-352"@),
        0xb34d => Some("skein512-360"@),
        0xb34e => Some("skein512-368"@),
        0xb34f => Some("skein512-376"@),
        0xb350 => Some("skein512-384"@),
        0xb351 => Some("skein512-392"@),
        0xb352 => Some("skein512-400"@),
        0xb353 => Some("skein512-408"@),
        0xb354 => Some("skein512-416"@),
        0xb355 => Some("skein512-424"@),
        0xb356 => Some("skein512-432"@),
        0xb357 => Some("skein512-440"@),
        0xb358 => Some("skein512-448"@),
        0xb359 => Some("skein512-456"@),
        0xb35a => Some("skein512-464"@),
        0xb35b => Some("skein512-472"@),
        0xb35c => Some("skein512-480"@),
        0xb35d => Some("skein512-488"@),
        0xb35e => Some("skein512-496"@),
        0xb35f => Some("skein512-504"@),
        0xb360 => Some("skein512-512"@),
        0xb361 => Some("skein1024-8"@),
        0xb362 => Some("skein1024-16"@),
        0xb363 => Some("skein1024-24"@),
        0xb364 => Some("skein1024-32"@),
        0xb365 => Some("skein1024-40"@),
        0xb366 => Some("skein1024-48"@),
        0xb367 => Some("skein1024-56"@),
        0xb368 => Some("skein1024-64"@),
        0xb369 => Some("skein1024-72"@),
        0xb36a => Some("skein1024-80"@),
        0xb36b => Some("skein1024-88"@),
        0xb36c => Some("skein1024-96"@),
        0xb36d => Some("skein1024-104"@),
        0xb36e => Some("skein1024-112"@),
        0xb36f => Some("skein1024-120"@),
        0xb370 => Some("skein1024-128"@),
        0xb371 => Some("skein1024-136"@),
        _ => None,
    }
}

/// `name_of` on the rows from `skein1024-144` to `skein1024-520`.
pub open spec fn name_in_part_7(code: u128) -> Option<Seq<char>> {
    match code {
        0xb372 => Some("skein1024-144"@),
        0xb373 => Some("skein1024-152"@),
        0xb374 => Some("skein1024-160"@),
        0xb375 => Some("skein1024-168"@),
        0xb376 => Some("skein1024-176"@),
        0xb377 => Some("skein1024-184"@),
        0xb378 => Some("skein1024-192"@),
        0xb379 => Some("skein1024-200"@),
        0xb37a => Some("skein1024-208"@),
        0xb37b => Some("skein1024-216"@),
        0xb37c => Some("skein1024-224"@),
        0xb37d => Some("skein1024-232"@),
        0xb37e => Some("skein1024-240"@),
        0xb37f => Some("skein1024-248"@),
        0xb380 => Some("skein1024-256"@),
        0xb381 => Some("skein1024-264"@),
        0xb382 => Some("skein1024-272"@),
        0xb383 => Some("skein1024-280"@),
        0xb384 => Some("skein1024-288"@),
        0xb385 => Some("skein1024-296"@),
        0xb386 => Some("skein1024-304"@),
        0xb387 => Some("skein1024-312"@),
        0xb388 => Some("skein1024-320"@),
        0xb389 => Some("skein1024-328"@),
        0xb38a => Some("skein1024-336"@),
        0xb38b => Some("skein1024-344"@),
        0xb38c => Some("skein1024-352"@),
        0xb38d => Some("skein1024-360"@),
        0xb38e => Some("skein1024-368"@),
        0xb38f => Some("skein1024-376"@),
        0xb390 => Some("skein1024-384"@),
        0xb391 => Some("skein1024-392"@),
        0xb392 => Some("skein1024-400"@),
        0xb393 => Some("skein1024-408"@),
        0xb394 => Some("skein1024-416"@),
        0xb395 => Some("skein1024-424"@),
        0xb396 => Some("skein1024-432"@),
        0xb397 => Some("skein1024-440"@),
        0xb398 => Some("skein1024-448"@),
        0xb399 => Some("skein1024-456"@),
        0xb39a => Some("skein1024-464"@),
        0xb39b => Some("skein1024-472"@),
        0xb39c => Some("skein1024-480"@),
        0xb39d => Some("skein1024-488"@),
        0xb39e => Some("skein1024-496"@),
        0xb39f => Some("skein1024-504"@),
        0xb3a0 => Some("skein1024-512"@),
        0xb3a1 => Some("skein1024-520"@),
        _ => None,
    }
}

/// `name_of` on the rows from `skein1024-528` to `skein1024-904`.
pub open spec fn name_in_part_8(code: u128) -> Option<Seq<char>> {
    match code {
        0xb3a2 => Some("skein1024-528"@),
        0xb3a3 => Some("skein1024-536"@),
        0xb3a4 => Some("skein1024-544"@),
        0xb3a5 => Some("skein1024-552"@),
        0xb3a6 => Some("skein1024-560"@),
        0xb3a7 => Some("skein1024-568"@),
        0xb3a8 => Some("skein1024-576"@),
        0xb3a9 => Some("skein1024-584"@),
        0xb3aa => Some("skein1024-592"@),
        0xb3ab => Some("skein1024-600"@),
        0xb3ac => Some("skein1024-608"@),
        0xb3ad => Some("skein1024-616"@),
        0xb3ae => Some("skein1024-624"@),
        0xb3af => Some("skein1024-632"@),
        0xb3b0 => Some("skein1024-640"@),
        0xb3b1 => Some("skein1024-648"@),
        0xb3b2 => Some("skein1024-656"@),
        0xb3b3 => Some("skein1024-664"@),
        0xb3b4 => Some("skein1024-672"@),
        0xb3b5 => Some("skein1024-680"@),
        0xb3b6 => Some("skein1024-688"@),
        0xb3b7 => Some("skein1024-696"@),
        0xb3b8 => Some("skein1024-704"@),
        0xb3b9 => Some("skein1024-712"@),
        0xb3ba => Some("skein1024-720"@),
        0xb3bb => Some("skein1024-728"@),
        0xb3bc => Some("skein1024-736"@),
        0xb3bd => Some("skein1024-744"@),
        0xb3be => Some("skein1024-752"@),
        0xb3bf => Some("skein1024-760"@),
        0xb3c0 => Some("skein1024-768"@),
        0xb3c1 => Some("skein1024-776"@),
        0xb3c2 => Some("skein1024-784"@),
        0xb3c3 => Some("skein1024-792"@),
        0xb3c4 => Some("skein1024-800"@),
        0xb3c5 => Some("skein1024-808"@),
        0xb3c6 => Some("skein1024-816"@),
        0xb3c7 => Some("skein1024-824"@),
        0xb3c8 => Some("skein1024-832"@),
        0xb3c9 => Some("skein1024-840"@),
        0xb3ca => Some("skein1024-848"@),
        0xb3cb => Some("skein1024-856"@),
        0xb3cc => Some("skein1024-864"@),
        0xb3cd => Some("skein1024-872"@),
        0xb3ce => Some("skein1024-880"@),
        0xb3cf => Some("skein1024-888"@),
        0xb3d0 => Some("skein1024-896"@),
        0xb3d1 => Some("skein1024-904"@),
        _ => None,
    }
}

/// `name_of` on the rows from `skein1024-912` to `holochain-sig-v1`.
pub open spec fn name_in_part_9(code: u128) -> Option<Seq<char>> {
    match code {
        0xb3d2 => Some("skein1024-912"@),
        0xb3d3 => Some("skein1024-920"@),
        0xb3d4 => Some("skein1024-928"@),
        0xb3d5 => Some("skein1024-936"@),
        0xb3d6 => Some("skein1024-944"@),
        0xb3d7 => Some("skein1024-952"@),
        0xb3d8 => Some("skein1024-960"@),
        0xb3d9 => Some("skein1024-968"@),
        0xb3da => Some("skein1024-976"@),
        0xb3db => Some("skein1024-984"@),
        0xb3dc => Some("skein1024-992"@),
        0xb3dd => Some("skein1024-1000"@),
        0xb3de => Some("skein1024-1008"@),
        0xb3df => Some("skein1024-1016"@),
        0xb3e0 => Some("skein1024-1024"@),
        0xb401 => Some("poseidon-bls12_381-a2-fc1"@),
        0xb402 => Some("poseidon-bls12_381-a2-fc1-sc"@),
        0xce11 => Some("zeroxcert-imprint-256"@),
        0xf101 => Some("fil-commitment-unsealed"@),
        0xf102 => Some("fil-commitment-sealed"@),
        0x807124 => Some("holochain-adr-v0"@),
        0x817124 => Some("holochain-adr-v1"@),
        0x947124 => Some("holochain-key-v0"@),
        0x957124 => Some("holochain-key-v1"@),
        0xa27124 => Some("holochain-sig-v0"@),
        0xa37124 => Some("holochain-sig-v1"@),
        _ => None,
    }
}

/// The number names a hash function.
pub open spec fn is_multihash(code: u128) -> bool {
    code == 0x0
    || 0x11 <= code <= 0x1e
    || 0x22 <= code <= 0x23
    || code == 0x56
    || 0xd4 <= code <= 0xd6
    || code == 0x1012
    || 0x1052 <= code <= 0x1055
    || code == 0x1100
    || code == 0x1d01
    || code == 0x534d
    || 0xb201 <= code <= 0xb260
    || 0xb301 <= code <= 0xb3e0
    || 0xb401 <= code <= 0xb402
}

/// The number names a linked-data format.
pub open spec fn is_ipld(code: u128) -> bool {
    0x1 <= code <= 0x3
    || code == 0x55
    || 0x70 <= code <= 0x72
    || code == 0x78
    || 0x7b <= code <= 0x7c
    || 0x81 <= code <= 0x83
    || 0x85 <= code <= 0x86
    || 0x90 <= code <= 0x98
    || 0xb0 <= code <= 0xb2
    || 0xc0 <= code <= 0xc1
    || 0xd0 <= code <= 0xd1
    || 0xe0 <= code <= 0xe1
    || 0xf0 <= code <= 0xf1
    || 0xfa <= code <= 0xfb
    || code == 0x129
}

/// The number names an address protocol.
pub open spec fn is_multiaddr(code: u128) -> bool {
    code == 0x4
    || code == 0x6
    || code == 0x21
    || 0x29 <= code <= 0x2a
    || 0x35 <= code <= 0x38
    || code == 0x84
    || code == 0x111
    || 0x113 <= code <= 0x115
    || code == 0x122
    || 0x12d <= code <= 0x12e
    || code == 0x190
    || code == 0x1a5
    || 0x1bb <= code <= 0x1c0
    || code == 0x1cc
    || 0x1dd <= code <= 0x1e0
}

/// The number names a namespace.
pub open spec fn is_namespace(code: u128) -> bool {
    code == 0x2f
    || code == 0xce
    || 0xe2 <= code <= 0xe6
}

/// The number names a format of this family.
pub open spec fn is_multiformat(code: u128) -> bool {
    0x30 <= code <= 0x33
}

/// The number names a serialization format.
pub open spec fn is_serialization(code: u128) -> bool {
    0x50 <= code <= 0x51
    || code == 0x60
    || code == 0x63
    || 0x200 <= code <= 0x201
}

/// The number names a key type.
pub open spec fn is_key(code: u128) -> bool {
    code == 0xe7
    || 0xea <= code <= 0xee
    || 0x1200 <= code <= 0x1204
    || code == 0x1300
}

/// The number names a libp2p record.
pub open spec fn is_libp2p(code: u128) -> bool {
    code == 0x301
}

/// The number names a 0xcert imprint.
pub open spec fn is_zeroxcert(code: u128) -> bool {
    code == 0xce11
}

/// The number names a Filecoin commitment.
pub open spec fn is_filecoin(code: u128) -> bool {
    0xf101 <= code <= 0xf102
}

/// The number names a Holochain record.
pub open spec fn is_holochain(code: u128) -> bool {
    code == 0x807124
    || code == 0x817124
    || code == 0x947124
    || code == 0x957124
    || code == 0xa27124
    || code == 0xa37124
}

/// The category of a code point, if the number names one.
pub open spec fn tag_of(code: u128) -> Option<Seq<char>> {
    if is_multihash(code) {
        Some("multihash"@)
    } else if is_ipld(code) {
        Some("ipld"@)
    } else if is_multiaddr(code) {
        Some("multiaddr"@)
    } else if is_namespace(code) {
        Some("namespace"@)
    } else if is_multiformat(code) {
        Some("multiformat"@)
    } else if is_serialization(code) {
        Some("serialization"@)
    } else if is_key(code) {
        Some("key"@)
    } else if is_libp2p(code) {
        Some("libp2p"@)
    } else if is_zeroxcert(code) {
        Some("zeroxcert"@)
    } else if is_filecoin(code) {
        Some("filecoin"@)
    } else if is_holochain(code) {
        Some("holochain"@)
    } else {
        None
    }
}

/// What an identifier is printed as: its name, or a marker that no reader
/// will take for one.
pub open spec fn label_of(code: u128) -> Seq<char> {
    match name_of(code) {
        Some(n) => n,
        None => "@#bad-code#@"@,
    }
}

/// The number names a row of the table.
pub open spec fn is_known(code: u128) -> bool {
    tag_of(code) is Some
}

/// Each element is smaller than the next.
pub open spec fn ascending(s: Seq<u128>) -> bool {
    forall|i: int, j: int| 0 <= i < j < s.len() ==> s[i] < s[j]
}

/// One identifier, as it is held in memory.
#[derive(Clone, Copy, Debug, PartialEq, Eq, Structural)]
pub struct Multicodec {
    /// The number.
    pub code: u128,
}

impl View for Multicodec {
    type V = u128;

    open spec fn view(&self) -> u128 {
        self.code
    }
}

impl From<u128> for Multicodec {
    fn from(code: u128) -> (c: Multicodec) {
        Multicodec { code }
    }
}

impl FromSpecImpl<u128> for Multicodec {
    open spec fn obeys_from_spec() -> bool {
        true
    }

    open spec fn from_spec(code: u128) -> Multicodec {
        Multicodec { code }
    }
}

impl From<Multicodec> for u128 {
    fn from(codec: Multicodec) -> (code: u128) {
        codec.code
    }
}

impl FromSpecImpl<Multicodec> for u128 {
    open spec fn obeys_from_spec() -> bool {
        true
    }

    open spec fn from_spec(codec: Multicodec) -> u128 {
        codec.code
    }
}

impl<'a> From<&'a Codepoint> for Multicodec {
    fn from(row: &'a Codepoint) -> (c: Multicodec) {
        Multicodec { code: row.code }
    }
}

impl<'a> FromSpecImpl<&'a Codepoint> for Multicodec {
    open spec fn obeys_from_spec() -> bool {
        true
    }

    open spec fn from_spec(row: &'a Codepoint) -> Multicodec {
        Multicodec { code: row.code }
    }
}

impl Multicodec {
    /// The identifier with the given number. Any number will do: whether it
    /// names anything is a question for `name` and `tag`.
    pub fn from_code(code: u128) -> (r: Result<Multicodec, Error>)
        ensures
            r matches Ok(c) && c@ == code,
    {
        Ok(Multicodec { code })
    }

    /// Reads one identifier off the front of `buf` and hands back what
    /// follows it. Fails with `DecodeError` when `buf` holds no complete
    /// varint: it is empty, ends before a byte with a clear high bit, runs to
    /// nineteen bytes without one, or pads its value with a zero byte.
    pub fn decode(buf: &[u8]) -> (r: Result<(Multicodec, &[u8]), Error>)
        ensures
            match read_u128(buf@) {
                Reading::Value(v, n) => r matches Ok((c, rest)) && c@ == v && rest@ == buf@.skip(
                    n as int,
                ),
                _ => r matches Err(Error::DecodeError(_, _)),
            },
    {
        match take_u128(buf) {
            Some((code, rest)) => Ok((Multicodec { code }, rest)),
            None => Err(
                Error::DecodeError(
                    String::from_str("multicodec"),
                    String::from_str("no varint at the front of the buffer"),
                ),
            ),
        }
    }

    /// The varint form of the identifier: nineteen bytes at most. Never
    /// fails.
    pub fn encode(&self) -> (r: Result<Vec<u8>, Error>)
        ensures
            r matches Ok(bytes) && bytes@ == varint(self@ as nat) && 1 <= bytes@.len() <= 19,
    {
        proof {
            lemma_read_u128_varint(self.code, Seq::empty());
            lemma_varint_shape(self.code as nat);
        }
        Ok(write_u128(self.code))
    }

    /// The number of the identifier.
    pub fn to_code(&self) -> (code: u128)
        ensures
            code == self@,
    {
        self.code
    }

    /// The name the table gives the identifier.
    pub fn name(&self) -> (r: Option<&'static str>)
        ensures
            match r {
                Some(s) => name_of(self@) == Some(s@),
                None => name_of(self@) is None,
            },
    {
        name_for(self.code)
    }

    /// The category the table files the identifier under.
    pub fn tag(&self) -> (r: Option<&'static str>)
        ensures
            match r {
                Some(s) => tag_of(self@) == Some(s@),
                None => tag_of(self@) is None,
            },
    {
        tag_for(self.code)
    }

    /// The identifier as a reader sees it: its name, or a marker that no
    /// reader will take for one.
    pub fn to_string(&self) -> (s: String)
        ensures
            s@ == label_of(self@),
    {
        match name_for(self.code) {
            Some(n) => String::from_str(n),
            None => String::from_str("@#bad-code#@"),
        }
    }
}

/// One row of the table.
#[derive(Clone, Debug, PartialEq, Eq)]
pub struct Codepoint {
    /// The number.
    pub code: u128,
    /// The name.
    pub name: String,
    /// The category.
    pub tag: String,
}

impl Codepoint {
    /// The row says of its number what `name_of` and `tag_of` say.
    pub open spec fn is_row(&self) -> bool {
        name_of(self.code) == Some(self.name@) && tag_of(self.code) == Some(self.tag@)
    }

    /// The identifier the row describes.
    pub fn to_multicodec(&self) -> (c: Multicodec)
        ensures
            c@ == self.code,
    {
        Multicodec { code: self.code }
    }
}

/// The numbers of the rows, in the order of the rows.
pub open spec fn codes_of(rows: Seq<Codepoint>) -> Seq<u128> {
    rows.map_values(|row: Codepoint| row.code)
}

/// `name_of`, computed.
fn name_for(code: u128) -> (r: Option<&'static str>)
    ensures
        match r {
            Some(s) => name_of(code) == Some(s@),
            None => name_of(code) is None,
        },
{
    if code <= 0x82 {
        name_for_part_0(code)
    } else if code <= 0x012d {
        name_for_part_1(code)
    } else if code <= 0xb211 {
        name_for_part_2(code)
    } else if code <= 0xb241 {
        name_for_part_3(code)
    } else if code <= 0xb311 {
        name_for_part_4(code)
    } else if code <= 0xb341 {
        name_for_part_5(code)
    } else if code <= 0xb371 {
        name_for_part_6(code)
    } else if code <= 0xb3a1 {
        name_for_part_7(code)
    } else if code <= 0xb3d1 {
        name_for_part_8(code)
    } else {
        name_for_part_9(code)
    }
}

/// `name_in_part_0`, computed.
fn name_for_part_0(code: u128) -> (r: Option<&'static str>)
    ensures
        match r {
            Some(s) => name_in_part_0(code) == Some(s@),
            None => name_in_part_0(code) is None,
        },
{
    match code {
        0x00 => Some("identity"),
        0x01 => Some("cidv1"),
        0x02 => Some("cidv2"),
        0x03 => Some("cidv3"),
        0x04 => Some("ip4"),
        0x06 => Some("tcp"),
        0x11 => Some("sha1"),
        0x12 => Some("sha2-256"),
        0x13 => Some("sha2-512"),
        0x14 => Some("sha3-512"),
        0x15 => Some("sha3-384"),
        0x16 => Some("sha3-256"),
        0x17 => Some("sha3-224"),
        0x18 => Some("shake-128"),
        0x19 => Some("shake-256"),
        0x1a => Some("keccak-224"),
        0x1b => Some("keccak-256"),
        0x1c => Some("keccak-384"),
        0x1d => Some("keccak-512"),
        0x1e => Some("blake3"),
        0x21 => Some("dccp"),
        0x22 => Some("murmur3-128"),
        0x23 => Some("murmur3-32"),
        0x29 => Some("ip6"),
        0x2a => Some("ip6zone"),
        0x2f => Some("path"),
        0x30 => Some("multicodec"),
        0x31 => Some("multihash"),
        0x32 => Some("multiaddr"),
        0x33 => Some("multibase"),
        0x35 => Some("dns"),
        0x36 => Some("dns4"),
        0x37 => Some("dns6"),
        0x38 => Some("dnsaddr"),
        0x50 => Some("protobuf"),
        0x51 => Some("cbor"),
        0x55 => Some("raw"),
        0x56 => Some("dbl-sha2-256"),
        0x60 => Some("rlp"),
        0x63 => Some("bencode"),
        0x70 => Some("dag-pb"),
        0x71 => Some("dag-cbor"),
        0x72 => Some("libp2p-key"),
        0x78 => Some("git-raw"),
        0x7b => Some("torrent-info"),
        0x7c => Some("torrent-file"),
        0x81 => Some("leofcoin-block"),
        0x82 => Some("leofcoin-tx"),
        _ => None,
    }
}

/// `name_in_part_1`, computed.
fn name_for_part_1(code: u128) -> (r: Option<&'static str>)
    ensures
        match r {
            Some(s) => name_in_part_1(code) == Some(s@),
            None => name_in_part_1(code) is None,
        },
{
    match code {
        0x83 => Some("leofcoin-pr"),
        0x84 => Some("sctp"),
        0x85 => Some("dag-jose"),
        0x86 => Some("dag-cose"),
        0x90 => Some("eth-block"),
        0x91 => Some("eth-block-list"),
        0x92 => Some("eth-tx-trie"),
        0x93 => Some("eth-tx"),
        0x94 => Some("eth-tx-receipt-trie"),
        0x95 => Some("eth-tx-receipt"),
        0x96 => Some("eth-state-trie"),
        0x97 => Some("eth-account-snapshot"),
        0x98 => Some("eth-storage-trie"),
        0xb0 => Some("bitcoin-block"),
        0xb1 => Some("bitcoin-tx"),
        0xb2 => Some("bitcoin-witness-commitment"),
        0xc0 => Some("zcash-block"),
        0xc1 => Some("zcash-tx"),
        0xce => Some("docid"),
        0xd0 => Some("stellar-block"),
        0xd1 => Some("stellar-tx"),
        0xd4 => Some("md4"),
        0xd5 => Some("md5"),
        0xd6 => Some("bmt"),
        0xe0 => Some("decred-block"),
        0xe1 => Some("decred-tx"),
        0xe2 => Some("ipld-ns"),
        0xe3 => Some("ipfs-ns"),
        0xe4 => Some("swarm-ns"),
        0xe5 => Some("ipns-ns"),
        0xe6 => Some("zeronet"),
        0xe7 => Some("secp256k1-pub"),
        0xea => Some("bls12_381-g1-pub"),
        0xeb => Some("bls12_381-g2-pub"),
        0xec => Some("x25519-pub"),
        0xed => Some("ed25519-pub"),
        0xee => Some("bls12_381-g1g2-pub"),
        0xf0 => Some("dash-block"),
        0xf1 => Some("dash-tx"),
        0xfa => Some("swarm-manifest"),
        0xfb => Some("swarm-feed"),
        0x0111 => Some("udp"),
        0x0113 => Some("p2p-webrtc-star"),
        0x0114 => Some("p2p-webrtc-direct"),
        0x0115 => Some("p2p-stardust"),
        0x0122 => Some("p2p-circuit"),
        0x0129 => Some("dag-json"),
        0x012d => Some("udt"),
        _ => None,
    }
}

/// `name_in_part_2`, computed.
fn name_for_part_2(code: u128) -> (r: Option<&'static str>)
    ensures
        match r {
            Some(s) => name_in_part_2(code) == Some(s@),
            None => name_in_part_2(code) is None,
        },
{
    match code {
        0x012e => Some("utp"),
        0x0190 => Some("unix"),
        0x01a5 => Some("p2p"),
        0x01bb => Some("https"),
        0x01bc => Some("onion"),
        0x01bd => Some("onion3"),
        0x01be => Some("garlic64"),
        0x01bf => Some("garlic32"),
        0x01c0 => Some("tls"),
        0x01cc => Some("quic"),
        0x01dd => Some("ws"),
        0x01de => Some("wss"),
        0x01df => Some("p2p-websocket-star"),
        0x01e0 => Some("http"),
        0x0200 => Some("json"),
        0x0201 => Some("messagepack"),
        0x0301 => Some("libp2p-peer-record"),
        0x1012 => Some("sha2-256-trunc254-padded"),
        0x1052 => Some("ripemd-128"),
        0x1053 => Some("ripemd-160"),
        0x1054 => Some("ripemd-256"),
        0x1055 => Some("ripemd-320"),
        0x1100 => Some("x11"),
        0x1200 => Some("p256-pub"),
        0x1201 => Some("p384-pub"),
        0x1202 => Some("p521-pub"),
        0x1203 => Some("ed448-pub"),
        0x1204 => Some("x448-pub"),
        0x1300 => Some("ed25519-priv"),
        0x1d01 => Some("kangarootwelve"),
        0x534d => Some("sm3-256"),
        0xb201 => Some("blake2b-8"),
        0xb202 => Some("blake2b-16"),
        0xb203 => Some("blake2b-24"),
        0xb204 => Some("blake2b-32"),
        0xb205 => Some("blake2b-40"),
        0xb206 => Some("blake2b-48"),
        0xb207 => Some("blake2b-56"),
        0xb208 => Some("blake2b-64"),
        0xb209 => Some("blake2b-72"),
        0xb20a => Some("blake2b-80"),
        0xb20b => Some("blake2b-88"),
        0xb20c => Some("blake2b-96"),
        0xb20d => Some("blake2b-104"),
        0xb20e => Some("blake2b-112"),
        0xb20f => Some("blake2b-120"),
        0xb210 => Some("blake2b-128"),
        0xb211 => Some("blake2b-136"),
        _ => None,
    }
}

/// `name_in_part_3`, computed.
fn name_for_part_3(code: u128) -> (r: Option<&'static str>)
    ensures
        match r {
            Some(s) => name_in_part_3(code) == Some(s@),
            None => name_in_part_3(code) is None,
        },
{
    match code {
        0xb212 => Some("blake2b-144"),
        0xb213 => Some("blake2b-152"),
        0xb214 => Some("blake2b-160"),
        0xb215 => Some("blake2b-168"),
        0xb216 => Some("blake2b-176"),
        0xb217 => Some("blake2b-184"),
        0xb218 => Some("blake2b-192"),
        0xb219 => Some("blake2b-200"),
        0xb21a => Some("blake2b-208"),
        0xb21b => Some("blake2b-216"),
        0xb21c => Some("blake2b-224"),
        0xb21d => Some("blake2b-232"),
        0xb21e => Some("blake2b-240"),
        0xb21f => Some("blake2b-248"),
        0xb220 => Some("blake2b-256"),
        0xb221 => Some("blake2b-264"),
        0xb222 => Some("blake2b-272"),
        0xb223 => Some("blake2b-280"),
        0xb224 => Some("blake2b-288"),
        0xb225 => Some("blake2b-296"),
        0xb226 => Some("blake2b-304"),
        0xb227 => Some("blake2b-312"),
        0xb228 => Some("blake2b-320"),
        0xb229 => Some("blake2b-328"),
        0xb22a => Some("blake2b-336"),
        0xb22b => Some("blake2b-344"),
        0xb22c => Some("blake2b-352"),
        0xb22d => Some("blake2b-360"),
        0xb22e => Some("blake2b-368"),
        0xb22f => Some("blake2b-376"),
        0xb230 => Some("blake2b-384"),
        0xb231 => Some("blake2b-392"),
        0xb232 => Some("blake2b-400"),
        0xb233 => Some("blake2b-408"),
        0xb234 => Some("blake2b-416"),
        0xb235 => Some("blake2b-424"),
        0xb236 => Some("blake2b-432"),
        0xb237 => Some("blake2b-440"),
        0xb238 => Some("blake2b-448"),
        0xb239 => Some("blake2b-456"),
        0xb23a => Some("blake2b-464"),
        0xb23b => Some("blake2b-472"),
        0xb23c => Some("blake2b-480"),
        0xb23d => Some("blake2b-488"),
        0xb23e => Some("blake2b-496"),
        0xb23f => Some("blake2b-504"),
        0xb240 => Some("blake2b-512"),
        0xb241 => Some("blake2s-8"),
        _ => None,
    }
}

/// `name_in_part_4`, computed.
fn name_for_part_4(code: u128) -> (r: Option<&'static str>)
    ensures
        match r {
            Some(s) => name_in_part_4(code) == Some(s@),
            None => name_in_part_4(code) is None,
        },
{
    match code {
        0xb242 => Some("blake2s-16"),
        0xb243 => Some("blake2s-24"),
        0xb244 => Some("blake2s-32"),
        0xb245 => Some("blake2s-40"),
        0xb246 => Some("blake2s-48"),
        0xb247 => Some("blake2s-56"),
        0xb248 => Some("blake2s-64"),
        0xb249 => Some("blake2s-72"),
        0xb24a => Some("blake2s-80"),
        0xb24b => Some("blake2s-88"),
        0xb24c => Some("blake2s-96"),
        0xb24d => Some("blake2s-104"),
        0xb24e => Some("blake2s-112"),
        0xb24f => Some("blake2s-120"),
        0xb250 => Some("blake2s-128"),
        0xb251 => Some("blake2s-136"),
        0xb252 => Some("blake2s-144"),
        0xb253 => Some("blake2s-152"),
        0xb254 => Some("blake2s-160"),
        0xb255 => Some("blake2s-168"),
        0xb256 => Some("blake2s-176"),
        0xb257 => Some("blake2s-184"),
        0xb258 => Some("blake2s-192"),
        0xb259 => Some("blake2s-200"),
        0xb25a => Some("blake2s-208"),
        0xb25b => Some("blake2s-216"),
        0xb25c => Some("blake2s-224"),
        0xb25d => Some("blake2s-232"),
        0xb25e => Some("blake2s-240"),
        0xb25f => Some("blake2s-248"),
        0xb260 => Some("blake2s-256"),
        0xb301 => Some("skein256-8"),
        0xb302 => Some("skein256-16"),
        0xb303 => Some("skein256-24"),
        0xb304 => Some("skein256-32"),
        0xb305 => Some("skein256-40"),
        0xb306 => Some("skein256-48"),
        0xb307 => Some("skein256-56"),
        0xb308 => Some("skein256-64"),
        0xb309 => Some("skein256-72"),
        0xb30a => Some("skein256-80"),
        0xb30b => Some("skein256-88"),
        0xb30c => Some("skein256-96"),
        0xb30d => Some("skein256-104"),
        0xb30e => Some("skein256-112"),
        0xb30f => Some("skein256-120"),
        0xb310 => Some("skein256-128"),
        0xb311 => Some("skein256-136"),
        _ => None,
    }
}

/// `name_in_part_5`, computed.
fn name_for_part_5(code: u128) -> (r: Option<&'static str>)
    ensures
        match r {
            Some(s) => name_in_part_5(code) == Some(s@),
            None => name_in_part_5(code) is None,
        },
{
    match code {
        0xb312 => Some("skein256-144"),
        0xb313 => Some("skein256-152"),
        0xb314 => Some("skein256-160"),
        0xb315 => Some("skein256-168"),
        0xb316 => Some("skein256-176"),
        0xb317 => Some("skein256-184"),
        0xb318 => Some("skein256-192"),
        0xb319 => Some("skein256-200"),
        0xb31a => Some("skein256-208"),
        0xb31b => Some("skein256-216"),
        0xb31c => Some("skein256-224"),
        0xb31d => Some("skein256-232"),
        0xb31e => Some("skein256-240"),
        0xb31f => Some("skein256-248"),
        0xb320 => Some("skein256-256"),
        0xb321 => Some("skein512-8"),
        0xb322 => Some("skein512-16"),
        0xb323 => Some("skein512-24"),
        0xb324 => Some("skein512-32"),
        0xb325 => Some("skein512-40"),
        0xb326 => Some("skein512-48"),
        0xb327 => Some("skein512-56"),
        0xb328 => Some("skein512-64"),
        0xb329 => Some("skein512-72"),
        0xb32a => Some("skein512-80"),
        0xb32b => Some("skein512-88"),
        0xb32c => Some("skein512-96"),
        0xb32d => Some("skein512-104"),
        0xb32e => Some("skein512-112"),
        0xb32f => Some("skein512-120"),
        0xb330 => Some("skein512-128"),
        0xb331 => Some("skein512-136"),
        0xb332 => Some("skein512-144"),
        0xb333 => Some("skein512-152"),
        0xb334 => Some("skein512-160"),
        0xb335 => Some("skein512-168"),
        0xb336 => Some("skein512-176"),
        0xb337 => Some("skein512-184"),
        0xb338 => Some("skein512-192"),
        0xb339 => Some("skein512-200"),
        0xb33a => Some("skein512-208"),
        0xb33b => Some("skein512-216"),
        0xb33c => Some("skein512-224"),
        0xb33d => Some("skein512-232"),
        0xb33e => Some("skein512-240"),
        0xb33f => Some("skein512-248"),
        0xb340 => Some("skein512-256"),
        0xb341 => Some("skein512-264"),
        _ => None,
    }
}

/// `name_in_part_6`, computed.
fn name_for_part_6(code: u128) -> (r: Option<&'static str>)
    ensures
        match r {
            Some(s) => name_in_part_6(code) == Some(s@),
            None => name_in_part_6(code) is None,
        },
{
    match code {
        0xb342 => Some("skein512-272"),
        0xb343 => Some("skein512-280"),
        0xb344 => Some("skein512-288"),
        0xb345 => Some("skein512-296"),
        0xb346 => Some("skein512-304"),
        0xb347 => Some("skein512-312"),
        0xb348 => Some("skein512-320"),
        0xb349 => Some("skein512-328"),
        0xb34a => Some("skein512-336"),
        0xb34b => Some("skein512-344"),
        0xb34c => Some("skein512-352"),
        0xb34d => Some("skein512-360"),
        0xb34e => Some("skein512-368"),
        0xb34f => Some("skein512-376"),
        0xb350 => Some("skein512-384"),
        0xb351 => Some("skein512-392"),
        0xb352 => Some("skein512-400"),
        0xb353 => Some("skein512-408"),
        0xb354 => Some("skein512-416"),
        0xb355 => Some("skein512-424"),
        0xb356 => Some("skein512-432"),
        0xb357 => Some("skein512-440"),
        0xb358 => Some("skein512-448"),
        0xb359 => Some("skein512-456"),
        0xb35a => Some("skein512-464"),
        0xb35b => Some("skein512-472"),
        0xb35c => Some("skein512-480"),
        0xb35d => Some("skein512-488"),
        0xb35e => Some("skein512-496"),
        0xb35f => Some("skein512-504"),
        0xb360 => Some("skein512-512"),
        0xb361 => Some("skein1024-8"),
        0xb362 => Some("skein1024-16"),
        0xb363 => Some("skein1024-24"),
        0xb364 => Some("skein1024-32"),
        0xb365 => Some("skein1024-40"),
        0xb366 => Some("skein1024-48"),
        0xb367 => Some("skein1024-56"),
        0xb368 => Some("skein1024-64"),
        0xb369 => Some("skein1024-72"),
        0xb36a => Some("skein1024-80"),
        0xb36b => Some("skein1024-88"),
        0xb36c => Some("skein1024-96"),
        0xb36d => Some("skein1024-104"),
        0xb36e => Some("skein1024-112"),
        0xb36f => Some("skein1024-120"),
        0xb370 => Some("skein1024-128"),
        0xb371 => Some("skein1024-136"),
        _ => None,
    }
}

/// `name_in_part_7`, computed.
fn name_for_part_7(code: u128) -> (r: Option<&'static str>)
    ensures
        match r {
            Some(s) => name_in_part_7(code) == Some(s@),
            None => name_in_part_7(code) is None,
        },
{
    match code {
        0xb372 => Some("skein1024-144"),
        0xb373 => Some("skein1024-152"),
        0xb374 => Some("skein1024-160"),
        0xb375 => Some("skein1024-168"),
        0xb376 => Some("skein1024-176"),
        0xb377 => Some("skein1024-184"),
        0xb378 => Some("skein1024-192"),
        0xb379 => Some("skein1024-200"),
        0xb37a => Some("skein1024-208"),
        0xb37b => Some("skein1024-216"),
        0xb37c => Some("skein1024-224"),
        0xb37d => Some("skein1024-232"),
        0xb37e => Some("skein1024-240"),
        0xb37f => Some("skein1024-248"),
        0xb380 => Some("skein1024-256"),
        0xb381 => Some("skein1024-264"),
        0xb382 => Some("skein1024-272"),
        0xb383 => Some("skein1024-280"),
        0xb384 => Some("skein1024-288"),
        0xb385 => Some("skein1024-296"),
        0xb386 => Some("skein1024-304"),
        0xb387 => Some("skein1024-312"),
        0xb388 => Some("skein1024-320"),
        0xb389 => Some("skein1024-328"),
        0xb38a => Some("skein1024-336"),
        0xb38b => Some("skein1024-344"),
        0xb38c => Some("skein1024-352"),
        0xb38d => Some("skein1024-360"),
        0xb38e => Some("skein1024-368"),
        0xb38f => Some("skein1024-376"),
        0xb390 => Some("skein1024-384"),
        0xb391 => Some("skein1024-392"),
        0xb392 => Some("skein1024-400"),
        0xb393 => Some("skein1024-408"),
        0xb394 => Some("skein1024-416"),
        0xb395 => Some("skein1024-424"),
        0xb396 => Some("skein1024-432"),
        0xb397 => Some("skein1024-440"),
        0xb398 => Some("skein1024-448"),
        0xb399 => Some("skein1024-456"),
        0xb39a => Some("skein1024-464"),
        0xb39b => Some("skein1024-472"),
        0xb39c => Some("skein1024-480"),
        0xb39d => Some("skein1024-488"),
        0xb39e => Some("skein1024-496"),
        0xb39f => Some("skein1024-504"),
        0xb3a0 => Some("skein1024-512"),
        0xb3a1 => Some("skein1024-520"),
        _ => None,
    }
}

/// `name_in_part_8`, computed.
fn name_for_part_8(code: u128) -> (r: Option<&'static str>)
    ensures
        match r {
            Some(s) => name_in_part_8(code) == Some(s@),
            None => name_in_part_8(code) is None,
        },
{
    match code {
        0xb3a2 => Some("skein1024-528"),
        0xb3a3 => Some("skein1024-536"),
        0xb3a4 => Some("skein1024-544"),
        0xb3a5 => Some("skein1024-552"),
        0xb3a6 => Some("skein1024-560"),
        0xb3a7 => Some("skein1024-568"),
        0xb3a8 => Some("skein1024-576"),
        0xb3a9 => Some("skein1024-584"),
        0xb3aa => Some("skein1024-592"),
        0xb3ab => Some("skein1024-600"),
        0xb3ac => Some("skein1024-608"),
        0xb3ad => Some("skein1024-616"),
        0xb3ae => Some("skein1024-624"),
        0xb3af => Some("skein1024-632"),
        0xb3b0 => Some("skein1024-640"),
        0xb3b1 => Some("skein1024-648"),
        0xb3b2 => Some("skein1024-656"),
        0xb3b3 => Some("skein1024-664"),
        0xb3b4 => Some("skein1024-672"),
        0xb3b5 => Some("skein1024-680"),
        0xb3b6 => Some("skein1024-688"),
        0xb3b7 => Some("skein1024-696"),
        0xb3b8 => Some("skein1024-704"),
        0xb3b9 => Some("skein1024-712"),
        0xb3ba => Some("skein1024-720"),
        0xb3bb => Some("skein1024-728"),
        0xb3bc => Some("skein1024-736"),
        0xb3bd => Some("skein1024-744"),
        0xb3be => Some("skein1024-752"),
        0xb3bf => Some("skein1024-760"),
        0xb3c0 => Some("skein1024-768"),
        0xb3c1 => Some("skein1024-776"),
        0xb3c2 => Some("skein1024-784"),
        0xb3c3 => Some("skein1024-792"),
        0xb3c4 => Some("skein1024-800"),
        0xb3c5 => Some("skein1024-808"),
        0xb3c6 => Some("skein1024-816"),
        0xb3c7 => Some("skein1024-824"),
        0xb3c8 => Some("skein1024-832"),
        0xb3c9 => Some("skein1024-840"),
        0xb3ca => Some("skein1024-848"),
        0xb3cb => Some("skein1024-856"),
        0xb3cc => Some("skein1024-864"),
        0xb3cd => Some("skein1024-872"),
        0xb3ce => Some("skein1024-880"),
        0xb3cf => Some("skein1024-888"),
        0xb3d0 => Some("skein1024-896"),
        0xb3d1 => Some("skein1024-904"),
        _ => None,
    }
}

/// `name_in_part_9`, computed.
fn name_for_part_9(code: u128) -> (r: Option<&'static str>)
    ensures
        match r {
            Some(s) => name_in_part_9(code) == Some(s@),
            None => name_in_part_9(code) is None,
        },
{
    match code {
        0xb3d2 => Some("skein1024-912"),
        0xb3d3 => Some("skein1024-920"),
        0xb3d4 => Some("skein1024-928"),
        0xb3d5 => Some("skein1024-936"),
        0xb3d6 => Some("skein1024-944"),
        0xb3d7 => Some("skein1024-952"),
        0xb3d8 => Some("skein1024-960"),
        0xb3d9 => Some("skein1024-968"),
        0xb3da => Some("skein1024-976"),
        0xb3db => Some("skein1024-984"),
        0xb3dc => Some("skein1024-992"),
        0xb3dd => Some("skein1024-1000"),
        0xb3de => Some("skein1024-1008"),
        0xb3df => Some("skein1024-1016"),
        0xb3e0 => Some("skein1024-1024"),
        0xb401 => Some("poseidon-bls12_381-a2-fc1"),
        0xb402 => Some("poseidon-bls12_381-a2-fc1-sc"),
        0xce11 => Some("zeroxcert-imprint-256"),
        0xf101 => Some("fil-commitment-unsealed"),
        0xf102 => Some("fil-commitment-sealed"),
        0x807124 => Some("holochain-adr-v0"),
        0x817124 => Some("holochain-adr-v1"),
        0x947124 => Some("holochain-key-v0"),
        0x957124 => Some("holochain-key-v1"),
        0xa27124 => Some("holochain-sig-v0"),
        0xa37124 => Some("holochain-sig-v1"),
        _ => None,
    }
}

/// `tag_of`, computed.
fn tag_for(code: u128) -> (r: Option<&'static str>)
    ensures
        match r {
            Some(s) => tag_of(code) == Some(s@),
            None => tag_of(code) is None,
        },
{
    if code == 0x0 || (0x11 <= code && code <= 0x1e) || (0x22 <= code && code <= 0x23) || code == 0x56 || (0xd4 <= code && code <= 0xd6) || code == 0x1012 || (0x1052 <= code && code <= 0x1055) || code == 0x1100 || code == 0x1d01 || code == 0x534d || (0xb201 <= code && code <= 0xb260) || (0xb301 <= code && code <= 0xb3e0) || (0xb401 <= code && code <= 0xb402) {
        Some("multihash")
    } else if (0x1 <= code && code <= 0x3) || code == 0x55 || (0x70 <= code && code <= 0x72) || code == 0x78 || (0x7b <= code && code <= 0x7c) || (0x81 <= code && code <= 0x83) || (0x85 <= code && code <= 0x86) || (0x90 <= code && code <= 0x98) || (0xb0 <= code && code <= 0xb2) || (0xc0 <= code && code <= 0xc1) || (0xd0 <= code && code <= 0xd1) || (0xe0 <= code && code <= 0xe1) || (0xf0 <= code && code <= 0xf1) || (0xfa <= code && code <= 0xfb) || code == 0x129 {
        Some("ipld")
    } else if code == 0x4 || code == 0x6 || code == 0x21 || (0x29 <= code && code <= 0x2a) || (0x35 <= code && code <= 0x38) || code == 0x84 || code == 0x111 || (0x113 <= code && code <= 0x115) || code == 0x122 || (0x12d <= code && code <= 0x12e) || code == 0x190 || code == 0x1a5 || (0x1bb <= code && code <= 0x1c0) || code == 0x1cc || (0x1dd <= code && code <= 0x1e0) {
        Some("multiaddr")
    } else if code == 0x2f || code == 0xce || (0xe2 <= code && code <= 0xe6) {
        Some("namespace")
    } else if (0x30 <= code && code <= 0x33) {
        Some("multiformat")
    } else if (0x50 <= code && code <= 0x51) || code == 0x60 || code == 0x63 || (0x200 <= code && code <= 0x201) {
        Some("serialization")
    } else if code == 0xe7 || (0xea <= code && code <= 0xee) || (0x1200 <= code && code <= 0x1204) || code == 0x1300 {
        Some("key")
    } else if code == 0x301 {
        Some("libp2p")
    } else if code == 0xce11 {
        Some("zeroxcert")
    } else if (0xf101 <= code && code <= 0xf102) {
        Some("filecoin")
    } else if code == 0x807124 || code == 0x817124 || code == 0x947124 || code == 0x957124 || code == 0xa27124 || code == 0xa37124 {
        Some("holochain")
    } else {
        None
    }
}

/// Every number with a category has a name.
pub proof fn lemma_known_has_name(code: u128)
    requires
        is_known(code),
    ensures
        name_of(code) is Some,
{
}

/// Appends the numbers from `lo` to `hi`, both included.
fn push_codes(v: &mut Vec<u128>, lo: u128, hi: u128)
    requires
        lo <= hi,
        ascending(old(v)@),
        old(v)@.len() > 0 ==> old(v)@.last() < lo,
    ensures
        ascending(final(v)@),
        final(v)@.len() == old(v)@.len() + (hi - lo + 1),
        final(v)@.last() == hi,
        forall|c: u128| #[trigger] final(v)@.contains(c) <==> (old(v)@.contains(c) || lo <= c <= hi),
{
    let ghost before = v@;
    let mut c: u128 = lo;
    loop
        invariant_except_break
            lo <= c <= hi,
            ascending(v@),
            before.len() > 0 ==> before.last() < lo,
            v@.len() == before.len() + (c - lo),
            v@.take(before.len() as int) == before,
            v@.len() > before.len() ==> v@.last() == c - 1,
            forall|x: u128| #[trigger] v@.contains(x) <==> (before.contains(x) || lo <= x < c),
        ensures
            ascending(v@),
            v@.len() == before.len() + (hi - lo + 1),
            v@.last() == hi,
            forall|x: u128| #[trigger] v@.contains(x) <==> (before.contains(x) || lo <= x <= hi),
        decreases hi - c,
    {
        let ghost prev = v@;
        v.push(c);
        proof {
            assert forall|x: u128| #[trigger] v@.contains(x) <==> (before.contains(x) || lo <= x <= c) by {
                if v@.contains(x) {
                    let k = choose|k: int| 0 <= k < v@.len() && v@[k] == x;
                    if k < prev.len() {
                        assert(prev.contains(x));
                    }
                }
                if before.contains(x) || lo <= x < c {
                    assert(prev.contains(x));
                    let k = choose|k: int| 0 <= k < prev.len() && prev[k] == x;
                    assert(v@[k] == x);
                }
                if x == c {
                    assert(v@[prev.len() as int] == x);
                }
            }
        }
        if c == hi {
            break ;
        }
        c = c + 1;
    }
}

/// The numbers of the hash functions that the table knows, smallest first.
pub fn multihash_codes() -> (codes: Vec<u128>)
    ensures
        ascending(codes@),
        forall|c: u128| #[trigger] codes@.contains(c) <==> is_multihash(c),
{
    let mut codes: Vec<u128> = Vec::new();
    push_codes(&mut codes, 0x0, 0x0);
    push_codes(&mut codes, 0x11, 0x1e);
    push_codes(&mut codes, 0x22, 0x23);
    push_codes(&mut codes, 0x56, 0x56);
    push_codes(&mut codes, 0xd4, 0xd6);
    push_codes(&mut codes, 0x1012, 0x1012);
    push_codes(&mut codes, 0x1052, 0x1055);
    push_codes(&mut codes, 0x1100, 0x1100);
    push_codes(&mut codes, 0x1d01, 0x1d01);
    push_codes(&mut codes, 0x534d, 0x534d);
    push_codes(&mut codes, 0xb201, 0xb260);
    push_codes(&mut codes, 0xb301, 0xb3e0);
    push_codes(&mut codes, 0xb401, 0xb402);
    codes
}

/// The numbers that name something, smallest first.
pub fn known_codes() -> (codes: Vec<u128>)
    ensures
        codes@.len() == TABLE_LEN,
        ascending(codes@),
        forall|c: u128| #[trigger] codes@.contains(c) <==> is_known(c),
{
    let mut codes: Vec<u128> = Vec::new();
    push_codes(&mut codes, 0x0, 0x4);
    push_codes(&mut codes, 0x6, 0x6);
    push_codes(&mut codes, 0x11, 0x1e);
    push_codes(&mut codes, 0x21, 0x23);
    push_codes(&mut codes, 0x29, 0x2a);
    push_codes(&mut codes, 0x2f, 0x33);
    push_codes(&mut codes, 0x35, 0x38);
    push_codes(&mut codes, 0x50, 0x51);
    push_codes(&mut codes, 0x55, 0x56);
    push_codes(&mut codes, 0x60, 0x60);
    push_codes(&mut codes, 0x63, 0x63);
    push_codes(&mut codes, 0x70, 0x72);
    push_codes(&mut codes, 0x78, 0x78);
    push_codes(&mut codes, 0x7b, 0x7c);
    push_codes(&mut codes, 0x81, 0x86);
    push_codes(&mut codes, 0x90, 0x98);
    push_codes(&mut codes, 0xb0, 0xb2);
    push_codes(&mut codes, 0xc0, 0xc1);
    push_codes(&mut codes, 0xce, 0xce);
    push_codes(&mut codes, 0xd0, 0xd1);
    push_codes(&mut codes, 0xd4, 0xd6);
    push_codes(&mut codes, 0xe0, 0xe7);
    push_codes(&mut codes, 0xea, 0xee);
    push_codes(&mut codes, 0xf0, 0xf1);
    push_codes(&mut codes, 0xfa, 0xfb);
    push_codes(&mut codes, 0x111, 0x111);
    push_codes(&mut codes, 0x113, 0x115);
    push_codes(&mut codes, 0x122, 0x122);
    push_codes(&mut codes, 0x129, 0x129);
    push_codes(&mut codes, 0x12d, 0x12e);
    push_codes(&mut codes, 0x190, 0x190);
    push_codes(&mut codes, 0x1a5, 0x1a5);
    push_codes(&mut codes, 0x1bb, 0x1c0);
    push_codes(&mut codes, 0x1cc, 0x1cc);
    push_codes(&mut codes, 0x1dd, 0x1e0);
    push_codes(&mut codes, 0x200, 0x201);
    push_codes(&mut codes, 0x301, 0x301);
    push_codes(&mut codes, 0x1012, 0x1012);
    push_codes(&mut codes, 0x1052, 0x1055);
    push_codes(&mut codes, 0x1100, 0x1100);
    push_codes(&mut codes, 0x1200, 0x1204);
    push_codes(&mut codes, 0x1300, 0x1300);
    push_codes(&mut codes, 0x1d01, 0x1d01);
    push_codes(&mut codes, 0x534d, 0x534d);
    push_codes(&mut codes, 0xb201, 0xb260);
    push_codes(&mut codes, 0xb301, 0xb3e0);
    push_codes(&mut codes, 0xb401, 0xb402);
    push_codes(&mut codes, 0xce11, 0xce11);
    push_codes(&mut codes, 0xf101, 0xf102);
    push_codes(&mut codes, 0x807124, 0x807124);
    push_codes(&mut codes, 0x817124, 0x817124);
    push_codes(&mut codes, 0x947124, 0x947124);
    push_codes(&mut codes, 0x957124, 0x957124);
    push_codes(&mut codes, 0xa27124, 0xa27124);
    push_codes(&mut codes, 0xa37124, 0xa37124);
    codes
}

/// The table: one row for each number that names something, smallest
/// number first.
pub fn table() -> (rows: Vec<Codepoint>)
    ensures
        rows@.len() == TABLE_LEN,
        ascending(codes_of(rows@)),
        forall|i: int| 0 <= i < rows@.len() ==> (#[trigger] rows@[i]).is_row(),
        forall|c: u128| #[trigger] codes_of(rows@).contains(c) <==> is_known(c),
{
    let codes = known_codes();
    let mut rows: Vec<Codepoint> = Vec::new();
    let mut i: usize = 0;
    while i < codes.len()
        invariant
            i <= codes@.len(),
            rows@.len() == i,
            forall|c: u128| #[trigger] codes@.contains(c) <==> is_known(c),
            codes_of(rows@) == codes@.take(i as int),
            forall|k: int| 0 <= k < rows@.len() ==> (#[trigger] rows@[k]).is_row(),
        decreases codes@.len() - i,
    {
        let c = codes[i];
        assert(codes@.contains(c));
        proof {
            lemma_known_has_name(c);
        }
        let name = name_for(c);
        let tag = tag_for(c);
        match (name, tag) {
            (Some(n), Some(t)) => {
                let ghost prev = rows@;
                rows.push(Codepoint { code: c, name: String::from_str(n), tag: String::from_str(t) });
                assert(codes_of(rows@) =~= codes@.take(i + 1)) by {
                    assert forall|k: int| 0 <= k < i + 1 implies codes_of(rows@)[k] == codes@[k] by {
                        if k < i {
                            assert(codes_of(prev)[k] == codes@.take(i as int)[k]);
                        }
                    }
                }
            },
            _ => {},
        }
        i = i + 1;
    }
    assert(codes@.take(codes@.len() as int) =~= codes@);
    rows
}

} // verus!
