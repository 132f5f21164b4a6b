[package]
name = "multiformats"
version = "0.1.0"
edition = "2021"
publish = false

[dependencies]
unsigned-varint = "0.8"
data-encoding = "2"
bs58 = "0.5"
multibase = "0.9"
digest = "0.10"
sha1 = "0.10"
sha2 = "0.10"
sha3 = "0.10"
md4 = "0.10"
md5 = "0.7"
ripemd = "0.1"
blake2b_simd = "1"
blake2s_simd = "1"
blake3 = { version = "1", features = ["pure"] }
