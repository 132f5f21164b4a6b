//! Self-describing network addresses: a text form, a binary wire form, and
//! the structured chain of protocol segments between them.

pub mod digest;
pub mod encoding;
pub mod error;
pub mod multiaddr;
pub mod multibase;
pub mod multicodec;
pub mod multihash;
pub mod text;
pub mod varint;

pub use error::{Error, ErrorKind};
