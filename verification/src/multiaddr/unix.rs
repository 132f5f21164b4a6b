//! Unix domain sockets: a path.
//!
//! A path takes every token that is left of an address, slashes and all, so
//! no segment can follow it in text.

use crate::error::{fails_with, Error, ErrorKind};
use crate::multiaddr::payload::Payload;
use crate::multiaddr::protocol::{Form, Protocol};
use crate::multiaddr::text_form::{
    bad_addr, into_text, segment_text, skip_tokens, start_text, text_outcome, text_parse,
};
use crate::multiaddr::wire::{
    bytes_outcome, push_prefixed, read_prefixed, segment_wire, tag, truncated, wire_parse,
};
use crate::text::{append, push_slashed, string_bytes, string_from_utf8, views};
use vstd::prelude::*;
use vstd::slice::*;
use vstd::std_specs::convert::{FromSpec, FromSpecImpl};
use vstd::string::*;
use vstd::utf8::*;

verus! {

/// The path of a Unix domain socket.
#[derive(Clone, Debug, PartialEq, Eq)]
pub struct Unix {
    path: String,
}

impl View for Unix {
    type V = Payload;

    closed spec fn view(&self) -> Payload {
        Payload::Text(self.path@)
    }
}

impl From<String> for Unix {
    fn from(path: String) -> (v: Unix) {
        Unix { path }
    }
}

impl FromSpecImpl<String> for Unix {
    open spec fn obeys_from_spec() -> bool {
        true
    }

    closed spec fn from_spec(path: String) -> Unix {
        Unix { path }
    }
}

impl Unix {
    /// What `Unix::from` makes of a string is the segment for that path.
    pub proof fn lemma_from(path: String)
        ensures
            <Unix as FromSpec<String>>::from_spec(path)@ == Payload::Text(path@),
    {
    }

    /// The segment for the given path.
    pub fn from_path(path: String) -> (v: Unix)
        ensures
            v@ == Payload::Text(path@),
    {
        Unix { path }
    }

    /// The path.
    pub fn to_path(&self) -> (path: String)
        ensures
            self@ == Payload::Text(path@),
    {
        self.path.clone()
    }

    /// The view is the path.
    pub proof fn lemma_view(&self)
        ensures
            self@ is Text,
    {
    }

    /// Takes all of `parts` for the path, a slash before each, and hands
    /// back none. `BadAddr` where there is no token or the path is not
    /// UTF-8.
    pub fn from_text<'a, 'b>(parts: &'a [&'b [u8]]) -> (r: Result<(Unix, &'a [&'b [u8]]), Error>)
        ensures
            match text_parse(Form::Path, views(parts@)) {
                Some((p, n)) => r matches Ok((v, rest)) && v@ == p && rest@ == parts@.skip(
                    n as int,
                ),
                None => fails_with(r, ErrorKind::BadAddr),
            },
    {
        if parts.len() == 0 {
            return Err(bad_addr("unix", "no path"));
        }
        let mut bytes: Vec<u8> = Vec::new();
        push_slashed(&mut bytes, parts);
        match string_from_utf8(bytes) {
            Some(path) => Ok((Unix { path }, skip_tokens(parts, parts.len()))),
            None => Err(bad_addr("unix", "not UTF-8")),
        }
    }

    /// The segment in text: `/unix` and the path.
    pub fn to_text(&self) -> (r: Result<String, Error>)
        ensures
            text_outcome(r, segment_text(Protocol::Unix, self@)),
    {
        let mut out = start_text(Protocol::Unix);
        append(&mut out, string_bytes(&self.path));
        into_text(out, "unix")
    }

    /// Reads the path from the front of `data` and hands back the rest.
    /// `DecodeError` where `data` does not hold a length and so many bytes
    /// behind it, or the bytes are not UTF-8.
    pub fn decode(data: &[u8]) -> (r: Result<(Unix, &[u8]), Error>)
        ensures
            match wire_parse(Form::Path, data@) {
                Some((p, n)) => r matches Ok((v, rest)) && v@ == p && rest@ == data@.skip(n as int),
                None => fails_with(r, ErrorKind::DecodeError),
            },
    {
        match read_prefixed(data) {
            Some((head, rest)) => match string_from_utf8(slice_to_vec(head)) {
                Some(path) => Ok((Unix { path }, rest)),
                None => Err(Error::new(ErrorKind::DecodeError, "unix", "not UTF-8")),
            },
            None => Err(truncated("unix")),
        }
    }

    /// The segment on the wire: the number of the protocol, the length of
    /// the path, the path.
    pub fn encode(&self) -> (r: Result<Vec<u8>, Error>)
        ensures
            bytes_outcome(r, segment_wire(Protocol::Unix, self@)),
    {
        let mut out = tag(Protocol::Unix);
        push_prefixed(&mut out, string_bytes(&self.path));
        Ok(out)
    }
}

} // verus!
