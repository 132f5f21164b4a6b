//! The error type shared by every operation of the crate.

use vstd::prelude::*;
use vstd::string::*;

verus! {

/// What went wrong. Each variant carries the place that raised it and a
/// message for the reader; contracts speak of the variant alone, through
/// `Error::kind`.
#[derive(Clone, Debug, PartialEq, Eq)]
pub enum Error {
    /// A state that should be impossible.
    Fatal(String, String),
    /// A failed conversion.
    FailConvert(String, String),
    /// Input or output failed.
    IOError(String, String),
    /// The system refused.
    SysFail(String, String),
    /// A peer process failed.
    IPCFail(String, String),
    /// An index failed.
    IndexFail(String, String),
    /// Malformed CBOR.
    FailCbor(String, String),
    /// A thread failed.
    ThreadFail(String, String),
    /// An unusable file path.
    FilePath(String, String),
    /// A structural precondition does not hold.
    Invalid(String, String),
    /// Unparsable input.
    ParseError(String, String),
    /// Binary input is truncated or malformed.
    DecodeError(String, String),
    /// A value cannot be encoded.
    EncodeError(String, String),
    /// Name resolution failed.
    DnsError(String, String),
    /// Signing failed.
    SigningError(String, String),
    /// An argument is not what the operation takes.
    BadInput(String, String),
    /// A code point out of place.
    BadCodec(String, String),
    /// Text that is not an address.
    BadAddr(String, String),
    /// Hashing failed.
    HashFail(String, String),
    /// A feature this crate does not provide.
    NotImplemented(String, String),
}

/// The variants of `Error`, without what they carry.
#[derive(Clone, Copy, Debug, PartialEq, Eq, Structural)]
pub enum ErrorKind {
    Fatal,
    FailConvert,
    IOError,
    SysFail,
    IPCFail,
    IndexFail,
    FailCbor,
    ThreadFail,
    FilePath,
    Invalid,
    ParseError,
    DecodeError,
    EncodeError,
    DnsError,
    SigningError,
    BadInput,
    BadCodec,
    BadAddr,
    HashFail,
    NotImplemented,
}

impl Error {
    /// The variant of the error.
    pub open spec fn spec_kind(&self) -> ErrorKind {
        match self {
            Error::Fatal(_, _) => ErrorKind::Fatal,
            Error::FailConvert(_, _) => ErrorKind::FailConvert,
            Error::IOError(_, _) => ErrorKind::IOError,
            Error::SysFail(_, _) => ErrorKind::SysFail,
            Error::IPCFail(_, _) => ErrorKind::IPCFail,
            Error::IndexFail(_, _) => ErrorKind::IndexFail,
            Error::FailCbor(_, _) => ErrorKind::FailCbor,
            Error::ThreadFail(_, _) => ErrorKind::ThreadFail,
            Error::FilePath(_, _) => ErrorKind::FilePath,
            Error::Invalid(_, _) => ErrorKind::Invalid,
            Error::ParseError(_, _) => ErrorKind::ParseError,
            Error::DecodeError(_, _) => ErrorKind::DecodeError,
            Error::EncodeError(_, _) => ErrorKind::EncodeError,
            Error::DnsError(_, _) => ErrorKind::DnsError,
            Error::SigningError(_, _) => ErrorKind::SigningError,
            Error::BadInput(_, _) => ErrorKind::BadInput,
            Error::BadCodec(_, _) => ErrorKind::BadCodec,
            Error::BadAddr(_, _) => ErrorKind::BadAddr,
            Error::HashFail(_, _) => ErrorKind::HashFail,
            Error::NotImplemented(_, _) => ErrorKind::NotImplemented,
        }
    }

    /// The place that raised the error.
    pub open spec fn spec_place(&self) -> Seq<char> {
        match self {
            Error::Fatal(p, _) => p@,
            Error::FailConvert(p, _) => p@,
            Error::IOError(p, _) => p@,
            Error::SysFail(p, _) => p@,
            Error::IPCFail(p, _) => p@,
            Error::IndexFail(p, _) => p@,
            Error::FailCbor(p, _) => p@,
            Error::ThreadFail(p, _) => p@,
            Error::FilePath(p, _) => p@,
            Error::Invalid(p, _) => p@,
            Error::ParseError(p, _) => p@,
            Error::DecodeError(p, _) => p@,
            Error::EncodeError(p, _) => p@,
            Error::DnsError(p, _) => p@,
            Error::SigningError(p, _) => p@,
            Error::BadInput(p, _) => p@,
            Error::BadCodec(p, _) => p@,
            Error::BadAddr(p, _) => p@,
            Error::HashFail(p, _) => p@,
            Error::NotImplemented(p, _) => p@,
        }
    }

    /// The message of the error.
    pub open spec fn spec_message(&self) -> Seq<char> {
        match self {
            Error::Fatal(_, m) => m@,
            Error::FailConvert(_, m) => m@,
            Error::IOError(_, m) => m@,
            Error::SysFail(_, m) => m@,
            Error::IPCFail(_, m) => m@,
            Error::IndexFail(_, m) => m@,
            Error::FailCbor(_, m) => m@,
            Error::ThreadFail(_, m) => m@,
            Error::FilePath(_, m) => m@,
            Error::Invalid(_, m) => m@,
            Error::ParseError(_, m) => m@,
            Error::DecodeError(_, m) => m@,
            Error::EncodeError(_, m) => m@,
            Error::DnsError(_, m) => m@,
            Error::SigningError(_, m) => m@,
            Error::BadInput(_, m) => m@,
            Error::BadCodec(_, m) => m@,
            Error::BadAddr(_, m) => m@,
            Error::HashFail(_, m) => m@,
            Error::NotImplemented(_, m) => m@,
        }
    }

    /// An error of the given variant.
    pub fn new(kind: ErrorKind, place: &str, message: &str) -> (e: Error)
        ensures
            e.spec_kind() == kind,
            e.spec_place() == place@,
            e.spec_message() == message@,
    {
        let p = String::from_str(place);
        let m = String::from_str(message);
        match kind {
            ErrorKind::Fatal => Error::Fatal(p, m),
            ErrorKind::FailConvert => Error::FailConvert(p, m),
            ErrorKind::IOError => Error::IOError(p, m),
            ErrorKind::SysFail => Error::SysFail(p, m),
            ErrorKind::IPCFail => Error::IPCFail(p, m),
            ErrorKind::IndexFail => Error::IndexFail(p, m),
            ErrorKind::FailCbor => Error::FailCbor(p, m),
            ErrorKind::ThreadFail => Error::ThreadFail(p, m),
            ErrorKind::FilePath => Error::FilePath(p, m),
            ErrorKind::Invalid => Error::Invalid(p, m),
            ErrorKind::ParseError => Error::ParseError(p, m),
            ErrorKind::DecodeError => Error::DecodeError(p, m),
            ErrorKind::EncodeError => Error::EncodeError(p, m),
            ErrorKind::DnsError => Error::DnsError(p, m),
            ErrorKind::SigningError => Error::SigningError(p, m),
            ErrorKind::BadInput => Error::BadInput(p, m),
            ErrorKind::BadCodec => Error::BadCodec(p, m),
            ErrorKind::BadAddr => Error::BadAddr(p, m),
            ErrorKind::HashFail => Error::HashFail(p, m),
            ErrorKind::NotImplemented => Error::NotImplemented(p, m),
        }
    }

    /// The variant of the error.
    #[verifier::when_used_as_spec(spec_kind)]
    pub fn kind(&self) -> (k: ErrorKind)
        ensures
            k == self.spec_kind(),
    {
        match self {
            Error::Fatal(_, _) => ErrorKind::Fatal,
            Error::FailConvert(_, _) => ErrorKind::FailConvert,
            Error::IOError(_, _) => ErrorKind::IOError,
            Error::SysFail(_, _) => ErrorKind::SysFail,
            Error::IPCFail(_, _) => ErrorKind::IPCFail,
            Error::IndexFail(_, _) => ErrorKind::IndexFail,
            Error::FailCbor(_, _) => ErrorKind::FailCbor,
            Error::ThreadFail(_, _) => ErrorKind::ThreadFail,
            Error::FilePath(_, _) => ErrorKind::FilePath,
            Error::Invalid(_, _) => ErrorKind::Invalid,
            Error::ParseError(_, _) => ErrorKind::ParseError,
            Error::DecodeError(_, _) => ErrorKind::DecodeError,
            Error::EncodeError(_, _) => ErrorKind::EncodeError,
            Error::DnsError(_, _) => ErrorKind::DnsError,
            Error::SigningError(_, _) => ErrorKind::SigningError,
            Error::BadInput(_, _) => ErrorKind::BadInput,
            Error::BadCodec(_, _) => ErrorKind::BadCodec,
            Error::BadAddr(_, _) => ErrorKind::BadAddr,
            Error::HashFail(_, _) => ErrorKind::HashFail,
            Error::NotImplemented(_, _) => ErrorKind::NotImplemented,
        }
    }

    /// The error as a reader sees it: the place, the variant's name and the
    /// message.
    pub fn to_string(&self) -> (s: String)
        ensures
            s@ == self.spec_place() + self.spec_kind().spec_label() + self.spec_message(),
    {
        let label = self.kind().label();
        match self {
            Error::Fatal(p, m) => p.clone().concat(label).concat(m.as_str()),
            Error::FailConvert(p, m) => p.clone().concat(label).concat(m.as_str()),
            Error::IOError(p, m) => p.clone().concat(label).concat(m.as_str()),
            Error::SysFail(p, m) => p.clone().concat(label).concat(m.as_str()),
            Error::IPCFail(p, m) => p.clone().concat(label).concat(m.as_str()),
            Error::IndexFail(p, m) => p.clone().concat(label).concat(m.as_str()),
            Error::FailCbor(p, m) => p.clone().concat(label).concat(m.as_str()),
            Error::ThreadFail(p, m) => p.clone().concat(label).concat(m.as_str()),
            Error::FilePath(p, m) => p.clone().concat(label).concat(m.as_str()),
            Error::Invalid(p, m) => p.clone().concat(label).concat(m.as_str()),
            Error::ParseError(p, m) => p.clone().concat(label).concat(m.as_str()),
            Error::DecodeError(p, m) => p.clone().concat(label).concat(m.as_str()),
            Error::EncodeError(p, m) => p.clone().concat(label).concat(m.as_str()),
            Error::DnsError(p, m) => p.clone().concat(label).concat(m.as_str()),
            Error::SigningError(p, m) => p.clone().concat(label).concat(m.as_str()),
            Error::BadInput(p, m) => p.clone().concat(label).concat(m.as_str()),
            Error::BadCodec(p, m) => p.clone().concat(label).concat(m.as_str()),
            Error::BadAddr(p, m) => p.clone().concat(label).concat(m.as_str()),
            Error::HashFail(p, m) => p.clone().concat(label).concat(m.as_str()),
            Error::NotImplemented(p, m) => p.clone().concat(label).concat(m.as_str()),
        }
    }
}

impl ErrorKind {
    /// The variant's name as `Error::to_string` prints it, between the place
    /// and the message.
    pub open spec fn spec_label(self) -> Seq<char> {
        match self {
            ErrorKind::Fatal => " Fatal: "@,
            ErrorKind::FailConvert => " FailConvert: "@,
            ErrorKind::IOError => " IOError: "@,
            ErrorKind::SysFail => " SysFail: "@,
            ErrorKind::IPCFail => " IPCFail: "@,
            ErrorKind::IndexFail => " IndexFail: "@,
            ErrorKind::FailCbor => " FailCbor: "@,
            ErrorKind::ThreadFail => " ThreadFail: "@,
            ErrorKind::FilePath => " FilePath: "@,
            ErrorKind::Invalid => " Invalid: "@,
            ErrorKind::ParseError => " ParseError: "@,
            ErrorKind::DecodeError => " DecodeError: "@,
            ErrorKind::EncodeError => " EncodeError: "@,
            ErrorKind::DnsError => " DnsError: "@,
            ErrorKind::SigningError => " SigningError: "@,
            ErrorKind::BadInput => " BadInput: "@,
            ErrorKind::BadCodec => " BadCodec: "@,
            ErrorKind::BadAddr => " BadAddr: "@,
            ErrorKind::HashFail => " HashFail: "@,
            ErrorKind::NotImplemented => " NotImplemented: "@,
        }
    }

    /// The variant's name as `Error::to_string` prints it.
    pub fn label(self) -> (s: &'static str)
        ensures
            s@ == self.spec_label(),
    {
        match self {
            ErrorKind::Fatal => " Fatal: ",
            ErrorKind::FailConvert => " FailConvert: ",
            ErrorKind::IOError => " IOError: ",
            ErrorKind::SysFail => " SysFail: ",
            ErrorKind::IPCFail => " IPCFail: ",
            ErrorKind::IndexFail => " IndexFail: ",
            ErrorKind::FailCbor => " FailCbor: ",
            ErrorKind::ThreadFail => " ThreadFail: ",
            ErrorKind::FilePath => " FilePath: ",
            ErrorKind::Invalid => " Invalid: ",
            ErrorKind::ParseError => " ParseError: ",
            ErrorKind::DecodeError => " DecodeError: ",
            ErrorKind::EncodeError => " EncodeError: ",
            ErrorKind::DnsError => " DnsError: ",
            ErrorKind::SigningError => " SigningError: ",
            ErrorKind::BadInput => " BadInput: ",
            ErrorKind::BadCodec => " BadCodec: ",
            ErrorKind::BadAddr => " BadAddr: ",
            ErrorKind::HashFail => " HashFail: ",
            ErrorKind::NotImplemented => " NotImplemented: ",
        }
    }
}

/// A failure of the kind `kind` is what `r` holds.
pub open spec fn fails_with<T>(r: Result<T, Error>, kind: ErrorKind) -> bool {
    r matches Err(e) && e.spec_kind() == kind
}

} // verus!
