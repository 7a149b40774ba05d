//! The HTTP/1 framers: a client that sends requests and reads responses, and
//! a server that reads requests and sends responses.

use vstd::prelude::*;

pub mod client;
pub mod grammar;
pub mod laws;
pub mod line;
pub mod message;
pub mod scan;
pub mod server;
pub mod write;

pub use client::HttpClient;
pub use message::Request;
pub use message::Response;
pub use message::Uri;
pub use server::HttpServer;

verus! {

/// What is wrong with a header line.
#[derive(Debug, Clone, Copy, PartialEq, Eq)]
pub enum InvalidHeaderError {
    /// The line holds no colon.
    MissingColon,
    /// The name is no header name. The decoders of this library report
    /// such a name once the head is read, as `InvalidResponse`.
    InvalidName,
    /// The value is no header value. The decoders of this library report
    /// such a value once the head is read, as `InvalidResponse`.
    InvalidValue,
}

/// What is wrong with the value of a `Content-Length` header.
#[derive(Debug, Clone, Copy, PartialEq, Eq)]
pub enum InvalidContentLengthError {
    /// The value is not a number that fits.
    InvalidNumber,
    /// The value is not UTF-8.
    InvalidUtf8,
}

/// The part of a message that the `http` crate refused.
#[derive(Debug, Clone, Copy, PartialEq, Eq)]
pub enum MessageError {
    /// A header's name.
    HeaderName,
    /// A header's value.
    HeaderValue,
    /// The method.
    Method,
    /// The request target.
    Uri,
}

/// Why an HTTP message was not written or not read. `B` is the error of the
/// body's codec.
#[allow(inconsistent_fields)]
#[derive(Debug, Clone, Copy, PartialEq, Eq)]
pub enum Error<B> {
    /// No host is specified. The encoders of this library report a request
    /// without any host as `InvalidHost`.
    NoHost,
    /// The request has no `Host` header, and its URI has no host to make one
    /// from, or one that is no header value.
    InvalidHost,
    /// The body could not be encoded.
    Body { source: B },
    /// The version is none of 0.9, 1.0, 1.1, 2.0 and 3.0.
    InvalidVersion,
    /// The status code is not three digits, the first of them not `0`.
    InvalidStatus,
    /// A header line is malformed.
    InvalidHeader { source: InvalidHeaderError },
    /// The `http` crate refused a part of the head that was read, of a
    /// response or of a request.
    InvalidResponse { source: MessageError },
    /// The request is invalid. The decoders of this library report a part
    /// that the `http` crate refused as `InvalidResponse`.
    InvalidRequest { source: MessageError },
    /// The request line lacks one of its three parts.
    InvalidRequestLine,
    /// The `Content-Length` header is malformed.
    InvalidContentLength { source: InvalidContentLengthError },
    /// The body could not be decoded.
    InvalidBody { source: B },
}

/// The error of a body's codec, told apart by the direction in which the
/// body went.
#[derive(Debug, Clone, Copy, PartialEq, Eq)]
pub enum BodyError<E, D> {
    /// The error of the codec that encodes the bodies sent.
    Encode(E),
    /// The error of the codec that decodes the bodies received.
    Decode(D),
}

impl<B> Error<B> {
    /// This error with another error in the place of the body codec's: `f`
    /// says which.
    pub open spec fn with_source<C>(self, f: spec_fn(B) -> C) -> Error<C> {
        match self {
            Error::NoHost => Error::NoHost,
            Error::InvalidHost => Error::InvalidHost,
            Error::Body { source } => Error::Body { source: f(source) },
            Error::InvalidVersion => Error::InvalidVersion,
            Error::InvalidStatus => Error::InvalidStatus,
            Error::InvalidHeader { source } => Error::InvalidHeader { source },
            Error::InvalidResponse { source } => Error::InvalidResponse { source },
            Error::InvalidRequest { source } => Error::InvalidRequest { source },
            Error::InvalidRequestLine => Error::InvalidRequestLine,
            Error::InvalidContentLength { source } => Error::InvalidContentLength { source },
            Error::InvalidBody { source } => Error::InvalidBody { source: f(source) },
        }
    }

    /// This error as a framer's: the body codec's error is marked as that of
    /// the codec that encodes.
    pub open spec fn sent<D>(self) -> Error<BodyError<B, D>> {
        self.with_source(|e: B| BodyError::<B, D>::Encode(e))
    }

    /// This error as a framer's: the body codec's error is marked as that of
    /// the codec that decodes.
    pub open spec fn received<E>(self) -> Error<BodyError<E, B>> {
        self.with_source(|e: B| BodyError::<E, B>::Decode(e))
    }

    /// This error as a framer's, for an error that came up in writing.
    pub fn into_sent<D>(self) -> (e: Error<BodyError<B, D>>)
        ensures
            e == self.sent::<D>(),
    {
        match self {
            Error::NoHost => Error::NoHost,
            Error::InvalidHost => Error::InvalidHost,
            Error::Body { source } => Error::Body { source: BodyError::Encode(source) },
            Error::InvalidVersion => Error::InvalidVersion,
            Error::InvalidStatus => Error::InvalidStatus,
            Error::InvalidHeader { source } => Error::InvalidHeader { source },
            Error::InvalidResponse { source } => Error::InvalidResponse { source },
            Error::InvalidRequest { source } => Error::InvalidRequest { source },
            Error::InvalidRequestLine => Error::InvalidRequestLine,
            Error::InvalidContentLength { source } => Error::InvalidContentLength { source },
            Error::InvalidBody { source } => Error::InvalidBody { source: BodyError::Encode(source) },
        }
    }

    /// This error as a framer's, for an error that came up in reading.
    pub fn into_received<E>(self) -> (e: Error<BodyError<E, B>>)
        ensures
            e == self.received::<E>(),
    {
        match self {
            Error::NoHost => Error::NoHost,
            Error::InvalidHost => Error::InvalidHost,
            Error::Body { source } => Error::Body { source: BodyError::Decode(source) },
            Error::InvalidVersion => Error::InvalidVersion,
            Error::InvalidStatus => Error::InvalidStatus,
            Error::InvalidHeader { source } => Error::InvalidHeader { source },
            Error::InvalidResponse { source } => Error::InvalidResponse { source },
            Error::InvalidRequest { source } => Error::InvalidRequest { source },
            Error::InvalidRequestLine => Error::InvalidRequestLine,
            Error::InvalidContentLength { source } => Error::InvalidContentLength { source },
            Error::InvalidBody { source } => Error::InvalidBody { source: BodyError::Decode(source) },
        }
    }
}

/// The version of HTTP that a message speaks.
#[derive(Debug, Clone, Copy, PartialEq, Eq)]
pub enum Version {
    Http09,
    Http10,
    Http11,
    Http2,
    Http3,
}

/// The three bytes that name a version: `0.9`, `1.0`, `1.1`, `2.0` or `3.0`.
pub open spec fn version_digits(version: Version) -> Seq<u8> {
    match version {
        Version::Http09 => seq![48u8, 46u8, 57u8],
        Version::Http10 => seq![49u8, 46u8, 48u8],
        Version::Http11 => seq![49u8, 46u8, 49u8],
        Version::Http2 => seq![50u8, 46u8, 48u8],
        Version::Http3 => seq![51u8, 46u8, 48u8],
    }
}

/// The version that the bytes name, if they name one.
pub open spec fn version_of(raw: Seq<u8>) -> Option<Version> {
    if raw == version_digits(Version::Http09) {
        Some(Version::Http09)
    } else if raw == version_digits(Version::Http10) {
        Some(Version::Http10)
    } else if raw == version_digits(Version::Http11) {
        Some(Version::Http11)
    } else if raw == version_digits(Version::Http2) {
        Some(Version::Http2)
    } else if raw == version_digits(Version::Http3) {
        Some(Version::Http3)
    } else {
        None
    }
}

/// The five bytes `HTTP/`.
pub open spec fn http_slash() -> Seq<u8> {
    seq![72u8, 84u8, 84u8, 80u8, 47u8]
}

/// A version as it stands in a message: `HTTP/` and the version's digits.
pub open spec fn version_text(version: Version) -> Seq<u8> {
    http_slash() + version_digits(version)
}

/// Reads a version from its three bytes.
pub fn bytes_to_ver<B>(raw: &[u8]) -> (r: Result<Version, Error<B>>)
    ensures
        match version_of(raw@) {
            Some(version) => r == Ok::<Version, Error<B>>(version),
            None => r == Err::<Version, Error<B>>(Error::InvalidVersion),
        },
{
    if raw.len() != 3 || raw[1] != 46 {
        assert(version_of(raw@) is None) by {
            if raw@.len() == 3 {
                assert(version_digits(Version::Http09)[1] == 46);
                assert(version_digits(Version::Http10)[1] == 46);
                assert(version_digits(Version::Http11)[1] == 46);
                assert(version_digits(Version::Http2)[1] == 46);
                assert(version_digits(Version::Http3)[1] == 46);
            }
        }
        return Err(Error::InvalidVersion);
    }
    let major = raw[0];
    let minor = raw[2];
    let version = if major == 48 && minor == 57 {
        Version::Http09
    } else if major == 49 && minor == 48 {
        Version::Http10
    } else if major == 49 && minor == 49 {
        Version::Http11
    } else if major == 50 && minor == 48 {
        Version::Http2
    } else if major == 51 && minor == 48 {
        Version::Http3
    } else {
        assert(version_of(raw@) is None) by {
            assert(version_digits(Version::Http09)[0] == 48 && version_digits(Version::Http09)[2] == 57);
            assert(version_digits(Version::Http10)[0] == 49 && version_digits(Version::Http10)[2] == 48);
            assert(version_digits(Version::Http11)[0] == 49 && version_digits(Version::Http11)[2] == 49);
            assert(version_digits(Version::Http2)[0] == 50 && version_digits(Version::Http2)[2] == 48);
            assert(version_digits(Version::Http3)[0] == 51 && version_digits(Version::Http3)[2] == 48);
        }
        return Err(Error::InvalidVersion);
    };
    assert(raw@ =~= version_digits(version));
    Ok(version)
}

/// A version as it stands in a message.
pub fn version_bytes(ver: Version) -> (text: Vec<u8>)
    ensures
        text@ == version_text(ver),
{
    let text = match ver {
        Version::Http09 => vec![72u8, 84u8, 84u8, 80u8, 47u8, 48u8, 46u8, 57u8],
        Version::Http10 => vec![72u8, 84u8, 84u8, 80u8, 47u8, 49u8, 46u8, 48u8],
        Version::Http11 => vec![72u8, 84u8, 84u8, 80u8, 47u8, 49u8, 46u8, 49u8],
        Version::Http2 => vec![72u8, 84u8, 84u8, 80u8, 47u8, 50u8, 46u8, 48u8],
        Version::Http3 => vec![72u8, 84u8, 84u8, 80u8, 47u8, 51u8, 46u8, 48u8],
    };
    assert(text@ =~= version_text(ver));
    text
}

} // verus!
