//! The parts of an HTTP message that the `http` crate checks or parses.
//!
//! The library calls the `http` crate for them. Each function here makes one
//! such call and states what the crate's source shows of the result; Verus
//! takes these contracts on trust. The rules for a status code, a method, a
//! header name and a header value are short and stated in full; the parsing
//! of a URI is not, so its results only get names.

use crate::http::message::Uri;
use vstd::prelude::*;

verus! {

/// The error of `http::StatusCode::from_bytes`.
#[verifier::external_type_specification]
#[verifier::external_body]
pub struct ExInvalidStatusCode(::http::status::InvalidStatusCode);

/// The error of `http::header::HeaderName::from_bytes`.
#[verifier::external_type_specification]
#[verifier::external_body]
pub struct ExInvalidHeaderName(::http::header::InvalidHeaderName);

/// The error of `http::header::HeaderValue::from_bytes`.
#[verifier::external_type_specification]
#[verifier::external_body]
pub struct ExInvalidHeaderValue(::http::header::InvalidHeaderValue);

/// The error of `http::Method::from_bytes`.
#[verifier::external_type_specification]
#[verifier::external_body]
pub struct ExInvalidMethod(::http::method::InvalidMethod);

/// The error of parsing an `http::Uri`.
#[verifier::external_type_specification]
#[verifier::external_body]
pub struct ExInvalidUri(::http::uri::InvalidUri);

/// Whether the byte is an ASCII digit.
pub open spec fn is_digit(b: u8) -> bool {
    48 <= b <= 57
}

/// Whether the byte may stand in a token: a letter, a digit, or one of
/// ``! # $ % & ' * + - . ^ _ ` | ~``.
pub open spec fn is_token_byte(b: u8) -> bool {
    ||| 48 <= b <= 57
    ||| 65 <= b <= 90
    ||| 97 <= b <= 122
    ||| b == 33
    ||| 35 <= b <= 39
    ||| b == 42
    ||| b == 43
    ||| b == 45
    ||| b == 46
    ||| 94 <= b <= 96
    ||| b == 124
    ||| b == 126
}

/// The byte, or its lower-case form where it is an upper-case ASCII letter.
pub open spec fn lower(b: u8) -> u8 {
    if 65 <= b <= 90 {
        (b + 32) as u8
    } else {
        b
    }
}

/// The bytes, each in its lower-case form.
pub open spec fn lowered(s: Seq<u8>) -> Seq<u8> {
    Seq::new(s.len(), |i: int| lower(s[i]))
}

/// The status code that three bytes spell: three ASCII digits, the first of
/// them not `0`.
pub open spec fn status_of(s: Seq<u8>) -> Option<u16> {
    if s.len() == 3 && 49 <= s[0] <= 57 && is_digit(s[1]) && is_digit(s[2]) {
        Some(((s[0] - 48) * 100 + (s[1] - 48) * 10 + (s[2] - 48)) as u16)
    } else {
        None
    }
}

/// Whether the bytes are a method: a token of at least one byte.
pub open spec fn is_method(s: Seq<u8>) -> bool {
    &&& s.len() > 0
    &&& forall|i: int| 0 <= i < s.len() ==> is_token_byte(#[trigger] s[i])
}

/// The longest header name that the `http` crate accepts.
pub open spec fn max_header_name_len() -> int {
    65535
}

/// Whether the bytes are a header name: a token of 1 to 65535 bytes.
pub open spec fn is_header_name(s: Seq<u8>) -> bool {
    &&& 1 <= s.len() <= max_header_name_len()
    &&& forall|i: int| 0 <= i < s.len() ==> is_token_byte(#[trigger] s[i])
}

/// Whether the byte may stand in a header value: a tab, or any byte from the
/// space on but the delete character.
pub open spec fn is_value_byte(b: u8) -> bool {
    b >= 32 && b != 127 || b == 9
}

/// Whether the bytes are a header value.
pub open spec fn is_header_value(s: Seq<u8>) -> bool {
    forall|i: int| 0 <= i < s.len() ==> is_value_byte(#[trigger] s[i])
}

/// Whether the `http` crate accepts the bytes as a URI.
pub uninterp spec fn uri_valid(text: Seq<u8>) -> bool;

/// The path and query that the `http` crate reads in a URI, where it reads
/// one.
pub uninterp spec fn uri_path_and_query(text: Seq<u8>) -> Option<Seq<u8>>;

/// The host that the `http` crate reads in a URI, where it reads one.
pub uninterp spec fn uri_host(text: Seq<u8>) -> Option<Seq<u8>>;

/// The reason phrase that the `http` crate has for a status code, where it
/// has one.
pub uninterp spec fn reason_phrase(status: u16) -> Option<Seq<u8>>;

/// `http::StatusCode::from_bytes`, the code taken out as a number: three
/// ASCII digits, the first not `0`, give their value; all else is refused.
#[verifier::external_body]
pub(crate) fn parse_status(src: &[u8]) -> (r: Result<u16, ::http::status::InvalidStatusCode>)
    ensures
        r is Ok <==> status_of(src@) is Some,
        r is Ok ==> status_of(src@) == Some(r->Ok_0),
{
    match ::http::StatusCode::from_bytes(src) {
        Ok(status) => Ok(status.as_u16()),
        Err(e) => Err(e),
    }
}

/// `http::header::HeaderName::from_bytes`, the name taken out as bytes: a
/// token of 1 to 65535 bytes gives its lower-case form; all else is refused.
#[verifier::external_body]
pub(crate) fn parse_header_name(src: &[u8]) -> (r: Result<
    Vec<u8>,
    ::http::header::InvalidHeaderName,
>)
    ensures
        r is Ok <==> is_header_name(src@),
        r is Ok ==> r->Ok_0@ == lowered(src@),
{
    match ::http::header::HeaderName::from_bytes(src) {
        Ok(name) => Ok(name.as_str().as_bytes().to_vec()),
        Err(e) => Err(e),
    }
}

/// `http::header::HeaderValue::from_bytes`, the value dropped: bytes that may
/// all stand in a header value are accepted; all else is refused.
#[verifier::external_body]
pub(crate) fn check_header_value(src: &[u8]) -> (r: Result<
    (),
    ::http::header::InvalidHeaderValue,
>)
    ensures
        r is Ok <==> is_header_value(src@),
{
    match ::http::header::HeaderValue::from_bytes(src) {
        Ok(_) => Ok(()),
        Err(e) => Err(e),
    }
}

/// `http::Method::from_bytes`, the method dropped: a token of at least one
/// byte is accepted; all else is refused.
#[verifier::external_body]
pub(crate) fn check_method(src: &[u8]) -> (r: Result<(), ::http::method::InvalidMethod>)
    ensures
        r is Ok <==> is_method(src@),
{
    match ::http::Method::from_bytes(src) {
        Ok(_) => Ok(()),
        Err(e) => Err(e),
    }
}

/// Parsing an `http::Uri` from bytes, with `TryFrom`, and reading its path
/// and query and its host (`Uri::path_and_query`, `Uri::host`): the three go
/// by their names, and the text is kept as it was given.
#[verifier::external_body]
pub(crate) fn parse_uri(src: &[u8]) -> (r: Result<Uri, ::http::uri::InvalidUri>)
    ensures
        r is Ok <==> uri_valid(src@),
        r is Ok ==> r->Ok_0@.text == src@,
        r is Ok ==> r->Ok_0@.path_and_query == uri_path_and_query(src@),
        r is Ok ==> r->Ok_0@.host == uri_host(src@),
{
    let uri = ::http::Uri::try_from(src)?;
    let path_and_query = match uri.path_and_query() {
        Some(path) => Some(path.as_str().as_bytes().to_vec()),
        None => None,
    };
    let host = match uri.host() {
        Some(host) => Some(host.as_bytes().to_vec()),
        None => None,
    };
    Ok(Uri { text: src.to_vec(), path_and_query, host })
}

/// `http::StatusCode::canonical_reason`, for a code given as a number: the
/// phrase as bytes, or nothing where the crate has none for the code or the
/// code is no status code.
#[verifier::external_body]
pub(crate) fn canonical_reason(status: u16) -> (r: Option<Vec<u8>>)
    ensures
        r is Some <==> reason_phrase(status) is Some,
        r is Some ==> reason_phrase(status) == Some(r->Some_0@),
{
    match ::http::StatusCode::from_u16(status) {
        Ok(code) => match code.canonical_reason() {
            Some(phrase) => Some(phrase.as_bytes().to_vec()),
            None => None,
        },
        Err(_) => None,
    }
}

} // verus!
