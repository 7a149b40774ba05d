//! Writing the lines of a message's head.

use bytes::BytesMut;
use crate::buffer::contents;
use crate::http::grammar::canonical_reason;
use crate::http::grammar::reason_phrase;
use crate::http::message::fields_of;
use crate::http::message::Fields;
use crate::http::message::Headers;
use crate::http::message::Request;
use crate::http::message::RequestHead;
use crate::http::message::Response;
use crate::http::message::ResponseHead;
use crate::http::scan::crlf;
use crate::http::version_bytes;
use crate::http::version_text;
use vstd::prelude::*;

verus! {

/// One space.
pub open spec fn space() -> Seq<u8> {
    seq![32u8]
}

/// A colon and a space: what stands between a header's name and its value.
pub open spec fn colon_space() -> Seq<u8> {
    seq![58u8, 32u8]
}

/// The target that a request line names: the URI's path and query, or `/`
/// where it has none.
pub open spec fn request_target(head: RequestHead) -> Seq<u8> {
    match head.uri.path_and_query {
        Some(target) => target,
        None => seq![47u8],
    }
}

/// A request line: method, target and version, a space between them, and
/// CRLF.
pub open spec fn request_line(head: RequestHead) -> Seq<u8> {
    head.method + space() + request_target(head) + space() + version_text(head.version) + crlf()
}

/// A header line: the name, a colon and a space, the value, and CRLF.
pub open spec fn header_text(name: Seq<u8>, value: Seq<u8>) -> Seq<u8> {
    name + colon_space() + value + crlf()
}

/// The header lines of the given fields, in their order.
pub open spec fn headers_text(fields: Fields) -> Seq<u8>
    decreases fields.len(),
{
    if fields.len() == 0 {
        Seq::empty()
    } else {
        headers_text(fields.drop_last()) + header_text(fields.last().0, fields.last().1)
    }
}

/// Whether the number is a status code: 100 to 999.
pub open spec fn is_status(status: u16) -> bool {
    100 <= status <= 999
}

/// The three digits of a status code.
pub open spec fn status_digits(status: u16) -> Seq<u8> {
    seq![
        (48 + status / 100) as u8,
        (48 + (status / 10) % 10) as u8,
        (48 + status % 10) as u8,
    ]
}

/// The reason phrase that follows a status code; nothing where there is none
/// for the code.
pub open spec fn reason_text(status: u16) -> Seq<u8> {
    match reason_phrase(status) {
        Some(phrase) => phrase,
        None => Seq::empty(),
    }
}

/// A status line: the version, a space, the three digits of the status code,
/// the reason phrase directly behind them, and CRLF.
pub open spec fn response_line(head: ResponseHead) -> Seq<u8> {
    version_text(head.version) + space() + status_digits(head.status) + reason_text(head.status)
        + crlf()
}

/// Writes the request line of `req`.
pub fn write_request_line<T>(req: &Request<T>, data: &mut BytesMut)
    ensures
        contents(final(data)) == contents(old(data)) + request_line(req.head()),
{
    let sp: [u8; 1] = [32];
    let eol: [u8; 2] = [13, 10];
    let root: [u8; 1] = [47];
    assert(sp@ =~= space());
    assert(eol@ =~= crlf());
    assert(root@ =~= seq![47u8]);
    data.extend_from_slice(req.method.as_slice());
    data.extend_from_slice(sp.as_slice());
    match &req.uri.path_and_query {
        Some(target) => {
            data.extend_from_slice(target.as_slice());
        },
        None => {
            data.extend_from_slice(root.as_slice());
        },
    }
    data.extend_from_slice(sp.as_slice());
    let version = version_bytes(req.version);
    data.extend_from_slice(version.as_slice());
    data.extend_from_slice(eol.as_slice());
    assert(contents(data) =~= contents(old(data)) + request_line(req.head()));
}

/// Writes the status line of `res`, whose status is a status code.
pub fn write_response_line<T>(res: &Response<T>, data: &mut BytesMut)
    requires
        is_status(res.status),
    ensures
        contents(final(data)) == contents(old(data)) + response_line(res.head()),
{
    let sp: [u8; 1] = [32];
    let eol: [u8; 2] = [13, 10];
    assert(sp@ =~= space());
    assert(eol@ =~= crlf());
    let status: u16 = res.status;
    let digits: [u8; 3] = [
        (48 + status / 100) as u8,
        (48 + (status / 10) % 10) as u8,
        (48 + status % 10) as u8,
    ];
    assert(digits@ =~= status_digits(status));
    let version = version_bytes(res.version);
    data.extend_from_slice(version.as_slice());
    data.extend_from_slice(sp.as_slice());
    data.extend_from_slice(digits.as_slice());
    match canonical_reason(status) {
        Some(phrase) => {
            data.extend_from_slice(phrase.as_slice());
        },
        None => {},
    }
    data.extend_from_slice(eol.as_slice());
    assert(contents(data) =~= contents(old(data)) + response_line(res.head()));
}

/// Writes one header line.
pub fn write_header(name: &[u8], value: &[u8], data: &mut BytesMut)
    ensures
        contents(final(data)) == contents(old(data)) + header_text(name@, value@),
{
    let sep: [u8; 2] = [58, 32];
    let eol: [u8; 2] = [13, 10];
    assert(sep@ =~= colon_space());
    assert(eol@ =~= crlf());
    data.extend_from_slice(name);
    data.extend_from_slice(sep.as_slice());
    data.extend_from_slice(value);
    data.extend_from_slice(eol.as_slice());
    assert(contents(data) =~= contents(old(data)) + header_text(name@, value@));
}

/// Writes the header lines of all the fields, in their order.
pub fn write_headers(headers: &Headers, data: &mut BytesMut)
    ensures
        contents(final(data)) == contents(old(data)) + headers_text(fields_of(*headers)),
{
    let ghost fields = fields_of(*headers);
    let mut i: usize = 0;
    assert(contents(data) =~= contents(old(data)) + headers_text(fields.take(0)));
    while i < headers.len()
        invariant
            i <= headers@.len(),
            fields == fields_of(*headers),
            contents(data) == contents(old(data)) + headers_text(fields.take(i as int)),
        decreases headers@.len() - i,
    {
        write_header(headers[i].0.as_slice(), headers[i].1.as_slice(), data);
        proof {
            let next = fields.take(i + 1);
            assert(next.drop_last() =~= fields.take(i as int));
            assert(next.last() == fields[i as int]);
            assert(contents(data) =~= contents(old(data)) + headers_text(next));
        }
        i += 1;
    }
    assert(fields.take(i as int) =~= fields);
}

} // verus!
