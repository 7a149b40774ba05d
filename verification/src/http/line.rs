//! What the two decoders share: the steps of a decoder, windows of a line,
//! header lines and the `Content-Length` value.

use crate::codec::error::DecodeError;
use crate::http::grammar::lower;
use crate::http::grammar::lowered;
use crate::http::scan::find;
use crate::http::scan::lemma_position_some;
use crate::http::scan::position;
use crate::http::Error;
use crate::http::InvalidContentLengthError;
use crate::text::from_utf8;
use crate::text::parse_usize;
use crate::text::parsed_usize;
use crate::text::trim;
use crate::text::trimmed;
use vstd::prelude::*;
use vstd::slice::slice_subrange;
use vstd::utf8::decode_utf8;
use vstd::utf8::valid_utf8;

verus! {

/// What one line does to a decoder: `S` is what the decoder's state holds,
/// `B` the error of the body's codec.
pub enum Step<S, B> {
    /// The line was taken; the decoder goes on from this state.
    Next(S),
    /// The line was dropped; the decoder waits for more bytes in this state.
    Incomplete(S),
    /// The line cannot be decoded.
    Failed(Error<B>),
}

/// How far the bytes of a head lead a decoder.
pub enum Head<S, B> {
    /// The head is read; the body starts with `rest`.
    Body { state: S, rest: Seq<u8> },
    /// Bytes are missing; `rest` stays in the buffer.
    Incomplete { state: S, rest: Seq<u8> },
    /// The head cannot be decoded; `rest` stays in the buffer.
    Failed { error: Error<B>, rest: Seq<u8> },
}

/// Whether a decoder's step returned what the line asks for.
pub open spec fn agrees<D: View, B>(
    r: Result<D, DecodeError<Error<B>, D>>,
    step: Step<D::V, B>,
) -> bool {
    match step {
        Step::Next(state) => r matches Ok(s) && s@ == state,
        Step::Incomplete(state) => r matches Err(DecodeError::Incomplete(s)) && s@ == state,
        Step::Failed(error) => r matches Err(DecodeError::Failed(e)) && e == error,
    }
}

/// The `n` bytes of `line` from index `at` on, as far as the line has them.
pub open spec fn window(line: Seq<u8>, at: int, n: int) -> Seq<u8> {
    let start = if at <= line.len() { at } else { line.len() as int };
    let end = if at + n <= line.len() { at + n } else { line.len() as int };
    line.subrange(start, end)
}

/// The `n` bytes of `line` from index `at` on, as far as the line has them.
pub fn window_of(line: &[u8], at: usize, n: usize) -> (w: &[u8])
    ensures
        w@ == window(line@, at as int, n as int),
{
    let len = line.len();
    let start = if at <= len { at } else { len };
    let end = if n <= len - start { start + n } else { len };
    slice_subrange(line, start, end)
}

/// The bytes of `line` from index `at` on; none where the line is shorter.
pub open spec fn tail(line: Seq<u8>, at: int) -> Seq<u8> {
    if at <= line.len() {
        line.subrange(at, line.len() as int)
    } else {
        Seq::empty()
    }
}

/// The bytes of `line` from index `at` on; none where the line is shorter.
pub fn tail_of(line: &[u8], at: usize) -> (w: &[u8])
    ensures
        w@ == tail(line@, at as int),
{
    let len = line.len();
    if at <= len {
        slice_subrange(line, at, len)
    } else {
        let w = slice_subrange(line, len, len);
        assert(w@ =~= Seq::<u8>::empty());
        w
    }
}

/// Whether two byte strings are the same but for the case of ASCII letters.
pub open spec fn same_ignoring_case(a: Seq<u8>, b: Seq<u8>) -> bool {
    lowered(a) == lowered(b)
}

/// The byte, or its lower-case form where it is an upper-case ASCII letter.
pub fn lower_byte(b: u8) -> (l: u8)
    ensures
        l == lower(b),
{
    if 65 <= b && b <= 90 {
        b + 32
    } else {
        b
    }
}

/// Whether two byte strings are the same but for the case of ASCII letters.
pub fn eq_ignore_ascii_case(a: &[u8], b: &[u8]) -> (same: bool)
    ensures
        same == same_ignoring_case(a@, b@),
{
    if a.len() != b.len() {
        assert(lowered(a@).len() != lowered(b@).len());
        return false;
    }
    let mut i: usize = 0;
    while i < a.len()
        invariant
            i <= a@.len(),
            a@.len() == b@.len(),
            forall|j: int| 0 <= j < i ==> lower(a@[j]) == lower(b@[j]),
        decreases a@.len() - i,
    {
        if lower_byte(a[i]) != lower_byte(b[i]) {
            assert(lowered(a@)[i as int] != lowered(b@)[i as int]);
            return false;
        }
        i += 1;
    }
    assert(lowered(a@) =~= lowered(b@));
    true
}

/// The name `content-length`.
pub open spec fn content_length_name() -> Seq<u8> {
    seq![99u8, 111u8, 110u8, 116u8, 101u8, 110u8, 116u8, 45u8, 108u8, 101u8, 110u8, 103u8, 116u8, 104u8]
}

/// Whether the name is `content-length`, in whatever case.
pub fn is_content_length(name: &[u8]) -> (same: bool)
    ensures
        same == same_ignoring_case(name@, content_length_name()),
{
    let expected: [u8; 14] = [99, 111, 110, 116, 101, 110, 116, 45, 108, 101, 110, 103, 116, 104];
    assert(expected@ =~= content_length_name());
    eq_ignore_ascii_case(name, expected.as_slice())
}

/// The number that the value of a `Content-Length` header gives: the value
/// must be UTF-8 and, without the white space at its ends, a decimal number
/// that fits.
pub open spec fn content_length(value: Seq<u8>) -> Result<usize, InvalidContentLengthError> {
    if !valid_utf8(value) {
        Err(InvalidContentLengthError::InvalidUtf8)
    } else {
        match parsed_usize(trimmed(decode_utf8(value))) {
            Some(n) => Ok(n),
            None => Err(InvalidContentLengthError::InvalidNumber),
        }
    }
}

/// Reads the value of a `Content-Length` header.
pub fn read_content_length(value: &[u8]) -> (r: Result<usize, InvalidContentLengthError>)
    ensures
        r == content_length(value@),
{
    let text = match from_utf8(value) {
        Ok(text) => text,
        Err(_) => {
            return Err(InvalidContentLengthError::InvalidUtf8);
        },
    };
    proof {
        vstd::utf8::encode_utf8_decode_utf8(text@);
    }
    match parse_usize(trim(text)) {
        Ok(n) => Ok(n),
        Err(_) => Err(InvalidContentLengthError::InvalidNumber),
    }
}

/// The colon that parts a header's name from its value.
pub open spec fn colon() -> Seq<u8> {
    seq![58u8]
}

/// A header line, taken apart.
pub enum HeaderLine {
    /// The empty line that ends the headers.
    End,
    /// A line without a colon.
    NoColon,
    /// A name and a value: what stands before the first colon, and what
    /// stands behind it.
    Field { name: Seq<u8>, value: Seq<u8> },
}

/// A header line, taken apart.
pub open spec fn header_line(line: Seq<u8>) -> HeaderLine {
    if line.len() == 0 {
        HeaderLine::End
    } else {
        match position(line, colon()) {
            None => HeaderLine::NoColon,
            Some(i) => HeaderLine::Field {
                name: line.subrange(0, i),
                value: line.subrange(i + 1, line.len() as int),
            },
        }
    }
}

/// Where the first colon of a header line stands.
pub fn find_colon(line: &[u8]) -> (at: Option<usize>)
    ensures
        at is Some <==> position(line@, colon()) is Some,
        at matches Some(i) ==> position(line@, colon()) == Some(i as int) && i < line@.len(),
{
    let pattern: [u8; 1] = [58];
    assert(pattern@ =~= colon());
    let at = find(line, pattern.as_slice());
    proof {
        if at is Some {
            lemma_position_some(line@, colon());
            assert(colon().len() == 1);
            assert(crate::http::scan::occurs_at(line@, colon(), at->Some_0 as int));
        }
    }
    at
}

} // verus!
