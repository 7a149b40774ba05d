//! Text functions of the standard library for which vstd has no contract.
//!
//! Each contract here repeats what the function's documentation says, and is
//! taken on trust.

use core::num::ParseIntError;
use core::str::Utf8Error;
use vstd::prelude::*;
use vstd::string::StringSliceAdditionalSpecFns;
use vstd::utf8::valid_utf8;

verus! {

/// The error of `core::str::from_utf8`.
#[verifier::external_type_specification]
#[verifier::external_body]
pub struct ExUtf8Error(Utf8Error);

/// The error of `str::parse` for an integer.
#[verifier::external_type_specification]
#[verifier::external_body]
pub struct ExParseIntError(ParseIntError);

/// What `str::trim` leaves of a text: the text without the white space, as
/// Unicode defines it, at its two ends.
pub uninterp spec fn trimmed(text: Seq<char>) -> Seq<char>;

/// What `str::parse::<usize>` reads from a text: the number that its decimal
/// digits spell, with or without a plus sign before them, or nothing where
/// the text is not such a number or the number does not fit.
pub uninterp spec fn parsed_usize(text: Seq<char>) -> Option<usize>;

/// `core::str::from_utf8`: the text of the same bytes, where the bytes are
/// UTF-8, and an error where they are not.
#[verifier::external_body]
pub(crate) fn from_utf8(bytes: &[u8]) -> (r: Result<&str, Utf8Error>)
    ensures
        r is Ok <==> valid_utf8(bytes@),
        r is Ok ==> r->Ok_0.spec_bytes() == bytes@,
{
    core::str::from_utf8(bytes)
}

/// `str::trim`: the text without the white space at its two ends.
#[verifier::external_body]
pub(crate) fn trim(text: &str) -> (r: &str)
    ensures
        r@ == trimmed(text@),
{
    text.trim()
}

/// `str::parse::<usize>`: the number that the text spells, or an error
/// where it spells none that fits.
#[verifier::external_body]
pub(crate) fn parse_usize(text: &str) -> (r: Result<usize, ParseIntError>)
    ensures
        r is Ok <==> parsed_usize(text@) is Some,
        r is Ok ==> parsed_usize(text@) == Some(r->Ok_0),
{
    text.parse::<usize>()
}

} // verus!
