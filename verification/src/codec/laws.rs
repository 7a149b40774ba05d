//! What holds of the codecs of bytes, text and the unit item: what one of
//! them encodes, it decodes again, and nothing stays in the buffer.

use core::convert::Infallible;
use core::str::Utf8Error;
use crate::codec::decode::Decode;
use crate::codec::encode::Encode;
use crate::codec::error::DecodeError;
use vstd::prelude::*;
use vstd::utf8::encode_utf8_decode_utf8;
use vstd::utf8::encode_utf8_valid_utf8;

verus! {

/// A byte string that is encoded into an empty buffer and decoded from it
/// comes back as it was, and the buffer is empty again.
pub proof fn lemma_bytes_round_trip(
    item: Vec<u8>,
    encoded: Result<(), Infallible>,
    written: Seq<u8>,
    decoded: Result<Vec<u8>, DecodeError<Infallible, ()>>,
    rest: Seq<u8>,
)
    requires
        item.encodes(encoded, written),
        <Vec<u8> as Decode>::decodes(written, (), decoded, rest),
    ensures
        encoded is Ok,
        decoded matches Ok(back) && back@ == item@,
        rest.len() == 0,
{
}

/// A byte slice that is encoded into an empty buffer is decoded from it as
/// the byte string of the same bytes, and the buffer is empty again.
pub proof fn lemma_slice_round_trip(
    item: &[u8],
    encoded: Result<(), Infallible>,
    written: Seq<u8>,
    decoded: Result<Vec<u8>, DecodeError<Infallible, ()>>,
    rest: Seq<u8>,
)
    requires
        item.encodes(encoded, written),
        <Vec<u8> as Decode>::decodes(written, (), decoded, rest),
    ensures
        encoded is Ok,
        decoded matches Ok(back) && back@ == item@,
        rest.len() == 0,
{
}

/// A text that is encoded into an empty buffer and decoded from it comes
/// back as it was, and the buffer is empty again.
pub proof fn lemma_text_round_trip(
    item: String,
    encoded: Result<(), Infallible>,
    written: Seq<u8>,
    decoded: Result<String, DecodeError<Utf8Error, ()>>,
    rest: Seq<u8>,
)
    requires
        item.encodes(encoded, written),
        <String as Decode>::decodes(written, (), decoded, rest),
    ensures
        encoded is Ok,
        decoded matches Ok(back) && back@ == item@,
        rest.len() == 0,
{
    encode_utf8_valid_utf8(item@);
    encode_utf8_decode_utf8(item@);
}

/// The unit item is encoded as no bytes, and is decoded without taking any.
pub proof fn lemma_unit_round_trip(
    encoded: Result<(), Infallible>,
    written: Seq<u8>,
    data: Seq<u8>,
    decoded: Result<(), DecodeError<Infallible, ()>>,
    rest: Seq<u8>,
)
    requires
        ().encodes(encoded, written),
        <() as Decode>::decodes(data, (), decoded, rest),
    ensures
        encoded is Ok,
        written.len() == 0,
        decoded is Ok,
        rest == data,
{
}

} // verus!
