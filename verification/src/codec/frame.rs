//! Framing: a connection's codec, which keeps what it has parsed of an item
//! between one arrival of bytes and the next.

use bytes::BytesMut;
use crate::buffer::contents;
use crate::codec::decode::Decode;
use crate::codec::encode::Encode;
use crate::codec::error::DeframeError;
use vstd::prelude::*;

verus! {

/// A codec with state, owned by one connection.
///
/// `frame` writes an item that goes out. `deframe` takes an item from the
/// bytes that came in, or asks for more and keeps what it has parsed so far.
/// `clear` drops what it has kept.
pub trait Framer: Sized {
    type Input: Encode;

    type Output: Decode;

    type MetaKey;

    type MetaValue;

    type Error;

    /// Whether `frame`, on this framer, with `item` and a buffer that holds
    /// `dst`, returns `result`, and leaves the framer as `after` and
    /// `dst_after` in the buffer. A framer that states nothing here promises
    /// nothing of its results.
    open spec fn frames(
        &self,
        item: Self::Input,
        dst: Seq<u8>,
        result: Result<(), Self::Error>,
        after: Self,
        dst_after: Seq<u8>,
    ) -> bool {
        true
    }

    /// Writes one item behind the bytes that `dst` holds.
    fn frame(&mut self, item: Self::Input, dst: &mut BytesMut) -> (r: Result<(), Self::Error>)
        ensures
            old(self).frames(item, contents(old(dst)), r, *final(self), contents(final(dst))),
    ;

    /// Whether `deframe`, on this framer and a buffer that holds `src`,
    /// returns `result`, and leaves the framer as `after` and `rest` in the
    /// buffer. A framer that states nothing here promises nothing of its
    /// results.
    open spec fn deframes(
        &self,
        src: Seq<u8>,
        result: Result<Self::Output, DeframeError<Self::Error>>,
        after: Self,
        rest: Seq<u8>,
    ) -> bool {
        true
    }

    /// Takes one item from the front of `src`. `Incomplete` asks for more
    /// bytes: the framer keeps what it has parsed, for the next call.
    fn deframe(&mut self, src: &mut BytesMut) -> (r: Result<
        Self::Output,
        DeframeError<Self::Error>,
    >)
        ensures
            old(self).deframes(contents(old(src)), r, *final(self), contents(final(src))),
    ;

    /// Whether `clear` leaves this framer as `after`.
    open spec fn clears(&self, after: Self) -> bool {
        true
    }

    /// Drops what the framer has kept of an item that it has not finished.
    fn clear(&mut self)
        ensures
            old(self).clears(*final(self)),
    ;

    /// Whether `add_metadata` leaves this framer as `after`.
    open spec fn takes_metadata(
        &self,
        key: Self::MetaKey,
        value: Self::MetaValue,
        after: Self,
    ) -> bool {
        true
    }

    /// Hands the framer a piece of the protocol's sideband.
    fn add_metadata(&mut self, key: Self::MetaKey, value: Self::MetaValue)
        ensures
            old(self).takes_metadata(key, value, *final(self)),
    ;
}

} // verus!
