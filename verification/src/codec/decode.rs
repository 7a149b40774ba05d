//! Decoding: an item is read from the front of a buffer.

use bytes::BytesMut;
use core::convert::Infallible;
use core::str::Utf8Error;
use crate::buffer::advance;
use crate::buffer::as_slice;
use crate::buffer::contents;
use crate::codec::error::DecodeError;
use crate::text::from_utf8;
use vstd::prelude::*;
use vstd::slice::slice_to_vec;
use vstd::utf8::decode_utf8;
use vstd::utf8::encode_utf8_decode_utf8;
use vstd::utf8::valid_utf8;

verus! {

/// An item that can be read from a byte buffer, in one call or, where the
/// bytes arrive in pieces, in several: a call that lacks bytes hands back a
/// state, and the next call takes it up.
pub trait Decode: Sized {
    type Error;

    type State;

    /// Whether the decoding of an item starts with this state. A codec
    /// that states nothing here promises nothing of its first state.
    open spec fn is_initial(state: Self::State) -> bool {
        true
    }

    /// The state with which the decoding of an item starts.
    fn initial_state() -> (state: Self::State)
        ensures
            Self::is_initial(state),
    ;

    /// Whether `decode`, on a buffer that holds `data` and with the state
    /// `state`, returns `result` and leaves `rest` in the buffer. A codec
    /// that states nothing here promises nothing of its results.
    open spec fn decodes(
        data: Seq<u8>,
        state: Self::State,
        result: Result<Self, DecodeError<Self::Error, Self::State>>,
        rest: Seq<u8>,
    ) -> bool {
        true
    }

    /// Reads an item from the front of `data`.
    ///
    /// On success the bytes of the item have left the buffer. Where bytes
    /// are missing, the result is `Incomplete` with the state to resume
    /// from. A failure is final for these bytes.
    fn decode(data: &mut BytesMut, state: Self::State) -> (r: Result<
        Self,
        DecodeError<Self::Error, Self::State>,
    >)
        ensures
            Self::decodes(contents(old(data)), state, r, contents(final(data))),
    ;
}

/// Whether a codec, on a buffer that holds `data` and from `state`, returns
/// some item and leaves `rest` in the buffer.
pub open spec fn decodes_some<T: Decode>(data: Seq<u8>, state: T::State, rest: Seq<u8>) -> bool {
    exists|item: T| #[trigger] T::decodes(data, state, Ok(item), rest)
}

/// The unit item takes no bytes and never fails.
impl Decode for () {
    type Error = Infallible;

    type State = ();

    open spec fn is_initial(state: ()) -> bool {
        true
    }

    fn initial_state() -> (state: ()) {
        ()
    }

    open spec fn decodes(
        data: Seq<u8>,
        state: (),
        result: Result<(), DecodeError<Infallible, ()>>,
        rest: Seq<u8>,
    ) -> bool {
        result is Ok && rest == data
    }

    fn decode(data: &mut BytesMut, state: ()) -> (r: Result<(), DecodeError<Infallible, ()>>) {
        Ok(())
    }
}

/// A byte string is all the bytes that the buffer holds.
impl Decode for Vec<u8> {
    type Error = Infallible;

    type State = ();

    open spec fn is_initial(state: ()) -> bool {
        true
    }

    fn initial_state() -> (state: ()) {
        ()
    }

    open spec fn decodes(
        data: Seq<u8>,
        state: (),
        result: Result<Vec<u8>, DecodeError<Infallible, ()>>,
        rest: Seq<u8>,
    ) -> bool {
        &&& result matches Ok(item) && item@ == data
        &&& rest == Seq::<u8>::empty()
    }

    fn decode(data: &mut BytesMut, state: ()) -> (r: Result<
        Vec<u8>,
        DecodeError<Infallible, ()>,
    >) {
        let item = slice_to_vec(as_slice(data));
        let n = data.len();
        advance(data, n);
        assert(contents(data) =~= Seq::<u8>::empty());
        Ok(item)
    }
}

/// A text is all the bytes that the buffer holds, which must be UTF-8. Where
/// they are not, the buffer keeps them.
impl Decode for String {
    type Error = Utf8Error;

    type State = ();

    open spec fn is_initial(state: ()) -> bool {
        true
    }

    fn initial_state() -> (state: ()) {
        ()
    }

    open spec fn decodes(
        data: Seq<u8>,
        state: (),
        result: Result<String, DecodeError<Utf8Error, ()>>,
        rest: Seq<u8>,
    ) -> bool {
        if valid_utf8(data) {
            &&& result matches Ok(item) && item@ == decode_utf8(data)
            &&& rest == Seq::<u8>::empty()
        } else {
            &&& result matches Err(e) && e is Failed
            &&& rest == data
        }
    }

    fn decode(data: &mut BytesMut, state: ()) -> (r: Result<String, DecodeError<Utf8Error, ()>>) {
        let item = match from_utf8(as_slice(data)) {
            Ok(text) => text.to_owned(),
            Err(e) => {
                return Err(DecodeError::Failed(e));
            },
        };
        proof {
            encode_utf8_decode_utf8(item@);
        }
        let n = data.len();
        advance(data, n);
        assert(contents(data) =~= Seq::<u8>::empty());
        Ok(item)
    }
}

} // verus!
