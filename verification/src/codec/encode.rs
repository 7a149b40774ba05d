//! Encoding: an item adds its wire form to a buffer.

use bytes::BytesMut;
use core::convert::Infallible;
use crate::buffer::contents;
use crate::buffer::lemma_written;
use vstd::prelude::*;
use vstd::utf8::encode_utf8;

verus! {

/// An item that can be written to a byte buffer.
pub trait Encode {
    type Error;

    /// Whether `encode` returns `result` and adds `written` to the buffer
    /// (also where it fails part of the way). An item that states nothing
    /// here promises nothing but that it only adds.
    open spec fn encodes(&self, result: Result<(), Self::Error>, written: Seq<u8>) -> bool {
        true
    }

    /// Adds the item's wire form behind the bytes that `data` holds.
    fn encode(&self, data: &mut BytesMut) -> (r: Result<(), Self::Error>)
        ensures
            contents(old(data)).is_prefix_of(contents(final(data))),
            self.encodes(r, contents(final(data)).skip(contents(old(data)).len() as int)),
    ;

    /// A lower and, where known, an upper bound of the encoded length. It
    /// only serves to reserve room: nothing relies on it. An item that says
    /// nothing gives no bound.
    fn size_hint(&self) -> (hint: (usize, Option<usize>))
        default_ensures
            hint == (0usize, None::<usize>),
    {
        (0, None)
    }
}

impl<'a> Encode for &'a [u8] {
    type Error = Infallible;

    open spec fn encodes(&self, result: Result<(), Infallible>, written: Seq<u8>) -> bool {
        result is Ok && written == self@
    }

    fn encode(&self, data: &mut BytesMut) -> (r: Result<(), Infallible>) {
        data.extend_from_slice(self);
        proof {
            lemma_written(contents(old(data)), self@);
        }
        Ok(())
    }

    fn size_hint(&self) -> (hint: (usize, Option<usize>))
        ensures
            hint == (self@.len() as usize, Some(self@.len() as usize)),
    {
        (self.len(), Some(self.len()))
    }
}

impl Encode for Vec<u8> {
    type Error = Infallible;

    open spec fn encodes(&self, result: Result<(), Infallible>, written: Seq<u8>) -> bool {
        result is Ok && written == self@
    }

    fn encode(&self, data: &mut BytesMut) -> (r: Result<(), Infallible>) {
        data.extend_from_slice(self.as_slice());
        proof {
            lemma_written(contents(old(data)), self@);
        }
        Ok(())
    }

    fn size_hint(&self) -> (hint: (usize, Option<usize>))
        ensures
            hint == (self@.len() as usize, Some(self@.len() as usize)),
    {
        (self.len(), Some(self.len()))
    }
}

impl<'a> Encode for &'a str {
    type Error = Infallible;

    open spec fn encodes(&self, result: Result<(), Infallible>, written: Seq<u8>) -> bool {
        result is Ok && written == encode_utf8(self@)
    }

    fn encode(&self, data: &mut BytesMut) -> (r: Result<(), Infallible>) {
        data.extend_from_slice(self.as_bytes());
        proof {
            lemma_written(contents(old(data)), encode_utf8(self@));
        }
        Ok(())
    }

    fn size_hint(&self) -> (hint: (usize, Option<usize>))
        ensures
            hint == (encode_utf8(self@).len() as usize, Some(encode_utf8(self@).len() as usize)),
    {
        (self.len(), Some(self.len()))
    }
}

impl Encode for String {
    type Error = Infallible;

    open spec fn encodes(&self, result: Result<(), Infallible>, written: Seq<u8>) -> bool {
        result is Ok && written == encode_utf8(self@)
    }

    fn encode(&self, data: &mut BytesMut) -> (r: Result<(), Infallible>) {
        data.extend_from_slice(self.as_str().as_bytes());
        proof {
            lemma_written(contents(old(data)), encode_utf8(self@));
        }
        Ok(())
    }

    fn size_hint(&self) -> (hint: (usize, Option<usize>))
        ensures
            hint == (
                encode_utf8(self@).len() as usize,
                Some(encode_utf8(self@).len() as usize),
            ),
    {
        let n = self.as_str().len();
        (n, Some(n))
    }
}

impl Encode for () {
    type Error = Infallible;

    open spec fn encodes(&self, result: Result<(), Infallible>, written: Seq<u8>) -> bool {
        result is Ok && written == Seq::<u8>::empty()
    }

    fn encode(&self, data: &mut BytesMut) -> (r: Result<(), Infallible>) {
        proof {
            lemma_written(contents(old(data)), Seq::<u8>::empty());
            assert(contents(old(data)) + Seq::<u8>::empty() =~= contents(old(data)));
        }
        Ok(())
    }

    fn size_hint(&self) -> (hint: (usize, Option<usize>))
        ensures
            hint == (0usize, Some(0usize)),
    {
        (0, Some(0))
    }
}

} // verus!
