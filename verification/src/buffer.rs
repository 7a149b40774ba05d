//! The byte buffer that codecs and framers work on.
//!
//! The buffer is `bytes::BytesMut`. Verus sees nothing inside such a value, so
//! this module names what it holds ([`contents`]) and states, for each method
//! that the library calls, what the `bytes` crate does to those contents.
//! These contracts are taken on trust. The two lemmas on appended bytes, at
//! the end, are proved.

use bytes::Buf;
use bytes::BytesMut;
use vstd::prelude::*;

verus! {

/// The growable byte buffer of the `bytes` crate.
#[verifier::external_type_specification]
#[verifier::external_body]
pub struct ExBytesMut(BytesMut);

/// The bytes that a buffer holds, first to last.
pub uninterp spec fn contents(buf: &BytesMut) -> Seq<u8>;

/// `BytesMut::new`: a buffer that holds nothing.
pub assume_specification[ BytesMut::new ]() -> (buf: BytesMut)
    ensures
        contents(&buf) == Seq::<u8>::empty(),
;

/// `BytesMut::with_capacity`: a buffer that holds nothing, whatever room it
/// has. The capacity goes to `Vec::with_capacity`, which panics above
/// `isize::MAX` bytes.
pub assume_specification[ BytesMut::with_capacity ](capacity: usize) -> (buf: BytesMut)
    requires
        capacity <= isize::MAX,
    ensures
        contents(&buf) == Seq::<u8>::empty(),
;

/// `BytesMut::len`: how many bytes the buffer holds.
pub assume_specification[ BytesMut::len ](buf: &BytesMut) -> (n: usize)
    ensures
        n == contents(buf).len(),
;

/// `BytesMut::is_empty`: whether the buffer holds no byte.
pub assume_specification[ BytesMut::is_empty ](buf: &BytesMut) -> (empty: bool)
    ensures
        empty == (contents(buf).len() == 0),
;

/// `BytesMut::extend_from_slice`: the given bytes are added behind those held.
/// The slice and the buffer are distinct objects in memory, so the sum of
/// their lengths fits in `usize`; of the allocator the contract says nothing,
/// as vstd's contract for `Vec::reserve` says nothing of it.
pub assume_specification[ BytesMut::extend_from_slice ](buf: &mut BytesMut, extend: &[u8])
    ensures
        contents(final(buf)) == contents(old(buf)) + extend@,
;

/// `BytesMut::split_to`: the first `at` bytes leave the buffer and come back
/// as a buffer of their own. The method panics where `at` is past the end.
pub assume_specification[ BytesMut::split_to ](buf: &mut BytesMut, at: usize) -> (head: BytesMut)
    requires
        at <= contents(old(buf)).len(),
    ensures
        contents(&head) == contents(old(buf)).subrange(0, at as int),
        contents(final(buf)) == contents(old(buf)).subrange(
            at as int,
            contents(old(buf)).len() as int,
        ),
;

/// `Buf::advance` on a `BytesMut`: the first `cnt` bytes are dropped. The
/// method panics where `cnt` is past the end.
#[verifier::external_body]
pub(crate) fn advance(buf: &mut BytesMut, cnt: usize)
    requires
        cnt <= contents(old(buf)).len(),
    ensures
        contents(final(buf)) == contents(old(buf)).subrange(
            cnt as int,
            contents(old(buf)).len() as int,
        ),
{
    buf.advance(cnt)
}

/// `AsRef<[u8]>::as_ref` on a `BytesMut`: the bytes held, as a slice.
#[verifier::external_body]
pub(crate) fn as_slice(buf: &BytesMut) -> (bytes: &[u8])
    ensures
        bytes@ == contents(buf),
{
    buf.as_ref()
}

/// What was added to a buffer is what stands behind the bytes it held.
pub proof fn lemma_written(before: Seq<u8>, written: Seq<u8>)
    ensures
        before.is_prefix_of(before + written),
        (before + written).skip(before.len() as int) == written,
{
    assert((before + written).subrange(0, before.len() as int) =~= before);
    assert((before + written).skip(before.len() as int) =~= written);
}

/// What was added to a buffer in two steps starts with what the first step
/// added, and goes on with what the second step added.
pub proof fn lemma_written_in_two(before: Seq<u8>, first: Seq<u8>, after: Seq<u8>)
    requires
        (before + first).is_prefix_of(after),
    ensures
        before.is_prefix_of(after),
        first.is_prefix_of(after.skip(before.len() as int)),
        after.skip(before.len() as int).skip(first.len() as int) == after.skip(
            (before + first).len() as int,
        ),
{
    let joined = before + first;
    assert(joined =~= after.subrange(0, joined.len() as int));
    assert(before =~= after.subrange(0, before.len() as int)) by {
        assert forall|i: int| 0 <= i < before.len() implies before[i] == after[i] by {
            assert(joined[i] == after.subrange(0, joined.len() as int)[i]);
        }
    }
    let written = after.skip(before.len() as int);
    assert(first =~= written.subrange(0, first.len() as int)) by {
        assert forall|i: int| 0 <= i < first.len() implies first[i] == written[i] by {
            assert(joined[before.len() + i] == after.subrange(0, joined.len() as int)[before.len() + i]);
        }
    }
    assert(written.skip(first.len() as int) =~= after.skip(joined.len() as int));
}

} // verus!
