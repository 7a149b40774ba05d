//! Searching bytes: where a pattern first occurs, and where a line ends.

use bytes::BytesMut;
use crate::buffer::advance;
use crate::buffer::as_slice;
use crate::buffer::contents;
use vstd::prelude::*;

verus! {

/// Whether `pattern` stands in `text` at index `i`.
pub open spec fn occurs_at(text: Seq<u8>, pattern: Seq<u8>, i: int) -> bool {
    &&& 0 <= i
    &&& i + pattern.len() <= text.len()
    &&& text.subrange(i, i + pattern.len()) == pattern
}

/// Whether `i` is the first index at which `pattern` stands in `text`.
pub open spec fn first_at(text: Seq<u8>, pattern: Seq<u8>, i: int) -> bool {
    &&& occurs_at(text, pattern, i)
    &&& forall|j: int| 0 <= j < i ==> !occurs_at(text, pattern, j)
}

/// The first index at which `pattern` stands in `text`, if it stands there at
/// all.
pub open spec fn position(text: Seq<u8>, pattern: Seq<u8>) -> Option<int> {
    if exists|i: int| first_at(text, pattern, i) {
        Some(choose|i: int| first_at(text, pattern, i))
    } else {
        None
    }
}

/// A first occurrence is the position.
pub proof fn lemma_position_is_first(text: Seq<u8>, pattern: Seq<u8>, i: int)
    requires
        first_at(text, pattern, i),
    ensures
        position(text, pattern) == Some(i),
{
    let k = choose|k: int| first_at(text, pattern, k);
    if k < i {
        assert(!occurs_at(text, pattern, k));
    } else if i < k {
        assert(!occurs_at(text, pattern, i));
    }
}

/// Where the pattern occurs nowhere, there is no position.
pub proof fn lemma_position_none(text: Seq<u8>, pattern: Seq<u8>)
    requires
        forall|j: int| !occurs_at(text, pattern, j),
    ensures
        position(text, pattern) is None,
{
}

/// The position, where there is one, is a first occurrence.
pub proof fn lemma_position_some(text: Seq<u8>, pattern: Seq<u8>)
    requires
        position(text, pattern) is Some,
    ensures
        first_at(text, pattern, position(text, pattern)->Some_0),
{
}

/// An occurrence that lies within the first of two joined texts is an
/// occurrence in that text, and the other way round.
pub proof fn lemma_occurs_in_prefix(a: Seq<u8>, b: Seq<u8>, pattern: Seq<u8>, i: int)
    requires
        0 <= i,
        i + pattern.len() <= a.len(),
    ensures
        occurs_at(a, pattern, i) == occurs_at(a + b, pattern, i),
{
    assert((a + b).subrange(i, i + pattern.len()) =~= a.subrange(i, i + pattern.len()));
}

/// Where a pattern first occurs in a text, it first occurs in the text with
/// more behind it.
pub proof fn lemma_position_stays(a: Seq<u8>, b: Seq<u8>, pattern: Seq<u8>)
    requires
        position(a, pattern) is Some,
    ensures
        position(a + b, pattern) == position(a, pattern),
{
    lemma_position_some(a, pattern);
    let i = position(a, pattern)->Some_0;
    lemma_occurs_in_prefix(a, b, pattern, i);
    assert forall|j: int| 0 <= j < i implies !occurs_at(a + b, pattern, j) by {
        lemma_occurs_in_prefix(a, b, pattern, j);
    }
    lemma_position_is_first(a + b, pattern, i);
}

/// Where a pattern first occurs in two joined texts and lies within the
/// first of them, it first occurs there in the first text.
pub proof fn lemma_position_in_prefix(a: Seq<u8>, b: Seq<u8>, pattern: Seq<u8>)
    requires
        position(a + b, pattern) is Some,
        position(a + b, pattern)->Some_0 + pattern.len() <= a.len(),
    ensures
        position(a, pattern) == position(a + b, pattern),
{
    lemma_position_some(a + b, pattern);
    let i = position(a + b, pattern)->Some_0;
    lemma_occurs_in_prefix(a, b, pattern, i);
    assert forall|j: int| 0 <= j < i implies !occurs_at(a, pattern, j) by {
        lemma_occurs_in_prefix(a, b, pattern, j);
    }
    lemma_position_is_first(a, pattern, i);
}

/// Where a pattern does not occur within the first of two joined texts, it
/// does not occur in the first text.
pub proof fn lemma_position_not_in_prefix(a: Seq<u8>, b: Seq<u8>, pattern: Seq<u8>)
    requires
        position(a + b, pattern) matches Some(i) ==> i + pattern.len() > a.len(),
    ensures
        position(a, pattern) is None,
{
    if position(a, pattern) is Some {
        lemma_position_stays(a, b, pattern);
        lemma_position_some(a, pattern);
    }
}

/// Whether `pattern` stands in `text` at index `i`.
pub fn matches_at(text: &[u8], pattern: &[u8], i: usize) -> (found: bool)
    ensures
        found == occurs_at(text@, pattern@, i as int),
{
    if pattern.len() > text.len() || i > text.len() - pattern.len() {
        return false;
    }
    let mut k: usize = 0;
    while k < pattern.len()
        invariant
            k <= pattern@.len(),
            i + pattern@.len() <= text@.len() <= usize::MAX,
            forall|m: int| 0 <= m < k ==> text@[i + m] == pattern@[m],
        decreases pattern@.len() - k,
    {
        if text[i + k] != pattern[k] {
            assert(text@.subrange(i as int, i + pattern@.len())[k as int] != pattern@[k as int]);
            return false;
        }
        k += 1;
    }
    assert(text@.subrange(i as int, i + pattern@.len()) =~= pattern@);
    true
}

/// The first index at which `pattern` stands in `text`.
pub fn find(text: &[u8], pattern: &[u8]) -> (found: Option<usize>)
    ensures
        found is Some <==> position(text@, pattern@) is Some,
        found is Some ==> found->Some_0 as int == position(text@, pattern@)->Some_0,
{
    if pattern.len() > text.len() {
        proof {
            lemma_position_none(text@, pattern@);
        }
        return None;
    }
    let last: usize = text.len() - pattern.len();
    let mut i: usize = 0;
    loop
        invariant
            i <= last,
            last + pattern@.len() == text@.len(),
            forall|j: int| 0 <= j < i ==> !occurs_at(text@, pattern@, j),
        decreases last - i,
    {
        if matches_at(text, pattern, i) {
            proof {
                lemma_position_is_first(text@, pattern@, i as int);
            }
            return Some(i);
        }
        if i == last {
            proof {
                lemma_position_none(text@, pattern@);
            }
            return None;
        }
        i += 1;
    }
}

/// The two bytes that end a line: carriage return, line feed.
pub open spec fn crlf() -> Seq<u8> {
    seq![13u8, 10u8]
}

/// The first line of `data`, without the CRLF that ends it, where `data`
/// holds a CRLF.
pub open spec fn first_line(data: Seq<u8>) -> Option<Seq<u8>> {
    match position(data, crlf()) {
        Some(i) => Some(data.subrange(0, i)),
        None => None,
    }
}

/// What follows the first line of `data` and its CRLF; all of `data` where it
/// holds no CRLF.
pub open spec fn after_first_line(data: Seq<u8>) -> Seq<u8> {
    match position(data, crlf()) {
        Some(i) => data.subrange(i + 2, data.len() as int),
        None => data,
    }
}

/// Takes the first line out of the buffer, with the CRLF that ends it, and
/// returns the line without the CRLF. A lone line feed ends no line. Where
/// the buffer holds no CRLF, it is left as it is.
pub fn find_eol(data: &mut BytesMut) -> (line: Option<Vec<u8>>)
    ensures
        line is Some <==> first_line(contents(old(data))) is Some,
        line is Some ==> line->Some_0@ == first_line(contents(old(data)))->Some_0,
        contents(final(data)) == after_first_line(contents(old(data))),
{
    let eol: [u8; 2] = [13, 10];
    assert(eol@ =~= crlf());
    let at = match find(as_slice(data), eol.as_slice()) {
        Some(at) => at,
        None => {
            return None;
        },
    };
    proof {
        lemma_position_some(contents(data), crlf());
    }
    let raw = data.split_to(at);
    advance(data, 2);
    assert(contents(data) =~= after_first_line(contents(old(data))));
    Some(vstd::slice::slice_to_vec(as_slice(&raw)))
}

} // verus!
