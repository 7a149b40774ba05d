//! What a decoder or a deframer reports instead of an item.

use vstd::prelude::*;

verus! {

/// Why `Decode::decode` returned no item.
#[derive(Debug, Copy, Clone, PartialEq)]
pub enum DecodeError<E, S> {
    /// The bytes cannot be decoded, now or later.
    Failed(E),
    /// More bytes are needed. The state is handed back to the next call.
    Incomplete(S),
}

/// Why `Framer::deframe` returned no item.
#[derive(Debug, Copy, Clone, PartialEq)]
pub enum DeframeError<E> {
    /// The bytes cannot be deframed, now or later.
    Failed(E),
    /// More bytes are needed. The framer keeps what it has parsed so far.
    Incomplete,
}

} // verus!
