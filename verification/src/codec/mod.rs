//! Codecs: how items become bytes and bytes become items.

use vstd::prelude::*;

pub mod decode;
pub mod encode;
pub mod error;
pub mod frame;
pub mod laws;

pub use decode::Decode;
pub use encode::Encode;
pub use error::DecodeError;
pub use error::DeframeError;
pub use frame::Framer;

verus! {

/// A value that can hand out a fresh value with the same configuration and
/// none of its own running state. A listener gives each accepted connection
/// such a copy of its framer.
pub trait MakeSimilar: Sized {
    /// Whether `fresh` is what `make_similar` returns.
    open spec fn is_similar(&self, fresh: Self) -> bool {
        true
    }

    /// A fresh value with the configuration of this one.
    fn make_similar(&self) -> (fresh: Self)
        ensures
            self.is_similar(fresh),
    ;
}

} // verus!
