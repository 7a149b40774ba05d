//! The errors that the library hands to the application.

use vstd::prelude::*;

verus! {

/// Why an operation of the library failed. Each kind names the operation;
/// `source` holds the cause, boxed.
#[derive(Debug, Clone, PartialEq, Eq)]
pub enum Error<E> {
    /// Failed to initiate a connection.
    Initiate { source: Box<E> },
    /// Failed to begin listening for connections.
    Listen { source: Box<E> },
    /// Failed to rendezvous.
    Rendezvous { source: Box<E> },
    /// Failed to send data.
    Send { source: Box<E> },
    /// Failed to receive data.
    Receive { source: Box<E> },
    /// Failed to encode data.
    Encode { source: Box<E> },
    /// Failed to decode data.
    Decode { source: Box<E> },
    /// The connection terminated unexpectedly.
    Connection { source: Box<E> },
}

impl<E> Error<E> {
    /// The cause of the error.
    pub open spec fn cause(self) -> E {
        match self {
            Error::Initiate { source } => *source,
            Error::Listen { source } => *source,
            Error::Rendezvous { source } => *source,
            Error::Send { source } => *source,
            Error::Receive { source } => *source,
            Error::Encode { source } => *source,
            Error::Decode { source } => *source,
            Error::Connection { source } => *source,
        }
    }

    /// The cause of the error.
    pub fn into_source(self) -> (source: E)
        ensures
            source == self.cause(),
    {
        match self {
            Error::Initiate { source } => *source,
            Error::Listen { source } => *source,
            Error::Rendezvous { source } => *source,
            Error::Send { source } => *source,
            Error::Receive { source } => *source,
            Error::Encode { source } => *source,
            Error::Decode { source } => *source,
            Error::Connection { source } => *source,
        }
    }
}

/// Boxes the given error, so that it can stand as the source of an
/// [`Error`].
pub fn box_error<T>(error: T) -> (boxed: Box<T>)
    ensures
        *boxed == error,
{
    Box::new(error)
}

} // verus!
