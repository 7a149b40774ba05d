//! The errors of establishing and using a transport.

use crate::resolve::IoError;
use vstd::prelude::*;

verus! {

/// Why no item could be taken from the bytes received.
#[derive(Debug, Clone, PartialEq, Eq)]
pub enum DeframeCause<F> {
    /// The framer refused the bytes.
    Framer(F),
    /// The peer closed the connection, and nothing is left to deframe.
    UnexpectedEof,
}

/// Why a transport could not be established or used. `F` is the error of the
/// connection's framer.
#[allow(inconsistent_fields)]
#[derive(Debug, Clone, PartialEq, Eq)]
pub enum Error<F> {
    /// The endpoint could not be resolved.
    Resolve { source: Box<crate::resolve::Error> },
    /// No address led to a connection. Where addresses were tried, `source`
    /// is the failure of the attempt that failed last.
    NoEndpoint { source: Option<IoError> },
    /// The connection could not be opened.
    Open { source: IoError },
    /// The message could not be sent.
    Send { source: IoError },
    /// No bytes could be received.
    Receive { source: IoError },
    /// The connection could not be closed.
    Close { source: IoError },
    /// The message could not be framed.
    Frame { source: Box<F> },
    /// No message could be deframed.
    Deframe { source: Box<DeframeCause<F>> },
    /// An incoming connection could not be accepted.
    Listen { source: IoError },
    /// The listener could not be bound to its address.
    Bind { source: IoError },
}

} // verus!
