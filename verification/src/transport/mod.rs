//! Choosing a transport protocol for an address, and trying it.
//!
//! The sockets are the caller's. Here are the decisions: which protocol is
//! tried first, which one after a failure, and what the outcome is.

use crate::properties::Preference;
use crate::properties::SelectionProperty;
use crate::properties::TransportProperties;
use crate::resolve::IoError;
use crate::resolve::SocketAddress;
use vstd::prelude::*;

pub mod error;

pub use error::DeframeCause;
pub use error::Error;

verus! {

/// A transport protocol.
#[derive(Debug, Clone, Copy, PartialEq, Eq, Structural)]
pub enum Protocol {
    /// A reliable byte stream.
    Tcp,
    /// Datagrams.
    Udp,
}

/// The order in which protocols are tried for an address.
#[derive(Debug, Clone, Copy, PartialEq, Eq, Structural)]
pub struct Ladder {
    /// The protocol that is tried first.
    pub first: Protocol,
    /// The protocol that is tried where the first one fails, if any.
    pub fallback: Option<Protocol>,
}

/// The order that a preference for reliability asks for: required, TCP
/// only; preferred or ignored, TCP and then UDP; avoided, UDP and then TCP;
/// prohibited, UDP only.
pub open spec fn ladder_of(reliability: Preference) -> Ladder {
    match reliability {
        Preference::Require => Ladder { first: Protocol::Tcp, fallback: None },
        Preference::Prefer => Ladder { first: Protocol::Tcp, fallback: Some(Protocol::Udp) },
        Preference::Ignore => Ladder { first: Protocol::Tcp, fallback: Some(Protocol::Udp) },
        Preference::Avoid => Ladder { first: Protocol::Udp, fallback: Some(Protocol::Tcp) },
        Preference::Prohibit => Ladder { first: Protocol::Udp, fallback: None },
    }
}

/// The order in which protocols are tried under the given properties.
pub fn ladder(props: &TransportProperties) -> (order: Ladder)
    ensures
        order == ladder_of(props@.preferences[SelectionProperty::Reliability]),
{
    match props.get(SelectionProperty::Reliability) {
        Preference::Require => Ladder { first: Protocol::Tcp, fallback: None },
        Preference::Prefer | Preference::Ignore => Ladder {
            first: Protocol::Tcp,
            fallback: Some(Protocol::Udp),
        },
        Preference::Avoid => Ladder { first: Protocol::Udp, fallback: Some(Protocol::Tcp) },
        Preference::Prohibit => Ladder { first: Protocol::Udp, fallback: None },
    }
}

/// A transport that is open and has no framer yet.
#[derive(Debug, Clone, Copy, PartialEq, Eq, Structural)]
pub struct Connecting {
    /// The protocol that the transport speaks.
    pub protocol: Protocol,
    /// The address on this side.
    pub local: SocketAddress,
    /// The address of the peer.
    pub remote: SocketAddress,
}

/// The attempt to open a transport for one address, to connect to it or to
/// listen on it: the protocol that is being tried, and the one that is left
/// to try.
#[derive(Debug, Clone, Copy, PartialEq, Eq, Structural)]
pub struct Attempt {
    /// The address: the peer's for a connection, the own one for a
    /// listener.
    pub remote: SocketAddress,
    /// The protocol that is being tried.
    pub protocol: Protocol,
    /// The protocol that is tried where this one fails, if any.
    pub fallback: Option<Protocol>,
}

/// What follows the failure of an attempt.
#[derive(Debug, Clone, PartialEq, Eq)]
pub enum Retry<F> {
    /// The next protocol is to be tried.
    Next(Attempt),
    /// Nothing is left to try: the address failed with this error.
    Failed(Error<F>),
}

impl Attempt {
    /// The attempt with which an address is tried under the given
    /// properties.
    pub fn create(remote: SocketAddress, props: &TransportProperties) -> (attempt: Attempt)
        ensures
            attempt.remote == remote,
            attempt.protocol == ladder_of(props@.preferences[SelectionProperty::Reliability]).first,
            attempt.fallback == ladder_of(
                props@.preferences[SelectionProperty::Reliability],
            ).fallback,
    {
        let order = ladder(props);
        Attempt { remote, protocol: order.first, fallback: order.fallback }
    }

    /// The protocol failed to open. Where a protocol is left, it is tried
    /// next, and this error is forgotten; else the address has failed with
    /// `Open` and this error.
    pub fn failed<F>(self, error: IoError) -> (next: Retry<F>)
        ensures
            next == match self.fallback {
                Some(protocol) => Retry::<F>::Next(
                    Attempt { remote: self.remote, protocol, fallback: None },
                ),
                None => Retry::<F>::Failed(Error::Open { source: error }),
            },
    {
        match self.fallback {
            Some(protocol) => Retry::Next(Attempt { remote: self.remote, protocol, fallback: None }),
            None => Retry::Failed(Error::Open { source: error }),
        }
    }

    /// The protocol failed to bind for listening. Where a protocol is left,
    /// it is tried next, and this error is forgotten; else the listener has
    /// failed with `Bind` and this error.
    pub fn bind_failed<F>(self, error: IoError) -> (next: Retry<F>)
        ensures
            next == match self.fallback {
                Some(protocol) => Retry::<F>::Next(
                    Attempt { remote: self.remote, protocol, fallback: None },
                ),
                None => Retry::<F>::Failed(Error::Bind { source: error }),
            },
    {
        match self.fallback {
            Some(protocol) => Retry::Next(Attempt { remote: self.remote, protocol, fallback: None }),
            None => Retry::Failed(Error::Bind { source: error }),
        }
    }

    /// The protocol is open. `local` is the address on this side, or the
    /// reason why it could not be read: then the attempt has failed with
    /// `Open`, whatever is left to try.
    pub fn opened<F>(self, local: Result<SocketAddress, IoError>) -> (r: Result<
        Connecting,
        Error<F>,
    >)
        ensures
            r == match local {
                Ok(addr) => Ok::<Connecting, Error<F>>(
                    Connecting { protocol: self.protocol, local: addr, remote: self.remote },
                ),
                Err(e) => Err::<Connecting, Error<F>>(Error::Open { source: e }),
            },
    {
        match local {
            Ok(addr) => Ok(Connecting { protocol: self.protocol, local: addr, remote: self.remote }),
            Err(e) => Err(Error::Open { source: e }),
        }
    }
}

/// The first of the addresses that an endpoint resolved to. An endpoint that
/// resolved to nothing fails with `NoEndpoint`.
pub fn first_address<F>(addrs: &Vec<SocketAddress>) -> (r: Result<SocketAddress, Error<F>>)
    ensures
        r == if addrs@.len() > 0 {
            Ok::<SocketAddress, Error<F>>(addrs@[0])
        } else {
            Err::<SocketAddress, Error<F>>(Error::NoEndpoint { source: None })
        },
{
    if addrs.len() > 0 {
        Ok(addrs[0])
    } else {
        Err(Error::NoEndpoint { source: None })
    }
}

/// The error of an endpoint that did not resolve: `Resolve` with the
/// resolver's error.
pub fn resolve_failed<F>(error: crate::resolve::Error) -> (e: Error<F>)
    ensures
        e == (Error::<F>::Resolve { source: Box::new(error) }),
{
    Error::Resolve { source: crate::error::box_error(error) }
}

} // verus!
