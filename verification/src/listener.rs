//! A listener: it turns each transport that comes in into a connection with
//! a framer of its own, as many times as its limit allows.
//!
//! The listening socket is the caller's. The caller hands
//! [`Listener::poll_next`] what each accept returned.

use crate::codec::frame::Framer;
use crate::codec::MakeSimilar;
use crate::connection::Connection;
use crate::connection::Failure;
use crate::error::box_error;
use crate::resolve::IoError;
use crate::resolve::SocketAddress;
use crate::transport::Connecting;
use crate::transport::Protocol;
use vstd::prelude::*;

verus! {

/// A transport that came in: the address of the peer and the address on
/// this side, or why they could not be read.
#[derive(Debug)]
pub struct Accepted {
    pub peer: Result<SocketAddress, IoError>,
    pub local: Result<SocketAddress, IoError>,
}

/// The error of an accept that failed: `Listen` with `Listen`.
pub open spec fn accept_failure<F: Framer>(e: IoError) -> Failure<F> {
    crate::error::Error::Listen { source: Box::new(crate::transport::Error::Listen { source: e }) }
}

/// The error of an accepted transport whose own address could not be read:
/// `Listen` with `Open`.
pub open spec fn open_failure<F: Framer>(e: IoError) -> Failure<F> {
    crate::error::Error::Listen { source: Box::new(crate::transport::Error::Open { source: e }) }
}

/// Whether an accept gave a transport with both its addresses.
pub open spec fn came_in(accept: Result<Accepted, IoError>) -> bool {
    accept matches Ok(Accepted { peer: Ok(_), local: Ok(_) })
}

/// Whether a listener to which `remaining` connections are left (`None` is
/// no limit) yields a connection for an accept, of which `ok` says whether
/// it gave a transport.
pub open spec fn yields(remaining: Option<nat>, ok: bool) -> bool {
    ok && remaining != Some(0nat)
}

/// How many connections are left to the listener after that accept.
pub open spec fn left(remaining: Option<nat>, ok: bool) -> Option<nat> {
    match remaining {
        Some(n) => if yields(remaining, ok) {
            Some((n - 1) as nat)
        } else {
            remaining
        },
        None => None,
    }
}

/// How many connections a listener yields for a run of accepts, of which
/// `accepts[i]` says whether the accept gave a transport.
pub open spec fn yielded(remaining: Option<nat>, accepts: Seq<bool>) -> nat
    decreases accepts.len(),
{
    if accepts.len() == 0 {
        0
    } else {
        let now: nat = if yields(remaining, accepts[0]) { 1 } else { 0 };
        now + yielded(left(remaining, accepts[0]), accepts.drop_first())
    }
}

/// A listener with a limit of `n` yields at most `n` connections, whatever
/// comes in.
pub proof fn lemma_limit_bounds_yield(n: nat, accepts: Seq<bool>)
    ensures
        yielded(Some(n), accepts) <= n,
    decreases accepts.len(),
{
    if accepts.len() > 0 {
        match left(Some(n), accepts[0]) {
            Some(m) => {
                lemma_limit_bounds_yield(m, accepts.drop_first());
            },
            None => {},
        }
    }
}

/// A listener that is bound to its address.
#[derive(Debug)]
pub struct Listener<F> {
    /// How many connections are left to yield; `None` is no limit.
    limit: Option<usize>,
    /// The framer of which every connection gets a fresh copy.
    framer: F,
    protocol: Protocol,
    local: SocketAddress,
    remote: Option<SocketAddress>,
}

impl<F: Framer + MakeSimilar> Listener<F> {
    /// How many connections are left to yield; `None` is no limit.
    pub closed spec fn remaining(&self) -> Option<nat> {
        match self.limit {
            Some(n) => Some(n as nat),
            None => None,
        }
    }

    /// The framer of which every connection gets a fresh copy.
    pub closed spec fn framer(&self) -> F {
        self.framer
    }

    /// The protocol on which the listener listens.
    pub closed spec fn protocol(&self) -> Protocol {
        self.protocol
    }

    /// The address on which the listener listens.
    pub closed spec fn local(&self) -> SocketAddress {
        self.local
    }

    /// The address of the peer that the listener was made for, if any.
    pub closed spec fn remote(&self) -> Option<SocketAddress> {
        self.remote
    }

    /// Whether two listeners differ in what is left to them at most.
    pub open spec fn same_but_limit(&self, other: &Self) -> bool {
        &&& self.framer() == other.framer()
        &&& self.protocol() == other.protocol()
        &&& self.local() == other.local()
        &&& self.remote() == other.remote()
    }

    /// The listener on a socket that has just been bound, without a limit.
    pub fn create(
        protocol: Protocol,
        local: SocketAddress,
        remote: Option<SocketAddress>,
        framer: F,
    ) -> (listener: Self)
        ensures
            listener.remaining() is None,
            listener.framer() == framer,
            listener.protocol() == protocol,
            listener.local() == local,
            listener.remote() == remote,
    {
        Listener { limit: None, framer, protocol, local, remote }
    }

    /// Limits the connections that the listener yields from now on.
    pub fn connection_limit(&mut self, limit: usize)
        ensures
            final(self).remaining() == Some(limit as nat),
            final(self).same_but_limit(old(self)),
    {
        self.limit = Some(limit);
    }

    /// Whether the listener has yielded all the connections that its limit
    /// allows.
    pub fn is_finished(&self) -> (finished: bool)
        ensures
            finished == (self.remaining() == Some(0nat)),
    {
        match self.limit {
            Some(n) => n == 0,
            None => false,
        }
    }

    /// Takes what an accept on the listening socket returned, and yields
    /// the next element of the listener, or `None` where the listener has
    /// come to its end.
    ///
    /// A listener to which no connection is left yields nothing. An accept
    /// that failed, or a transport whose peer could not be read, yields the
    /// error `Listen` with `Listen`; a transport whose own address could
    /// not be read, `Listen` with `Open`. Errors do not count against the
    /// limit. Else the listener yields a connection over the transport,
    /// with a fresh copy of its framer, and one connection fewer is left.
    pub fn poll_next(&mut self, accept: Result<Accepted, IoError>) -> (next: Option<
        Result<Connection<F>, Failure<F>>,
    >)
        ensures
            final(self).same_but_limit(old(self)),
            final(self).remaining() == left(old(self).remaining(), came_in(accept)),
            (next matches Some(Ok(_))) == yields(old(self).remaining(), came_in(accept)),
            old(self).remaining() == Some(0nat) ==> next is None,
            old(self).remaining() != Some(0nat) ==> match accept {
                Err(e) => next matches Some(Err(failure)) && failure == accept_failure::<F>(e),
                Ok(Accepted { peer: Err(e), local: _ }) => next matches Some(Err(failure))
                    && failure == accept_failure::<F>(e),
                Ok(Accepted { peer: Ok(_), local: Err(e) }) => next matches Some(Err(failure))
                    && failure == open_failure::<F>(e),
                Ok(Accepted { peer: Ok(peer), local: Ok(local) }) => next matches Some(Ok(conn))
                    && old(self).framer().is_similar(conn.framer()) && conn.buffered() == Seq::<
                    u8,
                >::empty() && conn.protocol() == old(self).protocol() && conn.local() == local
                    && conn.remote() == peer,
            },
    {
        if self.is_finished() {
            return None;
        }
        let accepted = match accept {
            Ok(accepted) => accepted,
            Err(e) => {
                return Some(
                    Err(
                        crate::error::Error::Listen {
                            source: box_error(crate::transport::Error::Listen { source: e }),
                        },
                    ),
                );
            },
        };
        let peer = match accepted.peer {
            Ok(peer) => peer,
            Err(e) => {
                return Some(
                    Err(
                        crate::error::Error::Listen {
                            source: box_error(crate::transport::Error::Listen { source: e }),
                        },
                    ),
                );
            },
        };
        let local = match accepted.local {
            Ok(local) => local,
            Err(e) => {
                return Some(
                    Err(
                        crate::error::Error::Listen {
                            source: box_error(crate::transport::Error::Open { source: e }),
                        },
                    ),
                );
            },
        };
        let transport = Connecting { protocol: self.protocol, local, remote: peer };
        let conn = Connection::from_existing(transport, self.framer.make_similar());
        match self.limit {
            Some(n) => {
                self.limit = Some(n - 1);
            },
            None => {},
        }
        Some(Ok(conn))
    }

    /// The address on which the listener listens.
    pub fn local_endpoint(&self) -> (addr: SocketAddress)
        ensures
            addr == self.local(),
    {
        self.local
    }

    /// The address of the peer that the listener was made for, if any.
    pub fn remote_endpoint(&self) -> (addr: Option<SocketAddress>)
        ensures
            addr == self.remote(),
    {
        self.remote
    }

    /// The protocol on which the listener listens.
    pub fn transport_protocol(&self) -> (protocol: Protocol)
        ensures
            protocol == self.protocol(),
    {
        self.protocol
    }
}

} // verus!
