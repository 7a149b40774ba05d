//! Endpoints and their resolution into network addresses.
//!
//! Looking a host name up is the caller's work. An endpoint says what is to
//! be done ([`Endpoint::resolve`]); once the caller has the addresses of a
//! host, or the reason why it has none, [`finish_lookup`] makes the result.

use vstd::prelude::*;

verus! {

/// The kind of a failure that the operating system reported.
#[derive(Debug, Clone, Copy, PartialEq, Eq, Structural)]
pub enum IoErrorKind {
    NotFound,
    PermissionDenied,
    ConnectionRefused,
    ConnectionReset,
    ConnectionAborted,
    NotConnected,
    AddrInUse,
    AddrNotAvailable,
    BrokenPipe,
    TimedOut,
    UnexpectedEof,
    Other,
}

/// A failure that the operating system reported: its kind, and its message
/// for a reader.
#[derive(Debug, Clone, PartialEq, Eq)]
pub struct IoError {
    pub kind: IoErrorKind,
    pub message: String,
}

/// An IP address, as a number: 32 bits for version 4, 128 bits for
/// version 6, the first byte of the address in the highest place.
#[derive(Debug, Clone, Copy, PartialEq, Eq, Hash, Structural)]
pub enum IpAddress {
    V4(u32),
    V6(u128),
}

/// A network address: an IP address and a port.
#[derive(Debug, Clone, Copy, PartialEq, Eq, Hash, Structural)]
pub struct SocketAddress {
    pub ip: IpAddress,
    pub port: u16,
}

/// Why an endpoint did not resolve.
#[derive(Debug, Clone, PartialEq, Eq)]
pub enum Error {
    /// There is no endpoint to resolve.
    MissingEndpoint,
    /// The lookup failed.
    Io { source: IoError },
    /// The task that made the lookup did not finish; `message` says why.
    Join { message: String },
}

/// What is to be done to resolve an endpoint.
#[derive(Debug, Clone, PartialEq, Eq)]
pub enum Resolution {
    /// Nothing: these are the addresses.
    Addresses(Vec<SocketAddress>),
    /// The host is to be looked up, and each of its addresses paired with
    /// the port.
    Lookup { host: String, port: u16 },
}

/// What a [`Resolution`] holds.
pub enum ResolutionView {
    Addresses(Seq<SocketAddress>),
    Lookup { host: Seq<char>, port: u16 },
}

impl View for Resolution {
    type V = ResolutionView;

    open spec fn view(&self) -> ResolutionView {
        match self {
            Resolution::Addresses(addrs) => ResolutionView::Addresses(addrs@),
            Resolution::Lookup { host, port } => ResolutionView::Lookup { host: host@, port: *port },
        }
    }
}

/// A reference to a network location that is not resolved yet.
pub trait Endpoint: Sized {
    /// Whether `resolve` returns `r`.
    open spec fn resolves(&self, r: Result<Resolution, Error>) -> bool {
        true
    }

    /// What is to be done to resolve this endpoint, or why it cannot be
    /// resolved.
    fn resolve(self) -> (r: Result<Resolution, Error>)
        ensures
            self.resolves(r),
    ;
}

/// A network address resolves to itself.
impl Endpoint for SocketAddress {
    open spec fn resolves(&self, r: Result<Resolution, Error>) -> bool {
        r matches Ok(plan) && plan@ == ResolutionView::Addresses(seq![*self])
    }

    fn resolve(self) -> (r: Result<Resolution, Error>) {
        let addrs = vec![self];
        assert(addrs@ =~= seq![self]);
        Ok(Resolution::Addresses(addrs))
    }
}

/// The absent endpoint does not resolve.
impl Endpoint for () {
    open spec fn resolves(&self, r: Result<Resolution, Error>) -> bool {
        r == Err::<Resolution, Error>(Error::MissingEndpoint)
    }

    fn resolve(self) -> (r: Result<Resolution, Error>) {
        Err(Error::MissingEndpoint)
    }
}

/// A host name and a port resolve to the addresses of the host, each with
/// the port.
impl Endpoint for (String, u16) {
    open spec fn resolves(&self, r: Result<Resolution, Error>) -> bool {
        r matches Ok(plan) && plan@ == (ResolutionView::Lookup { host: self.0@, port: self.1 })
    }

    fn resolve(self) -> (r: Result<Resolution, Error>) {
        Ok(Resolution::Lookup { host: self.0, port: self.1 })
    }
}

impl<'a> Endpoint for (&'a str, u16) {
    open spec fn resolves(&self, r: Result<Resolution, Error>) -> bool {
        r matches Ok(plan) && plan@ == (ResolutionView::Lookup { host: self.0@, port: self.1 })
    }

    fn resolve(self) -> (r: Result<Resolution, Error>) {
        Ok(Resolution::Lookup { host: self.0.to_owned(), port: self.1 })
    }
}

/// The addresses of a host: each of its IP addresses with the port, in the
/// order in which the lookup returned them.
pub open spec fn paired(ips: Seq<IpAddress>, port: u16) -> Seq<SocketAddress> {
    Seq::new(ips.len(), |i: int| SocketAddress { ip: ips[i], port })
}

/// Pairs every IP address with the port, in the order given.
pub fn with_port(ips: &Vec<IpAddress>, port: u16) -> (addrs: Vec<SocketAddress>)
    ensures
        addrs@ == paired(ips@, port),
{
    let mut addrs: Vec<SocketAddress> = Vec::new();
    let mut i: usize = 0;
    while i < ips.len()
        invariant
            i <= ips@.len(),
            addrs@ == paired(ips@.take(i as int), port),
        decreases ips@.len() - i,
    {
        addrs.push(SocketAddress { ip: ips[i], port });
        assert(addrs@ =~= paired(ips@.take(i + 1), port));
        i += 1;
    }
    assert(ips@.take(i as int) =~= ips@);
    addrs
}

/// How a lookup ended without addresses.
#[derive(Debug, Clone, PartialEq, Eq)]
pub enum LookupFailure {
    /// The resolver failed.
    Io(IoError),
    /// The task that ran the resolver did not finish.
    Join(String),
}

/// The result of resolving a host and a port, from what the lookup of the
/// host returned.
pub fn finish_lookup(outcome: Result<Vec<IpAddress>, LookupFailure>, port: u16) -> (r: Result<
    Vec<SocketAddress>,
    Error,
>)
    ensures
        match outcome {
            Ok(ips) => r matches Ok(addrs) && addrs@ == paired(ips@, port),
            Err(LookupFailure::Io(e)) => r == Err::<Vec<SocketAddress>, Error>(
                Error::Io { source: e },
            ),
            Err(LookupFailure::Join(m)) => r == Err::<Vec<SocketAddress>, Error>(
                Error::Join { message: m },
            ),
        },
{
    match outcome {
        Ok(ips) => Ok(with_port(&ips, port)),
        Err(LookupFailure::Io(e)) => Err(Error::Io { source: e }),
        Err(LookupFailure::Join(m)) => Err(Error::Join { message: m }),
    }
}

} // verus!
