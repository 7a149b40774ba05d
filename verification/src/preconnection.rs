//! A preconnection: what is known of a connection before it is made. It
//! gathers the endpoints, the transport properties and the framer.
//!
//! The types of the two endpoints say which of them is given: a connection
//! can only be initiated once the remote endpoint is, and a listener only be
//! made once the local one is.

use crate::codec::frame::Framer;
use crate::connection::Failure;
use crate::error::box_error;
use crate::properties::TransportProperties;
use crate::resolve::Endpoint;
use vstd::prelude::*;

verus! {

/// The state of one of a preconnection's endpoints: given, or not given.
pub trait EndpointState {

}

/// The endpoint that is not given.
#[derive(Debug, Copy, Clone, Eq, PartialEq, Hash)]
pub struct NoEndpoint;

impl EndpointState for NoEndpoint {

}

impl<T: Endpoint> EndpointState for T {

}

/// What is known of a connection before it is made.
///
/// `F` is the framer of the connections that come of it, `L` the local
/// endpoint and `R` the remote one; each of the two is [`NoEndpoint`] until
/// it is given.
#[derive(Debug)]
pub struct Preconnection<F, L, R> where F: Framer, L: EndpointState, R: EndpointState {
    local: L,
    remote: R,
    framer: F,
    trans: TransportProperties,
}

/// What it takes to initiate a connection.
#[derive(Debug)]
pub struct Initiate<F, L, R> {
    /// The framer of the connection.
    pub framer: F,
    /// The local endpoint, where one is given.
    pub local: Option<L>,
    /// The remote endpoint.
    pub remote: R,
    /// The properties by which the transport is selected.
    pub props: TransportProperties,
}

/// What it takes to listen for connections.
#[derive(Debug)]
pub struct Listen<F, L, R> {
    /// The framer of which every connection gets a fresh copy.
    pub framer: F,
    /// The local endpoint.
    pub local: L,
    /// The remote endpoint, where one is given.
    pub remote: Option<R>,
    /// The properties by which the transport is selected.
    pub props: TransportProperties,
}

impl<F: Framer> Preconnection<F, NoEndpoint, NoEndpoint> {
    /// A preconnection without endpoints.
    pub fn new(props: TransportProperties, framer: F) -> (pre: Self)
        ensures
            pre.framer() == framer,
            pre.properties() == props,
    {
        Preconnection { local: NoEndpoint, remote: NoEndpoint, trans: props, framer }
    }
}

impl<F: Framer, L: EndpointState, R: EndpointState> Preconnection<F, L, R> {
    /// The local endpoint, or [`NoEndpoint`].
    pub closed spec fn local(&self) -> L {
        self.local
    }

    /// The remote endpoint, or [`NoEndpoint`].
    pub closed spec fn remote(&self) -> R {
        self.remote
    }

    /// The framer.
    pub closed spec fn framer(&self) -> F {
        self.framer
    }

    /// The transport properties.
    pub closed spec fn properties(&self) -> TransportProperties {
        self.trans
    }

    /// Gives the local endpoint. Nothing is resolved here.
    pub fn local_endpoint<N: Endpoint>(self, local: N) -> (pre: Preconnection<F, N, R>)
        ensures
            pre.local() == local,
            pre.remote() == self.remote(),
            pre.framer() == self.framer(),
            pre.properties() == self.properties(),
    {
        Preconnection { local, remote: self.remote, trans: self.trans, framer: self.framer }
    }

    /// Gives the remote endpoint. Nothing is resolved here.
    pub fn remote_endpoint<N: Endpoint>(self, remote: N) -> (pre: Preconnection<F, L, N>)
        ensures
            pre.local() == self.local(),
            pre.remote() == remote,
            pre.framer() == self.framer(),
            pre.properties() == self.properties(),
    {
        Preconnection { local: self.local, remote, trans: self.trans, framer: self.framer }
    }

    /// The transport properties.
    pub fn transport_properties(&self) -> (props: &TransportProperties)
        ensures
            *props == self.properties(),
    {
        &self.trans
    }

    /// The transport properties, to change them.
    pub fn transport_properties_mut(&mut self) -> (props: &mut TransportProperties)
        ensures
            *props == old(self).properties(),
            final(self).properties() == *final(props),
            final(self).local() == old(self).local(),
            final(self).remote() == old(self).remote(),
            final(self).framer() == old(self).framer(),
    {
        &mut self.trans
    }
}

impl<F: Framer, R: Endpoint> Preconnection<F, NoEndpoint, R> {
    /// What it takes to initiate the connection: framer, remote endpoint
    /// and properties as they were given, and no local endpoint.
    pub fn initiate(self) -> (plan: Initiate<F, (), R>)
        ensures
            plan.framer == self.framer(),
            plan.local is None,
            plan.remote == self.remote(),
            plan.props == self.properties(),
    {
        Initiate { framer: self.framer, local: None, remote: self.remote, props: self.trans }
    }
}

impl<F: Framer, L: Endpoint> Preconnection<F, L, NoEndpoint> {
    /// What it takes to listen: framer, local endpoint and properties as
    /// they were given, and no remote endpoint.
    pub fn listen(self) -> (plan: Listen<F, L, ()>)
        ensures
            plan.framer == self.framer(),
            plan.local == self.local(),
            plan.remote is None,
            plan.props == self.properties(),
    {
        Listen { framer: self.framer, local: self.local, remote: None, props: self.trans }
    }
}

impl<F: Framer, L: Endpoint, R: Endpoint> Preconnection<F, L, R> {
    /// What it takes to listen: framer, endpoints and properties as they
    /// were given.
    pub fn listen(self) -> (plan: Listen<F, L, R>)
        ensures
            plan.framer == self.framer(),
            plan.local == self.local(),
            plan.remote == Some(self.remote()),
            plan.props == self.properties(),
    {
        Listen {
            framer: self.framer,
            local: self.local,
            remote: Some(self.remote),
            props: self.trans,
        }
    }

    /// What it takes to initiate the connection: framer, endpoints and
    /// properties as they were given.
    pub fn initiate(self) -> (plan: Initiate<F, L, R>)
        ensures
            plan.framer == self.framer(),
            plan.local == Some(self.local()),
            plan.remote == self.remote(),
            plan.props == self.properties(),
    {
        Initiate {
            framer: self.framer,
            local: Some(self.local),
            remote: self.remote,
            props: self.trans,
        }
    }
}

/// The error of a connection that could not be initiated: `Initiate` with
/// the cause.
pub fn initiate_failed<F: Framer>(error: crate::transport::Error<F::Error>) -> (failure: Failure<F>)
    ensures
        failure == (crate::error::Error::Initiate { source: Box::new(error) }),
{
    crate::error::Error::Initiate { source: box_error(error) }
}

/// The error of a listener that could not be made: `Listen` with the cause.
pub fn listen_failed<F: Framer>(error: crate::transport::Error<F::Error>) -> (failure: Failure<F>)
    ensures
        failure == (crate::error::Error::Listen { source: Box::new(error) }),
{
    crate::error::Error::Listen { source: box_error(error) }
}

} // verus!
