//! Racing the addresses of an endpoint: every address is tried, each after
//! the delay of its family, and the first transport that opens wins.
//!
//! The attempts run at the caller's. Here are the decisions: when each
//! address starts, and what the race has come to after each attempt that
//! ended.

use core::cmp::Ordering;
use crate::resolve::IoError;
use crate::resolve::IpAddress;
use crate::resolve::SocketAddress;
use crate::transport::Connecting;
use crate::transport::Error;
use vstd::prelude::*;

verus! {

/// The delay, in milliseconds, before an address of IP version 4 is tried.
pub const V4_DELAY_MS: u64 = 5;

/// The delay, in milliseconds, before an address of IP version 6 is tried.
pub const V6_DELAY_MS: u64 = 0;

/// The delay, in milliseconds, before an address is tried: none for IP
/// version 6, a short one for version 4, so that version 6 wins where both
/// are as fast.
pub open spec fn stagger(addr: SocketAddress) -> u64 {
    match addr.ip {
        IpAddress::V4(_) => V4_DELAY_MS,
        IpAddress::V6(_) => V6_DELAY_MS,
    }
}

/// The delay, in milliseconds, before an address is tried.
pub fn add_delay(addr: &SocketAddress) -> (ms: u64)
    ensures
        ms == stagger(*addr),
{
    match addr.ip {
        IpAddress::V4(_) => V4_DELAY_MS,
        IpAddress::V6(_) => V6_DELAY_MS,
    }
}

/// When the attempt on an address ends, in milliseconds from the start of
/// the race, where the attempt itself takes `connect_ms`.
pub open spec fn finish_time(addr: SocketAddress, connect_ms: nat) -> nat {
    stagger(addr) as nat + connect_ms
}

/// An address of IP version 6 whose attempt takes no longer than that on an
/// address of version 4 ends first: in a tie, version 6 wins.
pub proof fn lemma_v6_wins_ties(v6: SocketAddress, v4: SocketAddress, t6: nat, t4: nat)
    requires
        v6.ip is V6,
        v4.ip is V4,
        t6 <= t4,
    ensures
        finish_time(v6, t6) < finish_time(v4, t4),
{
}

/// Orders two addresses by family: version 4 before version 6.
pub fn order_addrs(l: &SocketAddress, r: &SocketAddress) -> (o: Ordering)
    ensures
        o is Equal <==> (l.ip is V4 <==> r.ip is V4),
        o is Less <==> l.ip is V4 && r.ip is V6,
        o is Greater <==> l.ip is V6 && r.ip is V4,
{
    match l.ip {
        IpAddress::V6(_) => match r.ip {
            IpAddress::V4(_) => Ordering::Greater,
            IpAddress::V6(_) => Ordering::Equal,
        },
        IpAddress::V4(_) => match r.ip {
            IpAddress::V4(_) => Ordering::Equal,
            IpAddress::V6(_) => Ordering::Less,
        },
    }
}

/// One runner of a race: an address, and the delay in milliseconds before
/// it is tried.
#[derive(Debug, Clone, Copy, PartialEq, Eq, Structural)]
pub struct Runner {
    pub addr: SocketAddress,
    pub delay_ms: u64,
}

/// The runners for the given addresses, in their order.
pub open spec fn runners(addrs: Seq<SocketAddress>) -> Seq<Runner> {
    Seq::new(addrs.len(), |i: int| Runner { addr: addrs[i], delay_ms: stagger(addrs[i]) })
}

/// The failure that an error holds, if it holds one.
pub open spec fn failure_of<F>(error: Error<F>) -> Option<IoError> {
    match error {
        Error::NoEndpoint { source } => source,
        Error::Open { source } => Some(source),
        Error::Send { source } => Some(source),
        Error::Receive { source } => Some(source),
        Error::Close { source } => Some(source),
        Error::Listen { source } => Some(source),
        Error::Bind { source } => Some(source),
        Error::Resolve { .. } => None,
        Error::Frame { .. } => None,
        Error::Deframe { .. } => None,
    }
}

/// The failure that an error holds, if it holds one.
pub fn into_failure<F>(error: Error<F>) -> (failure: Option<IoError>)
    ensures
        failure == failure_of(error),
{
    match error {
        Error::NoEndpoint { source } => source,
        Error::Open { source } => Some(source),
        Error::Send { source } => Some(source),
        Error::Receive { source } => Some(source),
        Error::Close { source } => Some(source),
        Error::Listen { source } => Some(source),
        Error::Bind { source } => Some(source),
        Error::Resolve { .. } => None,
        Error::Frame { .. } => None,
        Error::Deframe { .. } => None,
    }
}

/// A race that is under way: at least one attempt has not ended, and none
/// has opened a transport.
#[derive(Debug)]
pub struct Race {
    /// How many attempts have not ended.
    pending: usize,
    /// The failure of the attempt that ended last.
    last: Option<IoError>,
}

/// What a race has come to.
#[derive(Debug)]
pub enum Progress<F> {
    /// A transport is open: the race is over, and the attempts that have
    /// not ended are to be dropped.
    Won(Connecting),
    /// No transport is open, and attempts are under way.
    Pending(Race),
    /// Every attempt has failed: the race is over.
    Lost(Error<F>),
}

impl Race {
    /// How many attempts have not ended.
    pub closed spec fn pending(&self) -> nat {
        self.pending as nat
    }

    /// The failure of the attempt that ended last, if one has ended.
    pub closed spec fn last(&self) -> Option<IoError> {
        self.last
    }

    /// A race is under way: an attempt has not ended.
    #[verifier::type_invariant]
    spec fn under_way(&self) -> bool {
        self.pending > 0
    }

    /// How many attempts have not ended.
    pub fn outstanding(&self) -> (n: usize)
        ensures
            n == self.pending(),
    {
        self.pending
    }

    /// An attempt has ended. The first transport that opens wins. A failure
    /// leaves the race under way while attempts are; with the last attempt
    /// the race is lost, and the result is `NoEndpoint` with the failure of
    /// that attempt.
    pub fn finished<F>(self, outcome: Result<Connecting, Error<F>>) -> (progress: Progress<F>)
        ensures
            self.pending() > 0,
            match outcome {
                Ok(transport) => progress matches Progress::Won(won) && won == transport,
                Err(e) => if self.pending() == 1 {
                    progress matches Progress::Lost(lost) && lost == (Error::<F>::NoEndpoint {
                        source: failure_of(e),
                    })
                } else {
                    progress matches Progress::Pending(race) && race.pending() == self.pending() - 1
                        && race.last() == failure_of(e)
                },
            },
    {
        proof {
            use_type_invariant(&self);
        }
        match outcome {
            Ok(transport) => Progress::Won(transport),
            Err(e) => {
                let failure = into_failure(e);
                if self.pending == 1 {
                    Progress::Lost(Error::NoEndpoint { source: failure })
                } else {
                    Progress::Pending(Race { pending: self.pending - 1, last: failure })
                }
            },
        }
    }
}

/// Starts a race over the given addresses: the runners, one for each
/// address and in their order, and the race with all of them under way.
/// Without an address there is no race: the result is `NoEndpoint`.
pub fn race<F>(addrs: &Vec<SocketAddress>) -> (r: Result<(Race, Vec<Runner>), Error<F>>)
    ensures
        addrs@.len() == 0 ==> r == Err::<(Race, Vec<Runner>), Error<F>>(
            Error::NoEndpoint { source: None },
        ),
        addrs@.len() > 0 ==> (r matches Ok((race, plan)) && plan@ == runners(addrs@)
            && race.pending() == addrs@.len() && race.last() is None),
{
    if addrs.len() == 0 {
        return Err(Error::NoEndpoint { source: None });
    }
    let mut plan: Vec<Runner> = Vec::new();
    let mut i: usize = 0;
    while i < addrs.len()
        invariant
            i <= addrs@.len(),
            plan@ == runners(addrs@.take(i as int)),
        decreases addrs@.len() - i,
    {
        plan.push(Runner { addr: addrs[i], delay_ms: add_delay(&addrs[i]) });
        assert(plan@ =~= runners(addrs@.take(i + 1)));
        i += 1;
    }
    assert(addrs@.take(i as int) =~= addrs@);
    Ok((Race { pending: addrs.len(), last: None }, plan))
}

} // verus!
