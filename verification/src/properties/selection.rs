//! The properties by which a transport is selected.

use vstd::prelude::*;

verus! {

/// A property of a transport that an application may ask for or against.
#[derive(Debug, Clone, Copy, Eq, PartialEq, Hash, Structural)]
pub enum SelectionProperty {
    /// Reliable data transfer: all data arrives, uncorrupted, and the
    /// application learns when the connection is closed or aborted.
    Reliability,
    /// Reliability that can be set message by message.
    PerMsgReliability,
    /// Preservation of message boundaries.
    PreserveMsgBoundaries,
    /// Preservation of data ordering.
    PreserveOrder,
    /// 0-RTT session establishment with an idempotent message.
    ZeroRttMsg,
    /// Connections of a group as streams of one underlying connection.
    Multistreaming,
    /// Full checksum coverage on sending.
    PerMsgChecksumLenSend,
    /// Full checksum coverage on receiving.
    PerMsgChecksumLenRecv,
    /// Congestion control.
    CongestionControl,
    /// Interface instance or type.
    Interface,
    /// Provisioning domain instance or type.
    Pvd,
    /// Parallel use of multiple paths.
    Multipath,
    /// Notification of excessive retransmissions.
    RetransmitNotify,
    /// Notification of ICMP soft error message arrival.
    SoftErrorNotify,
}

/// How many selection properties there are.
pub const PROPERTY_COUNT: usize = 14;

impl SelectionProperty {
    /// The property's place among the properties, from 0.
    pub open spec fn ordinal(self) -> int {
        match self {
            SelectionProperty::Reliability => 0,
            SelectionProperty::PerMsgReliability => 1,
            SelectionProperty::PreserveMsgBoundaries => 2,
            SelectionProperty::PreserveOrder => 3,
            SelectionProperty::ZeroRttMsg => 4,
            SelectionProperty::Multistreaming => 5,
            SelectionProperty::PerMsgChecksumLenSend => 6,
            SelectionProperty::PerMsgChecksumLenRecv => 7,
            SelectionProperty::CongestionControl => 8,
            SelectionProperty::Interface => 9,
            SelectionProperty::Pvd => 10,
            SelectionProperty::Multipath => 11,
            SelectionProperty::RetransmitNotify => 12,
            SelectionProperty::SoftErrorNotify => 13,
        }
    }

    /// The property's place among the properties, from 0.
    pub fn index(self) -> (i: usize)
        ensures
            i == self.ordinal(),
            i < PROPERTY_COUNT,
    {
        match self {
            SelectionProperty::Reliability => 0,
            SelectionProperty::PerMsgReliability => 1,
            SelectionProperty::PreserveMsgBoundaries => 2,
            SelectionProperty::PreserveOrder => 3,
            SelectionProperty::ZeroRttMsg => 4,
            SelectionProperty::Multistreaming => 5,
            SelectionProperty::PerMsgChecksumLenSend => 6,
            SelectionProperty::PerMsgChecksumLenRecv => 7,
            SelectionProperty::CongestionControl => 8,
            SelectionProperty::Interface => 9,
            SelectionProperty::Pvd => 10,
            SelectionProperty::Multipath => 11,
            SelectionProperty::RetransmitNotify => 12,
            SelectionProperty::SoftErrorNotify => 13,
        }
    }
}

/// No two properties share a place.
pub proof fn lemma_ordinal_injective(a: SelectionProperty, b: SelectionProperty)
    requires
        a.ordinal() == b.ordinal(),
    ensures
        a == b,
{
}

} // verus!
