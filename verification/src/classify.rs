//! The reply classifier: what a decoded ICMP message type means to a probe.

use vstd::prelude::*;

verus! {

/// ICMP message type number of an Echo Reply.
pub const ICMP_ECHO_REPLY: u8 = 0;

/// ICMP message type number of Destination Unreachable.
pub const ICMP_DESTINATION_UNREACHABLE: u8 = 3;

/// ICMP message type number of Time Exceeded.
pub const ICMP_TIME_EXCEEDED: u8 = 11;

/// The tagged outcome of classifying one decoded reply. Anything that is
/// none of the three meaningful kinds is `Irrelevant`: the receive loop must
/// keep waiting, since a raw socket also sees foreign traffic.
#[derive(Clone, Copy, Debug, PartialEq, Eq, Structural)]
pub enum Classification {
    EchoReply,
    TimeExceeded,
    DestinationUnreachable,
    Irrelevant,
}

/// What each ICMP type number classifies as.
pub open spec fn spec_classify(icmp_type: u8) -> Classification {
    if icmp_type == ICMP_ECHO_REPLY {
        Classification::EchoReply
    } else if icmp_type == ICMP_TIME_EXCEEDED {
        Classification::TimeExceeded
    } else if icmp_type == ICMP_DESTINATION_UNREACHABLE {
        Classification::DestinationUnreachable
    } else {
        Classification::Irrelevant
    }
}

/// Classify a decoded ICMP message type.
pub fn classify(icmp_type: u8) -> (c: Classification)
    ensures
        c == spec_classify(icmp_type),
{
    if icmp_type == ICMP_ECHO_REPLY {
        Classification::EchoReply
    } else if icmp_type == ICMP_TIME_EXCEEDED {
        Classification::TimeExceeded
    } else if icmp_type == ICMP_DESTINATION_UNREACHABLE {
        Classification::DestinationUnreachable
    } else {
        Classification::Irrelevant
    }
}

} // verus!
