//! What one probing iteration hands the engine: the elapsed time observed at
//! the iteration's start, and at most one reply gathered within the
//! per-packet window.

use vstd::prelude::*;
use crate::packet::{spec_decode, decode_datagram, DecodedReply};

verus! {

/// One gathered reply. `rtt` is the send-to-reply latency in milliseconds:
/// for `Packet` the wait until the decoded datagram arrived, for `Connected`
/// the TCP connect latency.
#[derive(Clone, Copy, Debug, PartialEq, Eq, Structural)]
pub enum ProbeReply {
    Packet { reply: DecodedReply, rtt: u64 },
    Connected { rtt: u64 },
}

/// What one iteration observed: `elapsed` is the time since the run started,
/// in milliseconds, measured at the iteration's start; `reply` is the first
/// candidate reply gathered within the per-packet window, or `None` for a
/// silent miss.
#[derive(Clone, Copy, Debug, PartialEq, Eq, Structural)]
pub struct ProbeObservation {
    pub elapsed: u64,
    pub reply: Option<ProbeReply>,
}

/// Turn one received datagram into a candidate reply: `None` exactly when
/// the buffer does not decode as an IPv4 datagram carrying an ICMP header.
pub fn packet_reply(buf: &Vec<u8>, rtt: u64) -> (r: Option<ProbeReply>)
    ensures
        r == match spec_decode(buf@) {
            Some(d) => Some(ProbeReply::Packet { reply: d, rtt }),
            None => None::<ProbeReply>,
        },
{
    match decode_datagram(buf) {
        Some(d) => Some(ProbeReply::Packet { reply: d, rtt }),
        None => None,
    }
}

} // verus!
