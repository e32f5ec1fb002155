//! The hop walker: one UDP probe per TTL from 1 upward, reading the ICMP
//! errors the probes elicit. A Time Exceeded names an intermediate router
//! (deduplicated across the run); a Destination Unreachable names the final
//! destination and ends the walk early.

use vstd::prelude::*;
use vstd::string::StringExecFns;
use crate::node::{
    IpAddress, Node, NodeType, NodeView, same_family, families_match, views_of, names_empty,
};
use crate::classify::{spec_classify, classify, Classification};
use crate::probe::{ProbeReply, ProbeObservation};
use crate::ping::run_len;

verus! {

/// The base UDP destination port of the walk; the probe for TTL `t` goes to
/// `BASE_DST_PORT + t`, the port convention traceroute-aware middleboxes
/// expect.
pub const BASE_DST_PORT: u16 = 33435;

/// The UDP destination port of the probe sent with the given TTL.
pub fn trace_dst_port(ttl: u8) -> (p: u16)
    ensures
        p == BASE_DST_PORT + ttl,
{
    BASE_DST_PORT + (ttl as u16)
}

/// Exit status of a trace run.
#[derive(Clone, Copy, Debug, PartialEq, Eq, Structural)]
pub enum TraceStatus {
    Done,
    Error,
    Timeout,
}

/// Result of a trace run: the nodes in discovery order, the exit status, and
/// the elapsed time (milliseconds) observed at the start of the last
/// iteration the run reached.
#[derive(Clone, Debug)]
pub struct TraceResult {
    pub nodes: Vec<Node>,
    pub status: TraceStatus,
    pub probe_time: u64,
}

/// The mathematical model of a trace run in progress.
#[verifier::ext_equal]
pub struct TraceModel {
    pub nodes: Seq<NodeView>,
    pub status: TraceStatus,
    pub probe_time: u64,
    pub halted: bool,
}

/// Some collected node already carries this reporting source address.
pub open spec fn seen_ip(nodes: Seq<NodeView>, src: u32) -> bool {
    exists|i: int| 0 <= i < nodes.len() && (#[trigger] nodes[i]).ip_addr == IpAddress::V4(src)
}

/// The node one hop's reply yields: the probe's TTL is both the sequence
/// index and the hop distance. A Destination Unreachable names the
/// destination; a Time Exceeded names the default gateway at TTL 1 and a
/// relay elsewhere.
pub open spec fn spec_trace_node(ttl: u8, src: u32, rtt: u64, destination: bool) -> NodeView {
    NodeView {
        seq: ttl as u32,
        ip_addr: IpAddress::V4(src),
        hop: Some(ttl),
        node_type: if destination {
            NodeType::Destination
        } else if ttl == 1 {
            NodeType::DefaultGateway
        } else {
            NodeType::Relay
        },
        rtt,
    }
}

/// One hop of the walk, probing with `ttl`. The overall deadline is checked
/// first; past it the run halts as a timeout and keeps what it has. A reply
/// within the per-packet window then means:
/// - Time Exceeded: an intermediate router; appended unless its source
///   address was already collected (a retransmitted error adds nothing);
/// - Destination Unreachable: the destination; always appended (exempt from
///   the dedup), and the walk completes early;
/// - anything else, a miss or an undecodable datagram: no node this hop.
pub open spec fn spec_trace_step(
    receive_timeout: u64,
    trace_timeout: u64,
    prev: TraceModel,
    o: ProbeObservation,
    ttl: u8,
) -> TraceModel {
    if o.elapsed > trace_timeout {
        TraceModel {
            nodes: prev.nodes,
            status: TraceStatus::Timeout,
            probe_time: o.elapsed,
            halted: true,
        }
    } else {
        match o.reply {
            Some(ProbeReply::Packet { reply, rtt }) => if rtt < receive_timeout {
                match spec_classify(reply.icmp_type) {
                    Classification::TimeExceeded => if seen_ip(prev.nodes, reply.src) {
                        TraceModel {
                            nodes: prev.nodes,
                            status: prev.status,
                            probe_time: o.elapsed,
                            halted: prev.halted,
                        }
                    } else {
                        TraceModel {
                            nodes: prev.nodes.push(spec_trace_node(ttl, reply.src, rtt, false)),
                            status: prev.status,
                            probe_time: o.elapsed,
                            halted: prev.halted,
                        }
                    },
                    Classification::DestinationUnreachable => TraceModel {
                        nodes: prev.nodes.push(spec_trace_node(ttl, reply.src, rtt, true)),
                        status: prev.status,
                        probe_time: o.elapsed,
                        halted: true,
                    },
                    _ => TraceModel {
                        nodes: prev.nodes,
                        status: prev.status,
                        probe_time: o.elapsed,
                        halted: prev.halted,
                    },
                }
            } else {
                TraceModel {
                    nodes: prev.nodes,
                    status: prev.status,
                    probe_time: o.elapsed,
                    halted: prev.halted,
                }
            },
            _ => TraceModel {
                nodes: prev.nodes,
                status: prev.status,
                probe_time: o.elapsed,
                halted: prev.halted,
            },
        }
    }
}

/// The model of a walk after its first `upto` hops: hop `t` (its TTL,
/// 1-based) consumes `obs[t - 1]`, and a halted walk ignores what follows.
pub open spec fn trace_fold(
    receive_timeout: u64,
    trace_timeout: u64,
    obs: Seq<ProbeObservation>,
    upto: int,
) -> TraceModel
    decreases upto,
{
    if upto <= 0 {
        TraceModel {
            nodes: Seq::empty(),
            status: TraceStatus::Done,
            probe_time: 0,
            halted: false,
        }
    } else {
        let prev = trace_fold(receive_timeout, trace_timeout, obs, upto - 1);
        if prev.halted {
            prev
        } else {
            spec_trace_step(receive_timeout, trace_timeout, prev, obs[upto - 1], upto as u8)
        }
    }
}

/// Whether any collected node already carries this reporting source address.
fn nodes_contain_ip(nodes: &Vec<Node>, src: u32) -> (r: bool)
    ensures
        r == seen_ip(views_of(nodes@), src),
{
    let n = nodes.len();
    let mut i: usize = 0;
    while i < n
        invariant
            n == nodes@.len(),
            i <= n,
            forall|j: int|
                0 <= j < i as int ==> (#[trigger] views_of(nodes@)[j]).ip_addr != IpAddress::V4(
                    src,
                ),
        decreases n - i,
    {
        if nodes[i].ip_addr == IpAddress::V4(src) {
            assert(views_of(nodes@)[i as int].ip_addr == IpAddress::V4(src));
            return true;
        }
        i = i + 1;
    }
    false
}

/// The evolving state of a trace run: `ttl` hops have been consumed.
pub struct TraceState {
    pub ttl: u8,
    pub nodes: Vec<Node>,
    pub probe_time: u64,
    pub status: TraceStatus,
    pub halted: bool,
}

impl TraceState {
    /// The mathematical model of this state.
    pub open spec fn model(&self) -> TraceModel {
        TraceModel {
            nodes: views_of(self.nodes@),
            status: self.status,
            probe_time: self.probe_time,
            halted: self.halted,
        }
    }

    /// The state before the first hop.
    pub fn init() -> (s: TraceState)
        ensures
            s.ttl == 0,
            s.model() == trace_fold(arbitrary(), arbitrary(), arbitrary(), 0),
            names_empty(s.nodes@),
    {
        let s = TraceState {
            ttl: 0,
            nodes: Vec::new(),
            probe_time: 0,
            status: TraceStatus::Done,
            halted: false,
        };
        proof {
            assert(s.model() =~= trace_fold(arbitrary(), arbitrary(), arbitrary(), 0));
        }
        s
    }
}

fn make_trace_node(ttl: u8, src: u32, rtt: u64, destination: bool) -> (n: Node)
    ensures
        n@ == spec_trace_node(ttl, src, rtt, destination),
        n.host_name@ == Seq::<char>::empty(),
{
    Node {
        seq: ttl as u32,
        ip_addr: IpAddress::V4(src),
        host_name: String::new(),
        hop: Some(ttl),
        node_type: if destination {
            NodeType::Destination
        } else if ttl == 1 {
            NodeType::DefaultGateway
        } else {
            NodeType::Relay
        },
        rtt,
    }
}

/// Consume one hop's observation. The caller drives the walk: it sets the
/// probe's TTL to `st.ttl + 1`, sends to `trace_dst_port` of that TTL,
/// gathers at most one candidate reply, and stops as soon as the state
/// reports `halted` or the TTL reaches the configured maximum.
pub fn trace_step(
    receive_timeout: u64,
    trace_timeout: u64,
    st: TraceState,
    o: &ProbeObservation,
) -> (r: TraceState)
    requires
        !st.halted,
        st.ttl < u8::MAX,
        names_empty(st.nodes@),
    ensures
        r.model() == spec_trace_step(
            receive_timeout,
            trace_timeout,
            st.model(),
            *o,
            (st.ttl + 1) as u8,
        ),
        r.ttl == st.ttl + 1,
        names_empty(r.nodes@),
{
    let ghost old_model = st.model();
    let mut r = st;
    r.ttl = r.ttl + 1;
    if o.elapsed > trace_timeout {
        r.status = TraceStatus::Timeout;
        r.probe_time = o.elapsed;
        r.halted = true;
    } else {
        r.probe_time = o.elapsed;
        match &o.reply {
            Some(ProbeReply::Packet { reply, rtt }) => {
                if *rtt < receive_timeout {
                    match classify(reply.icmp_type) {
                        Classification::TimeExceeded => {
                            if !nodes_contain_ip(&r.nodes, reply.src) {
                                let n = make_trace_node(r.ttl, reply.src, *rtt, false);
                                r.nodes.push(n);
                            }
                        },
                        Classification::DestinationUnreachable => {
                            let n = make_trace_node(r.ttl, reply.src, *rtt, true);
                            r.nodes.push(n);
                            r.halted = true;
                        },
                        _ => {},
                    }
                }
            },
            _ => {},
        }
    }
    proof {
        assert(r.model() =~= spec_trace_step(
            receive_timeout,
            trace_timeout,
            old_model,
            *o,
            (st.ttl + 1) as u8,
        ));
    }
    r
}

/// Walk the route from its per-hop observations. Returns an error exactly
/// when the source and destination address families differ; otherwise the
/// result is precisely what the walk model says of the observations, with
/// every host name left empty for the decoration pass.
pub fn trace_route(
    src_ip: IpAddress,
    dst_ip: IpAddress,
    max_hop: u8,
    trace_timeout: u64,
    receive_timeout: u64,
    observations: &Vec<ProbeObservation>,
) -> (r: Result<TraceResult, String>)
    ensures
        r is Ok <==> same_family(src_ip, dst_ip),
        r matches Ok(tr) ==> {
            let m = trace_fold(
                receive_timeout,
                trace_timeout,
                observations@,
                run_len(max_hop as u32, observations@.len() as int),
            );
            &&& views_of(tr.nodes@) == m.nodes
            &&& tr.status == m.status
            &&& tr.probe_time == m.probe_time
            &&& names_empty(tr.nodes@)
        },
{
    if !families_match(&src_ip, &dst_ip) {
        return Err(String::from_str("mismatched address family"));
    }
    let total: usize = observations.len();
    let hops: usize = max_hop as usize;
    let limit: usize = if hops < total {
        hops
    } else {
        total
    };
    let mut st = TraceState::init();
    proof {
        assert(st.model() =~= trace_fold(receive_timeout, trace_timeout, observations@, 0));
    }
    let mut i: usize = 0;
    while i < limit && !st.halted
        invariant
            limit as int == run_len(max_hop as u32, observations@.len() as int),
            limit <= observations@.len(),
            limit <= max_hop,
            i <= limit,
            st.ttl as int == i as int,
            st.model() == trace_fold(receive_timeout, trace_timeout, observations@, i as int),
            names_empty(st.nodes@),
        decreases limit - i,
    {
        let o = &observations[i];
        st = trace_step(receive_timeout, trace_timeout, st, o);
        i = i + 1;
    }
    proof {
        if st.halted {
            lemma_trace_fold_halted_stable(
                receive_timeout,
                trace_timeout,
                observations@,
                i as int,
                limit as int,
            );
        }
        assert(st.model() == trace_fold(
            receive_timeout,
            trace_timeout,
            observations@,
            limit as int,
        ));
    }
    Ok(TraceResult { nodes: st.nodes, status: st.status, probe_time: st.probe_time })
}

/// The configuration of a trace run. Durations are in milliseconds;
/// `trace_result` collects the nodes of the last run driven through this
/// configuration, if the caller chooses to store them here.
#[derive(Clone, Debug)]
pub struct Tracer {
    /// Source IP address.
    pub src_ip: IpAddress,
    /// Destination IP address.
    pub dst_ip: IpAddress,
    /// Max hop.
    pub max_hop: u8,
    /// Timeout setting for the whole trace.
    pub trace_timeout: u64,
    /// Timeout setting for each packet receive.
    pub receive_timeout: u64,
    /// Packet send rate.
    pub send_rate: u64,
    /// Result of probes.
    pub trace_result: Vec<Node>,
}

impl Tracer {
    /// Build a tracer toward `dst_ip` from the addresses of the default
    /// network interface, as the interface-discovery collaborator reports
    /// them: the first IPv4 address if there is one, else the first IPv6
    /// address, else an error. Every other setting takes its default.
    pub fn new(dst_ip: IpAddress, ipv4_addrs: &Vec<u32>, ipv6_addrs: &Vec<u128>) -> (r: Result<
        Tracer,
        String,
    >)
        ensures
            r is Ok <==> (ipv4_addrs@.len() > 0 || ipv6_addrs@.len() > 0),
            r matches Ok(t) ==> {
                &&& t.dst_ip == dst_ip
                &&& t.src_ip == if ipv4_addrs@.len() > 0 {
                    IpAddress::V4(ipv4_addrs@[0])
                } else {
                    IpAddress::V6(ipv6_addrs@[0])
                }
                &&& t.max_hop == 64
                &&& t.trace_timeout == 30000
                &&& t.receive_timeout == 1000
                &&& t.send_rate == 1000
                &&& t.trace_result@.len() == 0
            },
    {
        let src_ip: IpAddress = if ipv4_addrs.len() > 0 {
            IpAddress::V4(ipv4_addrs[0])
        } else if ipv6_addrs.len() > 0 {
            IpAddress::V6(ipv6_addrs[0])
        } else {
            return Err(String::from_str("Failed to get default interface"));
        };
        Ok(
            Tracer {
                src_ip,
                dst_ip,
                max_hop: 64,
                trace_timeout: 30000,
                receive_timeout: 1000,
                send_rate: 1000,
                trace_result: Vec::new(),
            },
        )
    }

    /// Walk the route with this configuration; see `trace_route`.
    pub fn trace(&self, observations: &Vec<ProbeObservation>) -> (r: Result<TraceResult, String>)
        ensures
            r is Ok <==> same_family(self.src_ip, self.dst_ip),
            r matches Ok(tr) ==> {
                let m = trace_fold(
                    self.receive_timeout,
                    self.trace_timeout,
                    observations@,
                    run_len(self.max_hop as u32, observations@.len() as int),
                );
                &&& views_of(tr.nodes@) == m.nodes
                &&& tr.status == m.status
                &&& tr.probe_time == m.probe_time
                &&& names_empty(tr.nodes@)
            },
    {
        trace_route(
            self.src_ip,
            self.dst_ip,
            self.max_hop,
            self.trace_timeout,
            self.receive_timeout,
            observations,
        )
    }
}

/// Once a walk has halted, the hops that never ran change nothing.
pub proof fn lemma_trace_fold_halted_stable(
    receive_timeout: u64,
    trace_timeout: u64,
    obs: Seq<ProbeObservation>,
    i: int,
    j: int,
)
    requires
        0 <= i <= j,
        trace_fold(receive_timeout, trace_timeout, obs, i).halted,
    ensures
        trace_fold(receive_timeout, trace_timeout, obs, j) == trace_fold(
            receive_timeout,
            trace_timeout,
            obs,
            i,
        ),
    decreases j - i,
{
    if j > i {
        lemma_trace_fold_halted_stable(receive_timeout, trace_timeout, obs, i, j - 1);
    }
}

/// A walk that has not halted has found neither the destination nor a
/// timeout: its status is still `Done` and no collected node is the
/// destination.
pub proof fn lemma_trace_running(
    receive_timeout: u64,
    trace_timeout: u64,
    obs: Seq<ProbeObservation>,
    upto: int,
)
    requires
        0 <= upto,
    ensures
        !trace_fold(receive_timeout, trace_timeout, obs, upto).halted ==> trace_fold(
            receive_timeout,
            trace_timeout,
            obs,
            upto,
        ).status is Done,
        !trace_fold(receive_timeout, trace_timeout, obs, upto).halted ==> forall|i: int|
            0 <= i < trace_fold(receive_timeout, trace_timeout, obs, upto).nodes.len() ==> !((
            #[trigger] trace_fold(receive_timeout, trace_timeout, obs, upto).nodes[i]).node_type
                is Destination),
        !trace_fold(receive_timeout, trace_timeout, obs, upto).halted ==> forall|k: int|
            0 <= k < upto ==> (#[trigger] obs[k]).elapsed <= trace_timeout,
    decreases upto,
{
    if upto > 0 {
        lemma_trace_running(receive_timeout, trace_timeout, obs, upto - 1);
    }
}

/// Hop numbers are the TTLs that elicited the nodes: each node carries its
/// probe's TTL as both sequence index and hop distance, the values lie in
/// `1..=upto`, and they are strictly increasing across the list — a
/// contiguous or sparse subsequence of the probed TTL range, with at most
/// one node per hop.
pub proof fn lemma_trace_hops_increasing(
    receive_timeout: u64,
    trace_timeout: u64,
    obs: Seq<ProbeObservation>,
    upto: int,
)
    requires
        0 <= upto <= u8::MAX,
    ensures
        trace_fold(receive_timeout, trace_timeout, obs, upto).nodes.len() <= upto,
        forall|i: int|
            0 <= i < trace_fold(receive_timeout, trace_timeout, obs, upto).nodes.len() ==> {
                let n = #[trigger] trace_fold(receive_timeout, trace_timeout, obs, upto).nodes[i];
                1 <= n.seq <= upto && n.hop == Some(n.seq as u8)
            },
        forall|i: int, j: int|
            0 <= i < j < trace_fold(receive_timeout, trace_timeout, obs, upto).nodes.len()
                ==> trace_fold(receive_timeout, trace_timeout, obs, upto).nodes[i].seq
                < trace_fold(receive_timeout, trace_timeout, obs, upto).nodes[j].seq,
    decreases upto,
{
    if upto > 0 {
        lemma_trace_hops_increasing(receive_timeout, trace_timeout, obs, upto - 1);
    }
}

/// A destination node is always the last node of the walk, the walk halts
/// with it, and its presence always corresponds to a Destination
/// Unreachable classification of some hop's reply.
pub proof fn lemma_trace_destination_last(
    receive_timeout: u64,
    trace_timeout: u64,
    obs: Seq<ProbeObservation>,
    upto: int,
)
    requires
        0 <= upto,
    ensures
        forall|i: int|
            0 <= i < trace_fold(receive_timeout, trace_timeout, obs, upto).nodes.len() && (
            #[trigger] trace_fold(receive_timeout, trace_timeout, obs, upto).nodes[i]).node_type
                is Destination ==> i == trace_fold(
                receive_timeout,
                trace_timeout,
                obs,
                upto,
            ).nodes.len() - 1,
        forall|i: int|
            0 <= i < trace_fold(receive_timeout, trace_timeout, obs, upto).nodes.len() && (
            #[trigger] trace_fold(receive_timeout, trace_timeout, obs, upto).nodes[i]).node_type
                is Destination ==> exists|k: int|
                {
                    let n = trace_fold(receive_timeout, trace_timeout, obs, upto).nodes[i];
                    &&& 0 <= k < upto
                    &&& (#[trigger] obs[k]).reply matches Some(ProbeReply::Packet { reply, rtt })
                    &&& spec_classify(
                        obs[k].reply->Some_0->Packet_reply.icmp_type,
                    ) is DestinationUnreachable
                    &&& n.ip_addr == IpAddress::V4(obs[k].reply->Some_0->Packet_reply.src)
                    &&& n.rtt == obs[k].reply->Some_0->Packet_rtt
                },
    decreases upto,
{
    lemma_trace_running(receive_timeout, trace_timeout, obs, upto);
    if upto > 0 {
        lemma_trace_destination_last(receive_timeout, trace_timeout, obs, upto - 1);
        lemma_trace_running(receive_timeout, trace_timeout, obs, upto - 1);
    }
}

/// The dedup holds: no two non-destination nodes of one walk share an IP
/// address. (The destination is exempt: it may repeat a relay's address.)
pub proof fn lemma_trace_dedup(
    receive_timeout: u64,
    trace_timeout: u64,
    obs: Seq<ProbeObservation>,
    upto: int,
)
    requires
        0 <= upto,
    ensures
        forall|i: int, j: int|
            0 <= i < j < trace_fold(receive_timeout, trace_timeout, obs, upto).nodes.len() && !((
            #[trigger] trace_fold(receive_timeout, trace_timeout, obs, upto).nodes[j]).node_type
                is Destination) ==> (#[trigger] trace_fold(
                receive_timeout,
                trace_timeout,
                obs,
                upto,
            ).nodes[i]).ip_addr != trace_fold(receive_timeout, trace_timeout, obs, upto).nodes[j].ip_addr,
    decreases upto,
{
    if upto > 0 {
        lemma_trace_dedup(receive_timeout, trace_timeout, obs, upto - 1);
    }
}

/// The default gateway appears only at hop distance 1, never elsewhere.
pub proof fn lemma_trace_gateway_first_hop(
    receive_timeout: u64,
    trace_timeout: u64,
    obs: Seq<ProbeObservation>,
    upto: int,
)
    requires
        0 <= upto,
    ensures
        forall|i: int|
            0 <= i < trace_fold(receive_timeout, trace_timeout, obs, upto).nodes.len() && (
            #[trigger] trace_fold(receive_timeout, trace_timeout, obs, upto).nodes[i]).node_type
                is DefaultGateway ==> trace_fold(
                receive_timeout,
                trace_timeout,
                obs,
                upto,
            ).nodes[i].hop == Some(1u8),
    decreases upto,
{
    if upto > 0 {
        lemma_trace_gateway_first_hop(receive_timeout, trace_timeout, obs, upto - 1);
    }
}

/// Every collected node's round-trip time lies strictly below the
/// per-packet timeout.
pub proof fn lemma_trace_rtt_bounded(
    receive_timeout: u64,
    trace_timeout: u64,
    obs: Seq<ProbeObservation>,
    upto: int,
)
    requires
        0 <= upto,
    ensures
        forall|i: int|
            0 <= i < trace_fold(receive_timeout, trace_timeout, obs, upto).nodes.len() ==> (
            #[trigger] trace_fold(receive_timeout, trace_timeout, obs, upto).nodes[i]).rtt
                < receive_timeout,
    decreases upto,
{
    if upto > 0 {
        lemma_trace_rtt_bounded(receive_timeout, trace_timeout, obs, upto - 1);
    }
}

/// A walk reports `Timeout` only because the overall deadline had passed at
/// the start of some hop; it then carries that hop's elapsed time and
/// preserves every node collected so far.
pub proof fn lemma_trace_timeout_preserves(
    receive_timeout: u64,
    trace_timeout: u64,
    obs: Seq<ProbeObservation>,
    upto: int,
)
    requires
        0 <= upto,
        trace_fold(receive_timeout, trace_timeout, obs, upto).status is Timeout,
    ensures
        trace_fold(receive_timeout, trace_timeout, obs, upto).halted,
        exists|k: int|
            0 <= k < upto && (#[trigger] obs[k]).elapsed > trace_timeout && trace_fold(
                receive_timeout,
                trace_timeout,
                obs,
                upto,
            ).nodes == trace_fold(receive_timeout, trace_timeout, obs, k).nodes && trace_fold(
                receive_timeout,
                trace_timeout,
                obs,
                upto,
            ).probe_time == obs[k].elapsed,
    decreases upto,
{
    lemma_trace_running(receive_timeout, trace_timeout, obs, upto);
    if upto > 0 {
        let prev = trace_fold(receive_timeout, trace_timeout, obs, upto - 1);
        lemma_trace_running(receive_timeout, trace_timeout, obs, upto - 1);
        if prev.status is Timeout {
            lemma_trace_timeout_preserves(receive_timeout, trace_timeout, obs, upto - 1);
            let k = choose|k: int|
                0 <= k < upto - 1 && (#[trigger] obs[k]).elapsed > trace_timeout && trace_fold(
                    receive_timeout,
                    trace_timeout,
                    obs,
                    upto - 1,
                ).nodes == trace_fold(receive_timeout, trace_timeout, obs, k).nodes && trace_fold(
                    receive_timeout,
                    trace_timeout,
                    obs,
                    upto - 1,
                ).probe_time == obs[k].elapsed;
            assert(0 <= k < upto && obs[k].elapsed > trace_timeout && trace_fold(
                receive_timeout,
                trace_timeout,
                obs,
                upto,
            ).nodes == trace_fold(receive_timeout, trace_timeout, obs, k).nodes && trace_fold(
                receive_timeout,
                trace_timeout,
                obs,
                upto,
            ).probe_time == obs[k].elapsed);
        } else {
            let k = upto - 1;
            assert(0 <= k < upto && obs[k].elapsed > trace_timeout && trace_fold(
                receive_timeout,
                trace_timeout,
                obs,
                upto,
            ).nodes == trace_fold(receive_timeout, trace_timeout, obs, k).nodes && trace_fold(
                receive_timeout,
                trace_timeout,
                obs,
                upto,
            ).probe_time == obs[k].elapsed);
        }
    }
}

} // verus!
