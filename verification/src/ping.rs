//! The ping engine: a fixed destination probed `count` times, each iteration
//! sending one probe and waiting a bounded time for a matching reply.
//!
//! The engine is a pure state machine. The caller performs the sends and
//! receives and hands the engine one `ProbeObservation` per iteration;
//! `ping_step` decides what it means. `ping_fold` is the mathematical model
//! of a whole run, and every run-level contract speaks through it.

use vstd::prelude::*;
use vstd::string::StringExecFns;
use crate::node::{
    IpAddress, Node, NodeType, NodeView, same_family, families_match, views_of, names_empty,
};
use crate::classify::{spec_classify, classify, Classification};
use crate::probe::{ProbeReply, ProbeObservation};

verus! {

/// The probing protocol of a ping run.
#[derive(Clone, Copy, Debug, PartialEq, Eq, Structural)]
pub enum Protocol {
    Icmpv4,
    Icmpv6,
    Tcp,
    Udp,
}

/// The immutable configuration of one ping run. All durations are in
/// milliseconds: `ping_timeout` bounds the whole run, `receive_timeout`
/// bounds each iteration's wait, `send_rate` is the pause between probes.
#[derive(Clone, Copy, Debug)]
pub struct Pinger {
    pub src_ip: IpAddress,
    pub dst_ip: IpAddress,
    pub dst_port: u16,
    pub protocol: Protocol,
    pub ttl: u8,
    pub count: u32,
    pub ping_timeout: u64,
    pub receive_timeout: u64,
    pub send_rate: u64,
}

/// Exit status of a ping run.
#[derive(Clone, Copy, Debug, PartialEq, Eq, Structural)]
pub enum PingStatus {
    Done,
    Error,
    Timeout,
}

/// Result of a ping run: the nodes in discovery order, the exit status, and
/// the elapsed time (milliseconds) observed at the start of the last
/// iteration the run reached.
#[derive(Clone, Debug)]
pub struct PingResult {
    pub results: Vec<Node>,
    pub status: PingStatus,
    pub probe_time: u64,
}

/// The mathematical model of a run in progress: the views of the collected
/// nodes, the status, the elapsed time last observed, and whether the run
/// has halted before exhausting its iterations.
#[verifier::ext_equal]
pub struct PingModel {
    pub nodes: Seq<NodeView>,
    pub status: PingStatus,
    pub probe_time: u64,
    pub halted: bool,
}

/// The hop distance a reply's arrival TTL witnesses: the TTL the probe was
/// sent with minus the TTL it came back with, floored at zero.
pub open spec fn spec_hop_distance(sent_ttl: u8, reply_ttl: u8) -> u8 {
    if reply_ttl <= sent_ttl {
        (sent_ttl - reply_ttl) as u8
    } else {
        0
    }
}

/// Compute the hop distance of a reply.
pub fn hop_distance(sent_ttl: u8, reply_ttl: u8) -> (h: u8)
    ensures
        h == spec_hop_distance(sent_ttl, reply_ttl),
{
    if reply_ttl <= sent_ttl {
        sent_ttl - reply_ttl
    } else {
        0
    }
}

/// Whether an observation's reply satisfies the protocol's match rule, within
/// the per-packet window:
/// - ICMP ping accepts an Echo Reply whose source is the configured
///   destination;
/// - UDP ping accepts a Destination Unreachable whose reporting source is not
///   the local source address (a raw socket can observe its own traffic);
/// - TCP ping accepts only a connect success;
/// and in every case the reply must have arrived strictly within
/// `receive_timeout`.
pub open spec fn spec_reply_matches(p: Pinger, rep: ProbeReply) -> bool {
    match rep {
        ProbeReply::Packet { reply, rtt } => rtt < p.receive_timeout && match p.protocol {
            Protocol::Icmpv4 => spec_classify(reply.icmp_type) is EchoReply && p.dst_ip
                == IpAddress::V4(reply.src),
            Protocol::Icmpv6 => spec_classify(reply.icmp_type) is EchoReply && p.dst_ip
                == IpAddress::V4(reply.src),
            Protocol::Udp => spec_classify(reply.icmp_type) is DestinationUnreachable
                && p.src_ip != IpAddress::V4(reply.src),
            Protocol::Tcp => false,
        },
        ProbeReply::Connected { rtt } => p.protocol is Tcp && rtt < p.receive_timeout,
    }
}

/// Decide whether a gathered reply matches the run's protocol rule.
pub fn reply_matches(p: &Pinger, rep: &ProbeReply) -> (r: bool)
    ensures
        r == spec_reply_matches(*p, *rep),
{
    match rep {
        ProbeReply::Packet { reply, rtt } => {
            if !(*rtt < p.receive_timeout) {
                return false;
            }
            let c = classify(reply.icmp_type);
            match p.protocol {
                Protocol::Icmpv4 | Protocol::Icmpv6 => match c {
                    Classification::EchoReply => p.dst_ip == IpAddress::V4(reply.src),
                    _ => false,
                },
                Protocol::Udp => match c {
                    Classification::DestinationUnreachable => !(p.src_ip == IpAddress::V4(
                        reply.src,
                    )),
                    _ => false,
                },
                Protocol::Tcp => false,
            }
        },
        ProbeReply::Connected { rtt } => {
            let is_tcp = match p.protocol {
                Protocol::Tcp => true,
                _ => false,
            };
            is_tcp && *rtt < p.receive_timeout
        },
    }
}

/// The node a matching reply yields at sequence number `seq`. A packet reply
/// names the reporting source and witnesses a hop distance; a TCP connect
/// names the destination itself and has no hop semantics. Either way the
/// node is the run's destination from the prober's point of view.
pub open spec fn spec_node_view(p: Pinger, seq: u32, rep: ProbeReply) -> NodeView {
    match rep {
        ProbeReply::Packet { reply, rtt } => NodeView {
            seq,
            ip_addr: IpAddress::V4(reply.src),
            hop: Some(spec_hop_distance(p.ttl, reply.ttl)),
            node_type: NodeType::Destination,
            rtt,
        },
        ProbeReply::Connected { rtt } => NodeView {
            seq,
            ip_addr: p.dst_ip,
            hop: None,
            node_type: NodeType::Destination,
            rtt,
        },
    }
}

fn make_node(p: &Pinger, seq: u32, rep: &ProbeReply) -> (n: Node)
    ensures
        n@ == spec_node_view(*p, seq, *rep),
        n.host_name@ == Seq::<char>::empty(),
{
    match rep {
        ProbeReply::Packet { reply, rtt } => Node {
            seq,
            ip_addr: IpAddress::V4(reply.src),
            host_name: String::new(),
            hop: Some(hop_distance(p.ttl, reply.ttl)),
            node_type: NodeType::Destination,
            rtt: *rtt,
        },
        ProbeReply::Connected { rtt } => Node {
            seq,
            ip_addr: p.dst_ip,
            host_name: String::new(),
            hop: None,
            node_type: NodeType::Destination,
            rtt: *rtt,
        },
    }
}

/// One engine step at sequence number `seq`, given the state the run was in.
/// The overall deadline is checked first, with the elapsed time observed at
/// the iteration's start: once it has passed, the run halts as a timeout and
/// keeps what it has. Otherwise a matching reply appends exactly one node,
/// and anything else is a silent miss.
pub open spec fn spec_ping_step(
    p: Pinger,
    prev: PingModel,
    o: ProbeObservation,
    seq: u32,
) -> PingModel {
    if o.elapsed > p.ping_timeout {
        PingModel { nodes: prev.nodes, status: PingStatus::Timeout, probe_time: o.elapsed, halted: true }
    } else {
        match o.reply {
            Some(rep) => if spec_reply_matches(p, rep) {
                PingModel {
                    nodes: prev.nodes.push(spec_node_view(p, seq, rep)),
                    status: prev.status,
                    probe_time: o.elapsed,
                    halted: prev.halted,
                }
            } else {
                PingModel { nodes: prev.nodes, status: prev.status, probe_time: o.elapsed, halted: prev.halted }
            },
            None => PingModel { nodes: prev.nodes, status: prev.status, probe_time: o.elapsed, halted: prev.halted },
        }
    }
}

/// The model of a run after its first `upto` iterations: iteration `k`
/// (1-based) consumes `obs[k - 1]`, and a halted run ignores what follows.
pub open spec fn ping_fold(p: Pinger, obs: Seq<ProbeObservation>, upto: int) -> PingModel
    decreases upto,
{
    if upto <= 0 {
        PingModel { nodes: Seq::empty(), status: PingStatus::Done, probe_time: 0, halted: false }
    } else {
        let prev = ping_fold(p, obs, upto - 1);
        if prev.halted {
            prev
        } else {
            spec_ping_step(p, prev, obs[upto - 1], upto as u32)
        }
    }
}

/// How many iterations a run begins: one per configured attempt, bounded by
/// the observations available.
pub open spec fn run_len(count: u32, available: int) -> int {
    if available < count {
        available
    } else {
        count as int
    }
}

/// The evolving state of a ping run: `iter` iterations have been consumed.
pub struct PingState {
    pub iter: u32,
    pub nodes: Vec<Node>,
    pub probe_time: u64,
    pub status: PingStatus,
    pub halted: bool,
}

impl PingState {
    /// The mathematical model of this state.
    pub open spec fn model(&self) -> PingModel {
        PingModel {
            nodes: views_of(self.nodes@),
            status: self.status,
            probe_time: self.probe_time,
            halted: self.halted,
        }
    }

    /// The state before the first iteration.
    pub fn init() -> (s: PingState)
        ensures
            s.iter == 0,
            s.model() == ping_fold(arbitrary(), arbitrary(), 0),
            names_empty(s.nodes@),
    {
        let s = PingState {
            iter: 0,
            nodes: Vec::new(),
            probe_time: 0,
            status: PingStatus::Done,
            halted: false,
        };
        proof {
            assert(s.model() =~= ping_fold(arbitrary(), arbitrary(), 0));
        }
        s
    }
}

/// Consume one iteration's observation. The caller drives the run: it sends
/// the probe, gathers at most one candidate reply within the per-packet
/// window, and stops as soon as the state reports `halted` or `iter` reaches
/// the configured count.
pub fn ping_step(p: &Pinger, st: PingState, o: &ProbeObservation) -> (r: PingState)
    requires
        !st.halted,
        st.iter < p.count,
        names_empty(st.nodes@),
    ensures
        r.model() == spec_ping_step(*p, st.model(), *o, (st.iter + 1) as u32),
        r.iter == st.iter + 1,
        names_empty(r.nodes@),
{
    let ghost old_model = st.model();
    let mut r = st;
    r.iter = r.iter + 1;
    if o.elapsed > p.ping_timeout {
        r.status = PingStatus::Timeout;
        r.probe_time = o.elapsed;
        r.halted = true;
    } else {
        r.probe_time = o.elapsed;
        match &o.reply {
            Some(rep) => {
                if reply_matches(p, rep) {
                    let n = make_node(p, r.iter, rep);
                    r.nodes.push(n);
                }
            },
            None => {},
        }
    }
    proof {
        assert(r.model() =~= spec_ping_step(*p, old_model, *o, (st.iter + 1) as u32));
    }
    r
}

/// Run a whole ping from its per-iteration observations. Returns an error
/// exactly when the source and destination address families differ (the one
/// configuration rule checked before any probing); otherwise the result is
/// precisely what the run model says of the observations, with every host
/// name left empty for the decoration pass.
pub fn ping(pinger: &Pinger, observations: &Vec<ProbeObservation>) -> (r: Result<
    PingResult,
    String,
>)
    ensures
        r is Ok <==> same_family(pinger.src_ip, pinger.dst_ip),
        r matches Ok(pr) ==> {
            let m = ping_fold(
                *pinger,
                observations@,
                run_len(pinger.count, observations@.len() as int),
            );
            &&& views_of(pr.results@) == m.nodes
            &&& pr.status == m.status
            &&& pr.probe_time == m.probe_time
            &&& names_empty(pr.results@)
        },
{
    if !families_match(&pinger.src_ip, &pinger.dst_ip) {
        return Err(String::from_str("mismatched address family"));
    }
    let total: usize = observations.len();
    let count: usize = pinger.count as usize;
    let limit: usize = if count < total {
        count
    } else {
        total
    };
    let mut st = PingState::init();
    proof {
        assert(st.model() =~= ping_fold(*pinger, observations@, 0));
    }
    let mut i: usize = 0;
    while i < limit && !st.halted
        invariant
            limit as int == run_len(pinger.count, observations@.len() as int),
            limit <= observations@.len(),
            limit <= pinger.count,
            i <= limit,
            st.iter as int == i as int,
            st.model() == ping_fold(*pinger, observations@, i as int),
            names_empty(st.nodes@),
        decreases limit - i,
    {
        let o = &observations[i];
        st = ping_step(pinger, st, o);
        i = i + 1;
    }
    proof {
        if st.halted {
            lemma_ping_fold_halted_stable(*pinger, observations@, i as int, limit as int);
        }
        assert(st.model() == ping_fold(*pinger, observations@, limit as int));
    }
    Ok(PingResult { results: st.nodes, status: st.status, probe_time: st.probe_time })
}

/// Once a run has halted, the iterations that never ran change nothing.
pub proof fn lemma_ping_fold_halted_stable(
    p: Pinger,
    obs: Seq<ProbeObservation>,
    i: int,
    j: int,
)
    requires
        0 <= i <= j,
        ping_fold(p, obs, i).halted,
    ensures
        ping_fold(p, obs, j) == ping_fold(p, obs, i),
    decreases j - i,
{
    if j > i {
        lemma_ping_fold_halted_stable(p, obs, i, j - 1);
    }
}

/// The returned node list never outgrows the iterations begun (so never the
/// configured attempt count), and the nodes' sequence numbers are the
/// 1-based indices of their iterations: strictly increasing, hence unique.
pub proof fn lemma_ping_nodes_sequential(p: Pinger, obs: Seq<ProbeObservation>, upto: int)
    requires
        0 <= upto <= u32::MAX,
    ensures
        ping_fold(p, obs, upto).nodes.len() <= upto,
        forall|i: int|
            0 <= i < ping_fold(p, obs, upto).nodes.len() ==> 1 <= (
            #[trigger] ping_fold(p, obs, upto).nodes[i]).seq <= upto,
        forall|i: int, j: int|
            0 <= i < j < ping_fold(p, obs, upto).nodes.len() ==> ping_fold(
                p,
                obs,
                upto,
            ).nodes[i].seq < ping_fold(p, obs, upto).nodes[j].seq,
    decreases upto,
{
    if upto > 0 {
        lemma_ping_nodes_sequential(p, obs, upto - 1);
    }
}

/// Every collected node's round-trip time lies strictly below the per-packet
/// timeout (and is nonnegative by its type).
pub proof fn lemma_ping_rtt_bounded(p: Pinger, obs: Seq<ProbeObservation>, upto: int)
    requires
        0 <= upto,
    ensures
        forall|i: int|
            0 <= i < ping_fold(p, obs, upto).nodes.len() ==> (
            #[trigger] ping_fold(p, obs, upto).nodes[i]).rtt < p.receive_timeout,
    decreases upto,
{
    if upto > 0 {
        lemma_ping_rtt_bounded(p, obs, upto - 1);
    }
}

/// A run that never halted saw every iteration start within the overall
/// timeout, and its status is `Done`.
pub proof fn lemma_ping_no_timeout(p: Pinger, obs: Seq<ProbeObservation>, upto: int)
    requires
        0 <= upto,
        !ping_fold(p, obs, upto).halted,
    ensures
        ping_fold(p, obs, upto).status is Done,
        forall|k: int| 0 <= k < upto ==> (#[trigger] obs[k]).elapsed <= p.ping_timeout,
    decreases upto,
{
    if upto > 0 {
        lemma_ping_no_timeout(p, obs, upto - 1);
    }
}

/// A run halts early only because the overall timeout elapsed at the start
/// of some iteration; it then reports `Timeout`, carries that iteration's
/// elapsed time, and preserves every node collected so far.
pub proof fn lemma_ping_timeout_preserves(p: Pinger, obs: Seq<ProbeObservation>, upto: int)
    requires
        0 <= upto,
        ping_fold(p, obs, upto).halted,
    ensures
        ping_fold(p, obs, upto).status is Timeout,
        exists|k: int|
            0 <= k < upto && (#[trigger] obs[k]).elapsed > p.ping_timeout && ping_fold(
                p,
                obs,
                upto,
            ).nodes == ping_fold(p, obs, k).nodes && ping_fold(p, obs, upto).probe_time == obs[k].elapsed,
    decreases upto,
{
    if upto > 0 {
        let prev = ping_fold(p, obs, upto - 1);
        if prev.halted {
            lemma_ping_timeout_preserves(p, obs, upto - 1);
            let k = choose|k: int|
                0 <= k < upto - 1 && (#[trigger] obs[k]).elapsed > p.ping_timeout && ping_fold(
                    p,
                    obs,
                    upto - 1,
                ).nodes == ping_fold(p, obs, k).nodes && ping_fold(p, obs, upto - 1).probe_time
                    == obs[k].elapsed;
            assert(0 <= k < upto && obs[k].elapsed > p.ping_timeout && ping_fold(
                p,
                obs,
                upto,
            ).nodes == ping_fold(p, obs, k).nodes && ping_fold(p, obs, upto).probe_time
                == obs[k].elapsed);
        } else {
            let k = upto - 1;
            assert(0 <= k < upto && obs[k].elapsed > p.ping_timeout && ping_fold(
                p,
                obs,
                upto,
            ).nodes == ping_fold(p, obs, k).nodes && ping_fold(p, obs, upto).probe_time
                == obs[k].elapsed);
        }
    }
}

} // verus!
