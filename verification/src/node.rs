//! The data model of a probing run: addresses, observed path nodes, and the
//! decoration pass that fills in resolved host names.

use vstd::prelude::*;

verus! {

/// An IP address held as plain integer values: an IPv4 address as its
/// 32-bit big-endian numeric form, an IPv6 address as its 128-bit form.
#[derive(Clone, Copy, Debug, PartialEq, Eq, Structural)]
pub enum IpAddress {
    V4(u32),
    V6(u128),
}

/// Both addresses belong to the same address family.
pub open spec fn same_family(a: IpAddress, b: IpAddress) -> bool {
    (a is V4 && b is V4) || (a is V6 && b is V6)
}

impl IpAddress {
    pub fn is_ipv4(&self) -> (r: bool)
        ensures
            r == (*self is V4),
    {
        match self {
            IpAddress::V4(_) => true,
            IpAddress::V6(_) => false,
        }
    }

    pub fn is_ipv6(&self) -> (r: bool)
        ensures
            r == (*self is V6),
    {
        match self {
            IpAddress::V4(_) => false,
            IpAddress::V6(_) => true,
        }
    }
}

/// Source and destination must share an address family before any probe is
/// sent; a mismatch is a fatal configuration error.
pub fn families_match(a: &IpAddress, b: &IpAddress) -> (r: bool)
    ensures
        r == same_family(*a, *b),
{
    match (a, b) {
        (IpAddress::V4(_), IpAddress::V4(_)) => true,
        (IpAddress::V6(_), IpAddress::V6(_)) => true,
        _ => false,
    }
}

/// What kind of hop a node is.
#[derive(Clone, Copy, Debug, PartialEq, Eq, Structural)]
pub enum NodeType {
    DefaultGateway,
    Relay,
    Destination,
}

/// One observed hop or destination. `seq` is the sequence number (ping) or
/// the TTL of the probe that elicited the reply (trace). `hop` is the hop
/// distance: TTL consumed for packet replies, absent for TCP probes. `rtt`
/// is the send-to-reply latency in milliseconds. `host_name` starts empty;
/// the decoration pass after a run fills it in.
#[derive(Clone, Debug)]
pub struct Node {
    pub seq: u32,
    pub ip_addr: IpAddress,
    pub host_name: String,
    pub hop: Option<u8>,
    pub node_type: NodeType,
    pub rtt: u64,
}

/// Everything a node states except its host name, which only the
/// decoration pass touches. Contracts of the probing core speak of nodes
/// through this view.
pub struct NodeView {
    pub seq: u32,
    pub ip_addr: IpAddress,
    pub hop: Option<u8>,
    pub node_type: NodeType,
    pub rtt: u64,
}

impl View for Node {
    type V = NodeView;

    open spec fn view(&self) -> NodeView {
        NodeView {
            seq: self.seq,
            ip_addr: self.ip_addr,
            hop: self.hop,
            node_type: self.node_type,
            rtt: self.rtt,
        }
    }
}

/// The views of a run's nodes, in discovery order.
pub open spec fn views_of(s: Seq<Node>) -> Seq<NodeView> {
    s.map_values(|n: Node| n@)
}

/// Every node's host name is still the empty default.
pub open spec fn names_empty(s: Seq<Node>) -> bool {
    forall|i: int| 0 <= i < s.len() ==> (#[trigger] s[i].host_name)@ == Seq::<char>::empty()
}

/// The decoration pass: give each collected node its resolved host name
/// (or the numeric fallback the caller chose), leaving every other field
/// as the run produced it.
pub fn decorate(nodes: Vec<Node>, names: &Vec<String>) -> (r: Vec<Node>)
    requires
        nodes@.len() == names@.len(),
    ensures
        r@.len() == nodes@.len(),
        forall|i: int| 0 <= i < r@.len() ==> #[trigger] r@[i]@ == nodes@[i]@,
        forall|i: int| 0 <= i < r@.len() ==> (#[trigger] r@[i].host_name)@ == names@[i]@,
{
    let mut out: Vec<Node> = Vec::new();
    let n = nodes.len();
    let mut i: usize = 0;
    while i < n
        invariant
            n == nodes@.len() == names@.len(),
            i <= n,
            out@.len() == i as int,
            forall|j: int| 0 <= j < i as int ==> #[trigger] out@[j]@ == nodes@[j]@,
            forall|j: int| 0 <= j < i as int ==> (#[trigger] out@[j].host_name)@ == names@[j]@,
        decreases n - i,
    {
        let src = &nodes[i];
        let decorated = Node {
            seq: src.seq,
            ip_addr: src.ip_addr,
            host_name: names[i].clone(),
            hop: src.hop,
            node_type: src.node_type,
            rtt: src.rtt,
        };
        out.push(decorated);
        i = i + 1;
    }
    out
}

} // verus!
