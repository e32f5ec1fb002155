use tracert::node::{decorate, families_match, IpAddress, NodeType};
use tracert::packet::DecodedReply;
use tracert::probe::{ProbeObservation, ProbeReply};
use tracert::trace::{trace_dst_port, trace_route, TraceStatus, Tracer, BASE_DST_PORT};

const SRC: IpAddress = IpAddress::V4(0x0A000002);
const DST: IpAddress = IpAddress::V4(0x08080808);

fn time_exceeded_from(src: u32, rtt: u64, elapsed: u64) -> ProbeObservation {
    ProbeObservation {
        elapsed,
        reply: Some(ProbeReply::Packet {
            reply: DecodedReply { src, ttl: 60, icmp_type: 11, icmp_code: 0 },
            rtt,
        }),
    }
}

fn unreachable_from(src: u32, rtt: u64, elapsed: u64) -> ProbeObservation {
    ProbeObservation {
        elapsed,
        reply: Some(ProbeReply::Packet {
            reply: DecodedReply { src, ttl: 60, icmp_type: 3, icmp_code: 3 },
            rtt,
        }),
    }
}

#[test]
fn trace_reaches_destination_early() {
    // Relays answer Time Exceeded for TTLs 1..=3 and the destination answers
    // Destination Unreachable at TTL 4: exactly 4 nodes, the last is the
    // destination, and the walk stops well before max_hop.
    let obs = vec![
        time_exceeded_from(0xC0A80101, 2, 0),
        time_exceeded_from(0x0A0A0A01, 4, 100),
        time_exceeded_from(0x0A0A0B01, 6, 200),
        unreachable_from(0x08080808, 8, 300),
        time_exceeded_from(0x0A0A0C01, 9, 400),
        time_exceeded_from(0x0A0A0D01, 9, 500),
    ];
    let r = trace_route(SRC, DST, 64, 30000, 1000, &obs).unwrap();
    assert!(matches!(r.status, TraceStatus::Done));
    assert_eq!(r.nodes.len(), 4);
    assert!(matches!(r.nodes[0].node_type, NodeType::DefaultGateway));
    assert!(matches!(r.nodes[1].node_type, NodeType::Relay));
    assert!(matches!(r.nodes[2].node_type, NodeType::Relay));
    assert!(matches!(r.nodes[3].node_type, NodeType::Destination));
    assert_eq!(r.nodes[3].ip_addr, IpAddress::V4(0x08080808));
    for (i, n) in r.nodes.iter().enumerate() {
        assert_eq!(n.hop, Some(i as u8 + 1));
        assert_eq!(n.seq, i as u32 + 1);
    }
    assert_eq!(r.probe_time, 300);
}

#[test]
fn trace_deduplicates_repeated_relays() {
    // The relay at TTL 1 answers again at TTL 2: the repeat adds no node,
    // and the hop numbers stay strictly increasing (1, then 3).
    let obs = vec![
        time_exceeded_from(0xC0A80101, 2, 0),
        time_exceeded_from(0xC0A80101, 4, 100),
        time_exceeded_from(0x0A0A0A01, 6, 200),
    ];
    let r = trace_route(SRC, DST, 64, 30000, 1000, &obs).unwrap();
    assert_eq!(r.nodes.len(), 2);
    assert_eq!(r.nodes[0].hop, Some(1));
    assert!(matches!(r.nodes[0].node_type, NodeType::DefaultGateway));
    assert_eq!(r.nodes[1].hop, Some(3));
    assert!(matches!(r.nodes[1].node_type, NodeType::Relay));
    assert_ne!(r.nodes[0].ip_addr, r.nodes[1].ip_addr);
}

#[test]
fn trace_destination_exempt_from_dedup() {
    // The destination always ends the walk, even if its address already
    // answered as a relay.
    let obs = vec![
        time_exceeded_from(0x08080808, 2, 0),
        unreachable_from(0x08080808, 4, 100),
    ];
    let r = trace_route(SRC, DST, 64, 30000, 1000, &obs).unwrap();
    assert_eq!(r.nodes.len(), 2);
    assert!(matches!(r.nodes[1].node_type, NodeType::Destination));
    assert_eq!(r.nodes[0].ip_addr, r.nodes[1].ip_addr);
}

#[test]
fn trace_gateway_only_at_first_hop() {
    // A miss at TTL 1 means the first answering relay sits at hop 2 and is
    // not the default gateway.
    let obs = vec![
        ProbeObservation { elapsed: 0, reply: None },
        time_exceeded_from(0xC0A80101, 2, 100),
    ];
    let r = trace_route(SRC, DST, 64, 30000, 1000, &obs).unwrap();
    assert_eq!(r.nodes.len(), 1);
    assert_eq!(r.nodes[0].hop, Some(2));
    assert!(matches!(r.nodes[0].node_type, NodeType::Relay));
}

#[test]
fn trace_overall_timeout_keeps_partial_results() {
    let obs = vec![
        time_exceeded_from(0xC0A80101, 2, 0),
        time_exceeded_from(0x0A0A0A01, 4, 30001),
    ];
    let r = trace_route(SRC, DST, 64, 30000, 1000, &obs).unwrap();
    assert!(matches!(r.status, TraceStatus::Timeout));
    assert_eq!(r.nodes.len(), 1);
    assert_eq!(r.probe_time, 30001);
}

#[test]
fn trace_slow_reply_is_a_miss() {
    let obs = vec![
        time_exceeded_from(0xC0A80101, 1000, 0),
        time_exceeded_from(0x0A0A0A01, 999, 100),
    ];
    let r = trace_route(SRC, DST, 64, 30000, 1000, &obs).unwrap();
    assert_eq!(r.nodes.len(), 1);
    assert_eq!(r.nodes[0].ip_addr, IpAddress::V4(0x0A0A0A01));
}

#[test]
fn trace_stops_at_max_hop() {
    let obs = vec![
        time_exceeded_from(0xC0A80101, 1, 0),
        time_exceeded_from(0x0A0A0A01, 1, 10),
        time_exceeded_from(0x0A0A0B01, 1, 20),
    ];
    let r = trace_route(SRC, DST, 2, 30000, 1000, &obs).unwrap();
    assert!(matches!(r.status, TraceStatus::Done));
    assert_eq!(r.nodes.len(), 2);
}

#[test]
fn trace_family_mismatch_is_an_error() {
    let r = trace_route(IpAddress::V6(1), DST, 64, 30000, 1000, &vec![]);
    assert!(r.is_err());
}

#[test]
fn tracer_new_prefers_ipv4() {
    let t = Tracer::new(DST, &vec![0x0A000002, 0x0A000003], &vec![7]).unwrap();
    assert_eq!(t.src_ip, IpAddress::V4(0x0A000002));
    assert_eq!(t.dst_ip, DST);
    assert_eq!(t.max_hop, 64);
    assert_eq!(t.trace_timeout, 30000);
    assert_eq!(t.receive_timeout, 1000);
    assert_eq!(t.send_rate, 1000);
    assert!(t.trace_result.is_empty());
}

#[test]
fn tracer_new_falls_back_to_ipv6() {
    let t = Tracer::new(IpAddress::V6(9), &vec![], &vec![7]).unwrap();
    assert_eq!(t.src_ip, IpAddress::V6(7));
}

#[test]
fn tracer_new_without_addresses_is_an_error() {
    assert!(Tracer::new(DST, &vec![], &vec![]).is_err());
}

#[test]
fn tracer_trace_runs_the_walk() {
    let t = Tracer::new(DST, &vec![0x0A000002], &vec![]).unwrap();
    let obs = vec![
        time_exceeded_from(0xC0A80101, 2, 0),
        unreachable_from(0x08080808, 4, 100),
    ];
    let r = t.trace(&obs).unwrap();
    assert_eq!(r.nodes.len(), 2);
    assert!(matches!(r.nodes[1].node_type, NodeType::Destination));
}

#[test]
fn trace_port_convention() {
    assert_eq!(BASE_DST_PORT, 33435);
    assert_eq!(trace_dst_port(1), 33436);
    assert_eq!(trace_dst_port(64), 33499);
}

#[test]
fn decorate_fills_host_names() {
    let obs = vec![
        time_exceeded_from(0xC0A80101, 2, 0),
        unreachable_from(0x08080808, 4, 100),
    ];
    let r = trace_route(SRC, DST, 64, 30000, 1000, &obs).unwrap();
    assert_eq!(r.nodes[0].host_name, String::new());
    let names = vec![String::from("gateway.local"), String::from("dns.example")];
    let decorated = decorate(r.nodes, &names);
    assert_eq!(decorated[0].host_name, "gateway.local");
    assert_eq!(decorated[1].host_name, "dns.example");
    assert_eq!(decorated[0].hop, Some(1));
    assert_eq!(decorated[1].ip_addr, IpAddress::V4(0x08080808));
    assert!(matches!(decorated[1].node_type, NodeType::Destination));
}

#[test]
fn ip_address_family_helpers() {
    let v4 = IpAddress::V4(1);
    let v6 = IpAddress::V6(1);
    assert!(v4.is_ipv4() && !v4.is_ipv6());
    assert!(v6.is_ipv6() && !v6.is_ipv4());
    assert!(families_match(&v4, &IpAddress::V4(2)));
    assert!(families_match(&v6, &IpAddress::V6(2)));
    assert!(!families_match(&v4, &v6));
}
