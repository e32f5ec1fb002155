use tracert::classify::{classify, Classification};
use tracert::packet::decode_datagram;
use tracert::probe::{packet_reply, ProbeReply};

/// A minimal IPv4 datagram: 20-byte header (no options) carrying an ICMP
/// header of `icmp_len` bytes that starts with `icmp_type`.
fn ipv4_icmp_bytes(src: [u8; 4], ttl: u8, icmp_type: u8, icmp_len: u8) -> Vec<u8> {
    let total = 20 + icmp_len as usize;
    let mut b = vec![0u8; total];
    b[0] = 0x45; // version 4, header length 5 words
    b[2] = (total >> 8) as u8;
    b[3] = (total & 0xff) as u8;
    b[8] = ttl;
    b[12] = src[0];
    b[13] = src[1];
    b[14] = src[2];
    b[15] = src[3];
    if icmp_len > 0 {
        b[20] = icmp_type;
    }
    b
}

#[test]
fn classify_meaningful_types() {
    assert_eq!(classify(0), Classification::EchoReply);
    assert_eq!(classify(11), Classification::TimeExceeded);
    assert_eq!(classify(3), Classification::DestinationUnreachable);
}

#[test]
fn classify_other_types_irrelevant() {
    assert_eq!(classify(8), Classification::Irrelevant);
    assert_eq!(classify(5), Classification::Irrelevant);
    assert_eq!(classify(255), Classification::Irrelevant);
}

#[test]
fn decode_well_formed_datagram() {
    let b = ipv4_icmp_bytes([192, 168, 1, 1], 60, 11, 8);
    let d = decode_datagram(&b).expect("well-formed datagram must decode");
    assert_eq!(d.src, 0xC0A80101);
    assert_eq!(d.ttl, 60);
    assert_eq!(d.icmp_type, 11);
    assert_eq!(d.icmp_code, 0);
}

#[test]
fn decode_short_buffer_is_none() {
    let b = vec![0x45u8; 19];
    assert!(decode_datagram(&b).is_none());
}

#[test]
fn decode_truncated_icmp_is_none() {
    // The header claims 8 payload bytes but only 2 are present: too short
    // for an ICMP header.
    let mut b = ipv4_icmp_bytes([10, 0, 0, 1], 64, 3, 8);
    b.truncate(22);
    assert!(decode_datagram(&b).is_none());
}

#[test]
fn decode_header_only_is_none() {
    let b = ipv4_icmp_bytes([10, 0, 0, 1], 64, 0, 0);
    assert!(decode_datagram(&b).is_none());
}

#[test]
fn packet_reply_carries_decoded_fields() {
    let b = ipv4_icmp_bytes([8, 8, 8, 8], 55, 0, 8);
    match packet_reply(&b, 42) {
        Some(ProbeReply::Packet { reply, rtt }) => {
            assert_eq!(reply.src, 0x08080808);
            assert_eq!(reply.ttl, 55);
            assert_eq!(reply.icmp_type, 0);
            assert_eq!(rtt, 42);
        }
        other => panic!("expected a packet reply, got {:?}", other),
    }
}

#[test]
fn packet_reply_none_on_garbage() {
    let b = vec![1u8, 2, 3];
    assert!(packet_reply(&b, 1).is_none());
}
