//! Decoding a raw datagram into the view the probing core reads: the outer
//! IPv4 header's source address and arrival TTL, and the ICMP type and code
//! carried in its payload.
//!
//! The byte-level work is pnet_packet's; its exact behaviour on a buffer is
//! written out below as spec functions, so that everything built on a decoded
//! reply rests on what that crate actually computes.

use pnet_packet::Packet;
use vstd::prelude::*;

verus! {

/// The decoded view of one received datagram: the outer IPv4 source address
/// (big-endian numeric form), the TTL the packet arrived with, and the ICMP
/// type and code found at the start of the IPv4 payload.
#[derive(Clone, Copy, Debug, PartialEq, Eq, Structural)]
pub struct DecodedReply {
    pub src: u32,
    pub ttl: u8,
    pub icmp_type: u8,
    pub icmp_code: u8,
}

/// The 16-bit big-endian integer at offset `i` of `b`.
pub open spec fn be16(b: Seq<u8>, i: int) -> int {
    b[i] * 256 + b[i + 1]
}

/// The 32-bit big-endian integer at offset `i` of `b`.
pub open spec fn be32(b: Seq<u8>, i: int) -> int {
    ((b[i] * 256 + b[i + 1]) * 256 + b[i + 2]) * 256 + b[i + 3]
}

/// The IPv4 header length in bytes: four times the low nibble of the first
/// byte. pnet_packet trusts this field as it stands, so the spec does too.
pub open spec fn ipv4_header_len(b: Seq<u8>) -> int {
    4 * (b[0] % 16)
}

/// Where the IPv4 payload starts: the 20 fixed header bytes plus the options,
/// whose length pnet_packet computes as `header_len - 20`, saturating at zero.
pub open spec fn ipv4_payload_start(b: Seq<u8>) -> int {
    if ipv4_header_len(b) >= 20 {
        ipv4_header_len(b)
    } else {
        20
    }
}

/// The payload length the header claims: the total-length field minus the
/// header length, saturating at zero.
pub open spec fn ipv4_payload_claimed_len(b: Seq<u8>) -> int {
    if be16(b, 2) >= ipv4_header_len(b) {
        be16(b, 2) - ipv4_header_len(b)
    } else {
        0
    }
}

/// The IPv4 payload as pnet_packet slices it: empty when the buffer ends at
/// or before the payload start, otherwise from the start up to the claimed
/// length, clipped to the buffer's end.
pub open spec fn ipv4_payload(b: Seq<u8>) -> Seq<u8> {
    let start = ipv4_payload_start(b);
    let end = if start + ipv4_payload_claimed_len(b) <= b.len() {
        start + ipv4_payload_claimed_len(b)
    } else {
        b.len() as int
    };
    if b.len() <= start {
        Seq::<u8>::empty()
    } else {
        b.subrange(start, end)
    }
}

/// What decoding a received buffer yields: `None` unless the buffer holds at
/// least a minimal IPv4 header (20 bytes) whose payload holds at least a
/// minimal ICMP header (4 bytes); otherwise the source address from bytes
/// 12..16, the TTL from byte 8, and the ICMP type and code from the first
/// two payload bytes.
pub open spec fn spec_decode(b: Seq<u8>) -> Option<DecodedReply> {
    if b.len() < 20 {
        None
    } else {
        let p = ipv4_payload(b);
        if p.len() < 4 {
            None
        } else {
            Some(
                DecodedReply {
                    src: be32(b, 12) as u32,
                    ttl: b[8],
                    icmp_type: p[0],
                    icmp_code: p[1],
                },
            )
        }
    }
}

/// Relies on pnet_packet: `Ipv4Packet::new` accepts any buffer of at least
/// 20 bytes; `get_source` reads bytes 12..16 big-endian, `get_ttl` byte 8;
/// `payload` slices from the options' end up to the claimed total length,
/// clipped to the buffer; `IcmpPacket::new` accepts a payload of at least
/// 4 bytes, and `get_icmp_type` / `get_icmp_code` read its first two bytes.
#[verifier::external_body]
fn decode_via_pnet(buf: &Vec<u8>) -> (r: Option<DecodedReply>)
    ensures
        r == spec_decode(buf@),
{
    let ip = pnet_packet::ipv4::Ipv4Packet::new(buf)?;
    let icmp = pnet_packet::icmp::IcmpPacket::new(ip.payload())?;
    Some(DecodedReply {
        src: u32::from(ip.get_source()),
        ttl: ip.get_ttl(),
        icmp_type: icmp.get_icmp_type().0,
        icmp_code: icmp.get_icmp_code().0,
    })
}

/// Decode one received datagram into the view the classifier reads.
/// Malformed or truncated buffers yield `None`, never an error: a raw
/// socket receives foreign traffic too, and such a datagram is simply
/// irrelevant to the probe.
pub fn decode_datagram(buf: &Vec<u8>) -> (r: Option<DecodedReply>)
    ensures
        r == spec_decode(buf@),
{
    decode_via_pnet(buf)
}

} // verus!
