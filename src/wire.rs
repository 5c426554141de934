//! The layout of the three headers that the classifier reads (Ethernet,
//! IPv4, UDP), and the calls into pnet that decode them.

use pnet::packet::ethernet::EthernetPacket;
use pnet::packet::ipv4::Ipv4Packet;
use pnet::packet::udp::UdpPacket;
use pnet::packet::Packet;
use vstd::prelude::*;

verus! {

/// Length of an Ethernet header: two addresses and the EtherType.
pub const ETHERNET_HEADER_LEN: usize = 14;

/// Length of an IPv4 header without options.
pub const IPV4_MIN_HEADER_LEN: usize = 20;

/// Length of a UDP header.
pub const UDP_HEADER_LEN: usize = 8;

/// The big-endian 16-bit value at offset `i` of `b`.
pub open spec fn be16(b: Seq<u8>, i: int) -> u16
    recommends
        0 <= i,
        i + 2 <= b.len(),
{
    (b[i] as int * 256 + b[i + 1] as int) as u16
}

/// The EtherType field of an Ethernet frame.
pub open spec fn ethertype(frame: Seq<u8>) -> u16 {
    be16(frame, 12)
}

/// What follows the Ethernet header.
pub open spec fn ethernet_payload(frame: Seq<u8>) -> Seq<u8> {
    frame.subrange(ETHERNET_HEADER_LEN as int, frame.len() as int)
}

/// The header length of an IPv4 packet, in bytes (the IHL field times four).
pub open spec fn ipv4_header_bytes(p: Seq<u8>) -> int {
    (p[0] % 16) as int * 4
}

/// The total-length field of an IPv4 packet.
pub open spec fn ipv4_total_length(p: Seq<u8>) -> int {
    be16(p, 2) as int
}

/// The protocol field of an IPv4 packet.
pub open spec fn ipv4_protocol(p: Seq<u8>) -> u8 {
    p[9]
}

/// Where the payload of an IPv4 packet starts: after the header and its
/// options, and never before the fixed part of the header ends.
pub open spec fn ipv4_payload_start(p: Seq<u8>) -> int {
    if ipv4_header_bytes(p) > IPV4_MIN_HEADER_LEN as int {
        ipv4_header_bytes(p)
    } else {
        IPV4_MIN_HEADER_LEN as int
    }
}

/// The payload of an IPv4 packet: as many bytes as the total length leaves
/// after the header, cut short where the buffer ends.
pub open spec fn ipv4_payload(p: Seq<u8>) -> Seq<u8> {
    let start = ipv4_payload_start(p);
    let declared = if ipv4_total_length(p) > ipv4_header_bytes(p) {
        ipv4_total_length(p) - ipv4_header_bytes(p)
    } else {
        0
    };
    let end = if start + declared < p.len() {
        start + declared
    } else {
        p.len() as int
    };
    if p.len() <= start {
        Seq::empty()
    } else {
        p.subrange(start, end)
    }
}

/// The source port of a UDP datagram.
pub open spec fn udp_source(d: Seq<u8>) -> u16 {
    be16(d, 0)
}

/// The destination port of a UDP datagram.
pub open spec fn udp_destination(d: Seq<u8>) -> u16 {
    be16(d, 2)
}

/// Relies on pnet's `EthernetPacket::new`, `get_ethertype` and `payload`:
/// a frame of at least 14 bytes decodes to its EtherType and the bytes after
/// the header; a shorter one does not decode.
#[verifier::external_body]
pub(crate) fn decode_ethernet(frame: &[u8]) -> (r: Option<(u16, Vec<u8>)>)
    ensures
        r is Some <==> frame@.len() >= ETHERNET_HEADER_LEN,
        r matches Some((t, payload)) ==> t == ethertype(frame@) && payload@ == ethernet_payload(frame@),
{
    EthernetPacket::new(frame).map(|p| (p.get_ethertype().0, p.payload().to_vec()))
}

/// Relies on pnet's `Ipv4Packet::new`, `get_next_level_protocol` and
/// `payload`: a packet of at least 20 bytes decodes to its protocol number
/// and its payload, as bounded by the header and total-length fields.
#[verifier::external_body]
pub(crate) fn decode_ipv4(packet: &[u8]) -> (r: Option<(u8, Vec<u8>)>)
    ensures
        r is Some <==> packet@.len() >= IPV4_MIN_HEADER_LEN,
        r matches Some((proto, payload)) ==> proto == ipv4_protocol(packet@) && payload@ == ipv4_payload(packet@),
{
    Ipv4Packet::new(packet).map(|p| (p.get_next_level_protocol().0, p.payload().to_vec()))
}

/// Relies on pnet's `UdpPacket::new`, `get_source` and `get_destination`:
/// a datagram of at least 8 bytes decodes to its two ports.
#[verifier::external_body]
pub(crate) fn decode_udp_ports(datagram: &[u8]) -> (r: Option<(u16, u16)>)
    ensures
        r is Some <==> datagram@.len() >= UDP_HEADER_LEN,
        r matches Some((src, dst)) ==> src == udp_source(datagram@) && dst == udp_destination(datagram@),
{
    UdpPacket::new(datagram).map(|p| (p.get_source(), p.get_destination()))
}

} // verus!
