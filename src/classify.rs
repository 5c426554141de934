//! The admission filter: a pure decision, per captured frame, whether the
//! relay forwards it.

use crate::wire::{
    decode_ethernet, decode_ipv4, decode_udp_ports, ethernet_payload, ethertype, ipv4_payload,
    ipv4_protocol, udp_destination, udp_source, ETHERNET_HEADER_LEN, IPV4_MIN_HEADER_LEN,
    UDP_HEADER_LEN,
};
use vstd::prelude::*;

verus! {

/// EtherType of IPv4.
pub const ETHERTYPE_IPV4: u16 = 0x0800;

/// IPv4 protocol number of UDP.
pub const PROTOCOL_UDP: u8 = 17;

/// The well-known SSDP port.
pub const SSDP_PORT: u16 = 1900;

/// The outcome of classifying one frame.
#[derive(Clone, Copy, Debug, PartialEq, Eq, Structural)]
pub enum Verdict {
    Admit,
    Drop,
}

/// The IPv4 packet carried by a frame.
pub open spec fn ip_part(frame: Seq<u8>) -> Seq<u8> {
    ethernet_payload(frame)
}

/// The UDP datagram carried by a frame.
pub open spec fn udp_part(frame: Seq<u8>) -> Seq<u8> {
    ipv4_payload(ip_part(frame))
}

/// A frame that decodes all the way down: an Ethernet header announcing
/// IPv4, an IPv4 header announcing UDP, and a full UDP header.
pub open spec fn is_ipv4_udp(frame: Seq<u8>) -> bool {
    &&& frame.len() >= ETHERNET_HEADER_LEN
    &&& ethertype(frame) == ETHERTYPE_IPV4
    &&& ip_part(frame).len() >= IPV4_MIN_HEADER_LEN
    &&& ipv4_protocol(ip_part(frame)) == PROTOCOL_UDP
    &&& udp_part(frame).len() >= UDP_HEADER_LEN
}

/// Whether a well-formed IPv4/UDP frame is SSDP traffic.
pub open spec fn uses_ssdp_port(frame: Seq<u8>) -> bool {
    udp_source(udp_part(frame)) == SSDP_PORT || udp_destination(udp_part(frame)) == SSDP_PORT
}

/// The verdict on a frame: admitted exactly when it is IPv4/UDP with either
/// port equal to the SSDP port.
pub open spec fn verdict_of(frame: Seq<u8>) -> Verdict {
    if is_ipv4_udp(frame) && uses_ssdp_port(frame) {
        Verdict::Admit
    } else {
        Verdict::Drop
    }
}

/// Classifies a captured frame. Truncated or malformed input is dropped,
/// never an error.
pub fn classify(frame: &[u8]) -> (r: Verdict)
    ensures
        r == verdict_of(frame@),
{
    let (kind, ip) = match decode_ethernet(frame) {
        Some(decoded) => decoded,
        None => return Verdict::Drop,
    };
    if kind != ETHERTYPE_IPV4 {
        return Verdict::Drop;
    }
    let (proto, udp) = match decode_ipv4(ip.as_slice()) {
        Some(decoded) => decoded,
        None => return Verdict::Drop,
    };
    if proto != PROTOCOL_UDP {
        return Verdict::Drop;
    }
    let (src, dst) = match decode_udp_ports(udp.as_slice()) {
        Some(ports) => ports,
        None => return Verdict::Drop,
    };
    if src == SSDP_PORT || dst == SSDP_PORT {
        Verdict::Admit
    } else {
        Verdict::Drop
    }
}

/// Whether a captured frame is to be forwarded to the peer interface.
pub fn should_forward(packet: &Vec<u8>) -> (r: bool)
    ensures
        r == (verdict_of(packet@) == Verdict::Admit),
{
    classify(packet.as_slice()) == Verdict::Admit
}

/// A frame too short to hold an Ethernet header is dropped.
pub proof fn lemma_short_frame_dropped(frame: Seq<u8>)
    requires
        frame.len() < ETHERNET_HEADER_LEN,
    ensures
        verdict_of(frame) == Verdict::Drop,
{
}

/// A frame whose EtherType is not IPv4 is dropped, whatever it carries.
pub proof fn lemma_non_ipv4_dropped(frame: Seq<u8>)
    requires
        frame.len() >= ETHERNET_HEADER_LEN,
        ethertype(frame) != ETHERTYPE_IPV4,
    ensures
        verdict_of(frame) == Verdict::Drop,
{
}

/// A well-formed IPv4/UDP frame from or to the SSDP port is admitted.
pub proof fn lemma_ssdp_admitted(frame: Seq<u8>)
    requires
        is_ipv4_udp(frame),
        udp_source(udp_part(frame)) == SSDP_PORT || udp_destination(udp_part(frame)) == SSDP_PORT,
    ensures
        verdict_of(frame) == Verdict::Admit,
{
}

/// A well-formed IPv4/UDP frame with neither port equal to the SSDP port is
/// dropped.
pub proof fn lemma_other_udp_dropped(frame: Seq<u8>)
    requires
        is_ipv4_udp(frame),
        udp_source(udp_part(frame)) != SSDP_PORT,
        udp_destination(udp_part(frame)) != SSDP_PORT,
    ensures
        verdict_of(frame) == Verdict::Drop,
{
}

/// Classification depends on the bytes alone: equal frames get equal
/// verdicts, so classifying the same frame twice gives the same outcome.
pub proof fn lemma_classify_deterministic(a: Seq<u8>, b: Seq<u8>)
    requires
        a == b,
    ensures
        verdict_of(a) == verdict_of(b),
{
}

} // verus!
