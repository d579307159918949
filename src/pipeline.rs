//! The per-packet pipeline: frame, IPv4 datagram, transport dispatch and UDP
//! segment, each stage a pure function of the bytes it is given.

use crate::wire::{
    be16, decode_ethernet, decode_ipv4, decode_udp, ipv4_payload, ETHERNET_HEADER_LEN,
    ETHERTYPE_IPV4, IPV4_HEADER_LEN, IP_PROTOCOL_UDP, UDP_HEADER_LEN,
};
use vstd::prelude::*;

verus! {

/// An IPv4 address as its four octets, most significant first.
#[derive(Clone, Copy, Debug, PartialEq, Eq, Structural)]
pub struct Ipv4Address {
    pub a: u8,
    pub b: u8,
    pub c: u8,
    pub d: u8,
}

impl Ipv4Address {
    pub fn new(a: u8, b: u8, c: u8, d: u8) -> (r: Ipv4Address)
        ensures
            r == (Ipv4Address { a, b, c, d }),
    {
        Ipv4Address { a, b, c, d }
    }

    pub fn from_octets(o: [u8; 4]) -> (r: Ipv4Address)
        ensures
            r == address_at(o@, 0),
    {
        Ipv4Address { a: o[0], b: o[1], c: o[2], d: o[3] }
    }
}

/// The address held in bytes `i` to `i + 3`.
pub open spec fn address_at(b: Seq<u8>, i: int) -> Ipv4Address {
    Ipv4Address { a: b[i], b: b[i + 1], c: b[i + 2], d: b[i + 3] }
}

/// What is reported of a UDP datagram sent to the configured group.
#[derive(Clone, Copy, Debug, PartialEq, Eq, Structural)]
pub struct UdpReport {
    pub source: Ipv4Address,
    pub source_port: u16,
    pub destination: Ipv4Address,
    pub destination_port: u16,
    /// The length that the UDP header declares, not the bytes captured.
    pub length: u16,
}

/// How the pipeline ends for one captured frame.
#[derive(Clone, Copy, Debug, PartialEq, Eq, Structural)]
pub enum Outcome {
    /// The buffer is shorter than a link-layer header.
    ShortFrame,
    /// The frame carries something other than IPv4.
    NotIpv4,
    /// The link-layer payload is shorter than an IPv4 header.
    MalformedIpv4,
    /// The datagram carries something other than UDP.
    NotUdp,
    /// The transport payload is shorter than a UDP header.
    MalformedUdp,
    /// A well-formed UDP datagram to another destination.
    Filtered,
    /// A well-formed UDP datagram to the configured group.
    Report(UdpReport),
}

/// The outcome of the UDP stage on a transport payload.
pub open spec fn udp_outcome(
    target: Ipv4Address,
    source: Ipv4Address,
    destination: Ipv4Address,
    seg: Seq<u8>,
) -> Outcome {
    if seg.len() < UDP_HEADER_LEN {
        Outcome::MalformedUdp
    } else if destination != target {
        Outcome::Filtered
    } else {
        Outcome::Report(
            UdpReport {
                source,
                source_port: be16(seg, 0) as u16,
                destination,
                destination_port: be16(seg, 2) as u16,
                length: be16(seg, 4) as u16,
            },
        )
    }
}

/// The outcome of dispatching on the transport protocol number.
pub open spec fn transport_outcome(
    target: Ipv4Address,
    source: Ipv4Address,
    destination: Ipv4Address,
    protocol: u8,
    seg: Seq<u8>,
) -> Outcome {
    if protocol == IP_PROTOCOL_UDP {
        udp_outcome(target, source, destination, seg)
    } else {
        Outcome::NotUdp
    }
}

/// The outcome of the IPv4 stage on a link-layer payload.
pub open spec fn ipv4_outcome(target: Ipv4Address, d: Seq<u8>) -> Outcome {
    if d.len() < IPV4_HEADER_LEN {
        Outcome::MalformedIpv4
    } else {
        transport_outcome(target, address_at(d, 12), address_at(d, 16), d[9], ipv4_payload(d))
    }
}

/// The outcome of the whole pipeline on a captured frame.
pub open spec fn frame_outcome(target: Ipv4Address, f: Seq<u8>) -> Outcome {
    if f.len() < ETHERNET_HEADER_LEN {
        Outcome::ShortFrame
    } else if be16(f, 12) != ETHERTYPE_IPV4 {
        Outcome::NotIpv4
    } else {
        ipv4_outcome(target, f.subrange(ETHERNET_HEADER_LEN as int, f.len() as int))
    }
}

/// Decodes a transport payload as UDP and keeps it only when it is sent to
/// `target`.
pub fn handle_udp_packet(
    target: Ipv4Address,
    source: Ipv4Address,
    destination: Ipv4Address,
    packet: &[u8],
) -> (r: Outcome)
    ensures
        r == udp_outcome(target, source, destination, packet@),
{
    match decode_udp(packet) {
        None => Outcome::MalformedUdp,
        Some(h) => {
            if destination == target {
                Outcome::Report(
                    UdpReport {
                        source,
                        source_port: h.source_port,
                        destination,
                        destination_port: h.destination_port,
                        length: h.length,
                    },
                )
            } else {
                Outcome::Filtered
            }
        },
    }
}

/// Hands a transport payload to the UDP stage when `protocol` is UDP; any
/// other protocol ends the pipeline quietly.
pub fn handle_transport_protocol(
    target: Ipv4Address,
    source: Ipv4Address,
    destination: Ipv4Address,
    protocol: u8,
    packet: &[u8],
) -> (r: Outcome)
    ensures
        r == transport_outcome(target, source, destination, protocol, packet@),
{
    if protocol == IP_PROTOCOL_UDP {
        handle_udp_packet(target, source, destination, packet)
    } else {
        Outcome::NotUdp
    }
}

/// Decodes a link-layer payload as an IPv4 datagram and dispatches on its
/// transport protocol.
pub fn handle_ipv4_packet(target: Ipv4Address, packet: &[u8]) -> (r: Outcome)
    ensures
        r == ipv4_outcome(target, packet@),
{
    match decode_ipv4(packet) {
        None => Outcome::MalformedIpv4,
        Some(h) => {
            let source = Ipv4Address::from_octets(h.source);
            let destination = Ipv4Address::from_octets(h.destination);
            handle_transport_protocol(target, source, destination, h.protocol, h.payload.as_slice())
        },
    }
}

/// Decodes a captured frame and, when it carries IPv4, runs the later stages
/// on its payload.
pub fn classify_frame(target: Ipv4Address, frame: &[u8]) -> (r: Outcome)
    ensures
        r == frame_outcome(target, frame@),
{
    match decode_ethernet(frame) {
        None => Outcome::ShortFrame,
        Some(h) => {
            if h.ethertype == ETHERTYPE_IPV4 {
                handle_ipv4_packet(target, h.payload.as_slice())
            } else {
                Outcome::NotIpv4
            }
        },
    }
}

} // verus!
