//! Laws of the pipeline, over the model that the stages' contracts use.

use crate::pipeline::{
    frame_outcome, ipv4_outcome, transport_outcome, udp_outcome, Ipv4Address, Outcome, UdpReport,
};
use crate::text::{emitted, malformed_ipv4_line, malformed_udp_line, message, report_line};
use crate::wire::{
    be16, ETHERNET_HEADER_LEN, ETHERTYPE_IPV4, IPV4_HEADER_LEN, IP_PROTOCOL_UDP, UDP_HEADER_LEN,
};
use vstd::prelude::*;

verus! {

/// A buffer shorter than the link-layer header is refused by the frame
/// decoder, and nothing is emitted for it.
pub proof fn short_frame_is_refused(interface: Seq<char>, target: Ipv4Address, frame: Seq<u8>)
    requires
        frame.len() < ETHERNET_HEADER_LEN,
    ensures
        frame_outcome(target, frame) == Outcome::ShortFrame,
        emitted(interface, target, frame) is None,
{
}

/// A frame whose ethertype is not IPv4 goes no further than the frame
/// decoder, and nothing is emitted for it.
pub proof fn non_ipv4_frame_is_dropped(interface: Seq<char>, target: Ipv4Address, frame: Seq<u8>)
    requires
        frame.len() >= ETHERNET_HEADER_LEN,
        be16(frame, 12) != ETHERTYPE_IPV4,
    ensures
        frame_outcome(target, frame) == Outcome::NotIpv4,
        emitted(interface, target, frame) is None,
{
}

/// A link-layer payload shorter than an IPv4 header gives exactly one
/// malformed-IPv4 line, tagged with the interface.
pub proof fn short_ipv4_is_reported(interface: Seq<char>, target: Ipv4Address, datagram: Seq<u8>)
    requires
        datagram.len() < IPV4_HEADER_LEN,
    ensures
        ipv4_outcome(target, datagram) == Outcome::MalformedIpv4,
        message(ipv4_outcome(target, datagram), interface) == Some(malformed_ipv4_line(interface)),
{
}

/// A datagram that does not carry UDP is decoded no further, and nothing is
/// emitted for it.
pub proof fn non_udp_is_dropped(
    interface: Seq<char>,
    target: Ipv4Address,
    source: Ipv4Address,
    destination: Ipv4Address,
    protocol: u8,
    segment: Seq<u8>,
)
    requires
        protocol != IP_PROTOCOL_UDP,
    ensures
        transport_outcome(target, source, destination, protocol, segment) == Outcome::NotUdp,
        message(transport_outcome(target, source, destination, protocol, segment), interface)
            is None,
{
}

/// A transport payload shorter than a UDP header gives exactly one
/// malformed-UDP line, tagged with the interface.
pub proof fn short_udp_is_reported(
    interface: Seq<char>,
    target: Ipv4Address,
    source: Ipv4Address,
    destination: Ipv4Address,
    segment: Seq<u8>,
)
    requires
        segment.len() < UDP_HEADER_LEN,
    ensures
        message(udp_outcome(target, source, destination, segment), interface) == Some(
            malformed_udp_line(interface),
        ),
{
}

/// A well-formed UDP datagram sent to the configured group is reported with
/// one line that holds both addresses, both ports and the declared length.
pub proof fn matching_udp_is_reported(
    interface: Seq<char>,
    target: Ipv4Address,
    source: Ipv4Address,
    segment: Seq<u8>,
)
    requires
        segment.len() >= UDP_HEADER_LEN,
    ensures
        message(udp_outcome(target, source, target, segment), interface) == Some(
            report_line(
                interface,
                UdpReport {
                    source,
                    source_port: be16(segment, 0) as u16,
                    destination: target,
                    destination_port: be16(segment, 2) as u16,
                    length: be16(segment, 4) as u16,
                },
            ),
        ),
{
}

/// A well-formed UDP datagram sent anywhere but the configured group emits
/// neither a report nor an error.
pub proof fn other_destination_is_filtered(
    interface: Seq<char>,
    target: Ipv4Address,
    source: Ipv4Address,
    destination: Ipv4Address,
    segment: Seq<u8>,
)
    requires
        segment.len() >= UDP_HEADER_LEN,
        destination != target,
    ensures
        udp_outcome(target, source, destination, segment) == Outcome::Filtered,
        message(udp_outcome(target, source, destination, segment), interface) is None,
{
}

/// The same captured buffer always gives the same output: what is emitted
/// depends on the settings and the bytes alone.
pub proof fn same_frame_same_output(
    interface: Seq<char>,
    target: Ipv4Address,
    first: Seq<u8>,
    second: Seq<u8>,
)
    requires
        first == second,
    ensures
        emitted(interface, target, first) == emitted(interface, target, second),
{
}

/// What a frame emits is what its IPv4 payload emits when the frame carries
/// IPv4, so the stage laws carry over to whole frames.
pub proof fn ipv4_frame_is_its_payload(interface: Seq<char>, target: Ipv4Address, frame: Seq<u8>)
    requires
        frame.len() >= ETHERNET_HEADER_LEN,
        be16(frame, 12) == ETHERTYPE_IPV4,
    ensures
        emitted(interface, target, frame) == message(
            ipv4_outcome(target, frame.subrange(ETHERNET_HEADER_LEN as int, frame.len() as int)),
            interface,
        ),
{
}

} // verus!
