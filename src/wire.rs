//! Header views of the three protocol layers, read from raw bytes by pnet.

use pnet::packet::ethernet::EthernetPacket;
use pnet::packet::ipv4::Ipv4Packet;
use pnet::packet::udp::UdpPacket;
use pnet::packet::Packet;
use vstd::prelude::*;

verus! {

/// Size of the link-layer header: two hardware addresses and the ethertype.
pub const ETHERNET_HEADER_LEN: usize = 14;

/// Size of an IPv4 header without options.
pub const IPV4_HEADER_LEN: usize = 20;

/// Size of the UDP header.
pub const UDP_HEADER_LEN: usize = 8;

/// Ethertype that announces an IPv4 datagram.
pub const ETHERTYPE_IPV4: u16 = 0x0800;

/// IPv4 protocol number of UDP.
pub const IP_PROTOCOL_UDP: u8 = 17;

/// The big-endian 16-bit number in bytes `i` and `i + 1`.
pub open spec fn be16(b: Seq<u8>, i: int) -> int {
    b[i] as int * 256 + b[i + 1] as int
}

/// Where the payload of an IPv4 datagram starts: after the header that the
/// header-length nibble declares, and never inside the fixed 20 bytes.
pub open spec fn ipv4_payload_start(d: Seq<u8>) -> int {
    let declared = (d[0] % 16) as int * 4;
    if declared > IPV4_HEADER_LEN { declared } else { IPV4_HEADER_LEN as int }
}

/// Where the payload of an IPv4 datagram ends: after the total length that the
/// header declares, cut at the end of the captured bytes.
pub open spec fn ipv4_payload_end(d: Seq<u8>) -> int {
    let declared = (d[0] % 16) as int * 4;
    let total = be16(d, 2);
    let len = if total > declared { total - declared } else { 0 };
    let end = ipv4_payload_start(d) + len;
    if end < d.len() { end } else { d.len() as int }
}

/// The payload of an IPv4 datagram of at least 20 bytes.
pub open spec fn ipv4_payload(d: Seq<u8>) -> Seq<u8> {
    if d.len() <= ipv4_payload_start(d) {
        Seq::empty()
    } else {
        d.subrange(ipv4_payload_start(d), ipv4_payload_end(d))
    }
}

/// The link-layer header of a frame, and the bytes that follow it.
pub struct EthernetHeader {
    pub ethertype: u16,
    pub payload: Vec<u8>,
}

/// The fields of an IPv4 header that the pipeline reads, and the payload.
pub struct Ipv4Header {
    pub source: [u8; 4],
    pub destination: [u8; 4],
    pub protocol: u8,
    pub payload: Vec<u8>,
}

/// The fixed UDP header.
#[derive(Clone, Copy, Debug, PartialEq, Eq)]
pub struct UdpHeader {
    pub source_port: u16,
    pub destination_port: u16,
    pub length: u16,
}

/// Relies on pnet's `EthernetPacket`: `new` refuses a buffer shorter than the
/// 14-byte header, `get_ethertype` reads bytes 12 and 13 big-endian, and
/// `payload` is every byte after the header.
#[verifier::external_body]
pub(crate) fn decode_ethernet(frame: &[u8]) -> (r: Option<EthernetHeader>)
    ensures
        r is None <==> frame@.len() < ETHERNET_HEADER_LEN,
        r matches Some(h) ==> h.ethertype as int == be16(frame@, 12) && h.payload@
            == frame@.subrange(ETHERNET_HEADER_LEN as int, frame@.len() as int),
{
    EthernetPacket::new(frame).map(
        |p| EthernetHeader { ethertype: p.get_ethertype().0, payload: p.payload().to_vec() },
    )
}

/// Relies on pnet's `Ipv4Packet`: `new` refuses a buffer shorter than the
/// 20-byte header, `get_next_level_protocol` reads byte 9, `get_source` and
/// `get_destination` bytes 12 to 15 and 16 to 19, and `payload` the bytes
/// between the declared header length and the declared total length.
#[verifier::external_body]
pub(crate) fn decode_ipv4(datagram: &[u8]) -> (r: Option<Ipv4Header>)
    ensures
        r is None <==> datagram@.len() < IPV4_HEADER_LEN,
        r matches Some(h) ==> {
            &&& h.protocol == datagram@[9]
            &&& h.source@ == datagram@.subrange(12, 16)
            &&& h.destination@ == datagram@.subrange(16, 20)
            &&& h.payload@ == ipv4_payload(datagram@)
        },
{
    Ipv4Packet::new(datagram).map(
        |p| Ipv4Header {
            source: p.get_source().octets(),
            destination: p.get_destination().octets(),
            protocol: p.get_next_level_protocol().0,
            payload: p.payload().to_vec(),
        },
    )
}

/// Relies on pnet's `UdpPacket`: `new` refuses a buffer shorter than the 8-byte
/// header, and `get_source`, `get_destination` and `get_length` read bytes 0
/// to 5 as three big-endian numbers.
#[verifier::external_body]
pub(crate) fn decode_udp(segment: &[u8]) -> (r: Option<UdpHeader>)
    ensures
        r is None <==> segment@.len() < UDP_HEADER_LEN,
        r matches Some(h) ==> {
            &&& h.source_port as int == be16(segment@, 0)
            &&& h.destination_port as int == be16(segment@, 2)
            &&& h.length as int == be16(segment@, 4)
        },
{
    UdpPacket::new(segment).map(
        |p| UdpHeader {
            source_port: p.get_source(),
            destination_port: p.get_destination(),
            length: p.get_length(),
        },
    )
}

} // verus!
