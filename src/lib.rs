//! Decoding of captured Ethernet frames down through IPv4 and UDP, and the
//! report lines for UDP datagrams sent to one configured multicast group.

pub mod laws;
pub mod pipeline;
pub mod text;
pub mod wire;

pub use pipeline::{
    classify_frame, handle_ipv4_packet, handle_transport_protocol, handle_udp_packet, Ipv4Address,
    Outcome, UdpReport,
};
pub use text::{format_report, handle_ethernet_frame, push_address, push_decimal, Config};
