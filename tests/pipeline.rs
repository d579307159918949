use sma_sniffer::{
    classify_frame, handle_ethernet_frame, handle_ipv4_packet, handle_transport_protocol,
    handle_udp_packet, push_decimal, Config, Ipv4Address, Outcome, UdpReport,
};

fn group() -> Ipv4Address {
    Ipv4Address::new(239, 12, 255, 254)
}

fn config() -> Config {
    Config::new("eth0", group())
}

fn udp(source_port: u16, destination_port: u16, length: u16, body: &[u8]) -> Vec<u8> {
    let mut v = Vec::new();
    v.extend_from_slice(&source_port.to_be_bytes());
    v.extend_from_slice(&destination_port.to_be_bytes());
    v.extend_from_slice(&length.to_be_bytes());
    v.extend_from_slice(&[0, 0]);
    v.extend_from_slice(body);
    v
}

fn ipv4(source: [u8; 4], destination: [u8; 4], protocol: u8, payload: &[u8]) -> Vec<u8> {
    let total = (20 + payload.len()) as u16;
    let mut v = vec![0x45, 0];
    v.extend_from_slice(&total.to_be_bytes());
    v.extend_from_slice(&[0, 0, 0x40, 0, 64, protocol, 0, 0]);
    v.extend_from_slice(&source);
    v.extend_from_slice(&destination);
    v.extend_from_slice(payload);
    v
}

fn ethernet(ethertype: u16, payload: &[u8]) -> Vec<u8> {
    let mut v = vec![0xff, 0xff, 0xff, 0xff, 0xff, 0xff, 0x02, 0, 0, 0, 0, 1];
    v.extend_from_slice(&ethertype.to_be_bytes());
    v.extend_from_slice(payload);
    v
}

fn report_frame(destination: [u8; 4], destination_port: u16) -> Vec<u8> {
    let segment = udp(1234, destination_port, 48, &[7u8; 40]);
    ethernet(0x0800, &ipv4([10, 0, 0, 5], destination, 17, &segment))
}

#[test]
fn short_frames_are_refused() {
    for len in 0..14 {
        let frame = vec![0u8; len];
        assert_eq!(classify_frame(group(), &frame), Outcome::ShortFrame);
        assert_eq!(handle_ethernet_frame(&config(), &frame), None);
    }
}

#[test]
fn non_ipv4_frames_are_dropped() {
    let datagram = ipv4([10, 0, 0, 5], [239, 12, 255, 254], 17, &udp(1, 2, 8, &[]));
    for ethertype in [0x0806u16, 0x86dd, 0x0000, 0x0801] {
        let frame = ethernet(ethertype, &datagram);
        assert_eq!(classify_frame(group(), &frame), Outcome::NotIpv4);
        assert_eq!(handle_ethernet_frame(&config(), &frame), None);
    }
}

#[test]
fn header_only_frame_is_malformed_ipv4() {
    let frame = ethernet(0x0800, &[]);
    assert_eq!(classify_frame(group(), &frame), Outcome::MalformedIpv4);
}

#[test]
fn short_ipv4_gives_one_malformed_line() {
    for len in 0..20 {
        let frame = ethernet(0x0800, &vec![0x45u8; len]);
        assert_eq!(
            handle_ethernet_frame(&config(), &frame),
            Some("[eth0]: Malformed IPv4 Packet".to_string())
        );
    }
    let other = Config::new("wlan1", group());
    let frame = ethernet(0x0800, &[0x45, 0, 0]);
    assert_eq!(
        handle_ethernet_frame(&other, &frame),
        Some("[wlan1]: Malformed IPv4 Packet".to_string())
    );
}

#[test]
fn non_udp_datagrams_are_dropped() {
    let segment = udp(1234, 9522, 48, &[0u8; 40]);
    for protocol in [1u8, 6, 16, 18, 255] {
        let frame = ethernet(0x0800, &ipv4([10, 0, 0, 5], [239, 12, 255, 254], protocol, &segment));
        assert_eq!(classify_frame(group(), &frame), Outcome::NotUdp);
        assert_eq!(handle_ethernet_frame(&config(), &frame), None);
    }
}

#[test]
fn short_udp_gives_one_malformed_line() {
    for len in 0..8 {
        let frame = ethernet(0x0800, &ipv4([10, 0, 0, 5], [239, 12, 255, 254], 17, &vec![0u8; len]));
        assert_eq!(classify_frame(group(), &frame), Outcome::MalformedUdp);
        assert_eq!(
            handle_ethernet_frame(&config(), &frame),
            Some("[eth0]: Malformed UDP Packet".to_string())
        );
    }
}

#[test]
fn datagram_to_group_is_reported() {
    let frame = report_frame([239, 12, 255, 254], 9522);
    assert_eq!(
        handle_ethernet_frame(&config(), &frame),
        Some("[eth0]: UDP Packet: 10.0.0.5:1234 > 239.12.255.254:9522; length: 48:".to_string())
    );
    assert_eq!(
        classify_frame(group(), &frame),
        Outcome::Report(UdpReport {
            source: Ipv4Address::new(10, 0, 0, 5),
            source_port: 1234,
            destination: group(),
            destination_port: 9522,
            length: 48,
        })
    );
}

#[test]
fn datagram_to_other_destination_is_filtered() {
    let frame = report_frame([10, 0, 0, 1], 53);
    assert_eq!(classify_frame(group(), &frame), Outcome::Filtered);
    assert_eq!(handle_ethernet_frame(&config(), &frame), None);
}

#[test]
fn same_frame_gives_same_output() {
    let frames = [
        report_frame([239, 12, 255, 254], 9522),
        report_frame([10, 0, 0, 1], 53),
        ethernet(0x0800, &[0x45, 0]),
        vec![1, 2, 3],
    ];
    for frame in frames.iter() {
        let first = handle_ethernet_frame(&config(), frame);
        let second = handle_ethernet_frame(&config(), frame);
        assert_eq!(first, second);
    }
}

#[test]
fn configured_target_decides_what_is_reported() {
    let frame = report_frame([10, 0, 0, 1], 53);
    let config = Config::new("eth1", Ipv4Address::new(10, 0, 0, 1));
    assert_eq!(
        handle_ethernet_frame(&config, &frame),
        Some("[eth1]: UDP Packet: 10.0.0.5:1234 > 10.0.0.1:53; length: 48:".to_string())
    );
}

#[test]
fn declared_length_is_reported_not_captured_length() {
    let segment = udp(5000, 9522, 600, &[1u8; 4]);
    let frame = ethernet(0x0800, &ipv4([192, 168, 1, 20], [239, 12, 255, 254], 17, &segment));
    assert_eq!(
        handle_ethernet_frame(&config(), &frame),
        Some("[eth0]: UDP Packet: 192.168.1.20:5000 > 239.12.255.254:9522; length: 600:".to_string())
    );
}

#[test]
fn ipv4_options_are_skipped() {
    let segment = udp(40000, 9522, 8, &[]);
    let mut datagram = ipv4([1, 2, 3, 4], [239, 12, 255, 254], 17, &segment);
    datagram[0] = 0x46;
    let total = (24 + segment.len()) as u16;
    datagram[2..4].copy_from_slice(&total.to_be_bytes());
    let mut with_options = datagram[..20].to_vec();
    with_options.extend_from_slice(&[1, 1, 1, 0]);
    with_options.extend_from_slice(&segment);
    match handle_ipv4_packet(group(), &with_options) {
        Outcome::Report(r) => {
            assert_eq!(r.source, Ipv4Address::new(1, 2, 3, 4));
            assert_eq!(r.source_port, 40000);
            assert_eq!(r.destination_port, 9522);
            assert_eq!(r.length, 8);
        }
        other => panic!("unexpected outcome {:?}", other),
    }
}

#[test]
fn ipv4_payload_ends_at_declared_total_length() {
    let mut datagram = ipv4([1, 2, 3, 4], [239, 12, 255, 254], 17, &udp(1, 2, 8, &[]));
    datagram[2..4].copy_from_slice(&24u16.to_be_bytes());
    assert_eq!(handle_ipv4_packet(group(), &datagram), Outcome::MalformedUdp);
}

#[test]
fn transport_dispatch_only_follows_udp() {
    let segment = udp(1, 2, 8, &[]);
    let a = Ipv4Address::new(1, 1, 1, 1);
    assert_eq!(handle_transport_protocol(group(), a, group(), 6, &segment), Outcome::NotUdp);
    assert_eq!(
        handle_transport_protocol(group(), a, group(), 17, &segment),
        handle_udp_packet(group(), a, group(), &segment)
    );
}

#[test]
fn udp_fields_are_read_big_endian() {
    let segment = [0x12, 0x34, 0x25, 0x32, 0x01, 0x00, 0, 0];
    let a = Ipv4Address::new(1, 1, 1, 1);
    assert_eq!(
        handle_udp_packet(group(), a, group(), &segment),
        Outcome::Report(UdpReport {
            source: a,
            source_port: 0x1234,
            destination: group(),
            destination_port: 0x2532,
            length: 256,
        })
    );
    assert_eq!(handle_udp_packet(group(), a, a, &segment), Outcome::Filtered);
    assert_eq!(handle_udp_packet(group(), a, group(), &segment[..7]), Outcome::MalformedUdp);
}

#[test]
fn decimals_and_addresses_are_written_plainly() {
    for (n, text) in [(0u32, "0"), (9, "9"), (10, "10"), (255, "255"), (65535, "65535")] {
        let mut s = String::from("x=");
        push_decimal(&mut s, n);
        assert_eq!(s, format!("x={}", text));
    }
    assert_eq!(Ipv4Address::new(0, 0, 0, 0).to_text(), "0.0.0.0");
    assert_eq!(group().to_text(), "239.12.255.254");
    assert_eq!(Ipv4Address::from_octets([192, 168, 0, 1]), Ipv4Address::new(192, 168, 0, 1));
}
