use etherparse::PacketBuilder;
use ids::packet::{
    compose_flags, format_ipv4, format_ipv6, parse_packet, protocol_name, summarize_headers,
    Headers, NetLayer, TcpFlags, TransportLayer,
};

const NO_FLAGS: TcpFlags = TcpFlags {
    fin: false,
    syn: false,
    rst: false,
    psh: false,
    ack: false,
    urg: false,
    ece: false,
    cwr: false,
};

fn tcp_frame(source: [u8; 4], port: u16) -> Vec<u8> {
    let builder = PacketBuilder::ethernet2([1, 2, 3, 4, 5, 6], [7, 8, 9, 10, 11, 12])
        .ipv4(source, [10, 0, 0, 1], 20)
        .tcp(40000, port, 1, 1024)
        .syn();
    let mut frame = Vec::with_capacity(builder.size(0));
    builder.write(&mut frame, &[]).unwrap();
    frame
}

#[test]
fn parses_ipv4_tcp_syn() {
    let frame = tcp_frame([192, 168, 1, 10], 443);
    assert_eq!(
        parse_packet(&frame),
        Some(("192.168.1.10".to_string(), 443, "TCP".to_string(), 0x02))
    );
}

#[test]
fn parsing_twice_gives_the_same() {
    let frame = tcp_frame([172, 16, 0, 1], 22);
    assert_eq!(parse_packet(&frame), parse_packet(&frame));
    assert_eq!(parse_packet(&frame.clone()), parse_packet(&frame));
}

#[test]
fn parses_all_tcp_flags() {
    let builder = PacketBuilder::ethernet2([1, 2, 3, 4, 5, 6], [7, 8, 9, 10, 11, 12])
        .ipv4([8, 8, 8, 8], [10, 0, 0, 1], 20)
        .tcp(40000, 80, 1, 1024)
        .fin()
        .syn()
        .rst()
        .psh()
        .ack(7)
        .urg(1)
        .ece()
        .cwr();
    let mut frame = Vec::with_capacity(builder.size(0));
    builder.write(&mut frame, &[]).unwrap();
    assert_eq!(parse_packet(&frame), Some(("8.8.8.8".to_string(), 80, "TCP".to_string(), 0xff)));

    let builder = PacketBuilder::ethernet2([1, 2, 3, 4, 5, 6], [7, 8, 9, 10, 11, 12])
        .ipv4([8, 8, 8, 8], [10, 0, 0, 1], 20)
        .tcp(40000, 80, 1, 1024)
        .psh()
        .ack(7);
    let mut frame = Vec::with_capacity(builder.size(0));
    builder.write(&mut frame, &[]).unwrap();
    assert_eq!(parse_packet(&frame), Some(("8.8.8.8".to_string(), 80, "TCP".to_string(), 0x18)));
}

#[test]
fn parses_ipv4_udp() {
    let builder = PacketBuilder::ethernet2([1, 2, 3, 4, 5, 6], [7, 8, 9, 10, 11, 12])
        .ipv4([10, 0, 0, 50], [10, 0, 0, 1], 20)
        .udp(5353, 53);
    let mut frame = Vec::with_capacity(builder.size(4));
    builder.write(&mut frame, &[1, 2, 3, 4]).unwrap();
    assert_eq!(parse_packet(&frame), Some(("10.0.0.50".to_string(), 53, "UDP".to_string(), 0)));
}

#[test]
fn parses_ipv6_without_abbreviation() {
    let source = [0x20, 0x01, 0x0d, 0xb8, 0, 0, 0, 0, 0, 0, 0, 0, 0, 0, 0, 0x01];
    let builder = PacketBuilder::ethernet2([1, 2, 3, 4, 5, 6], [7, 8, 9, 10, 11, 12])
        .ipv6(source, [0; 16], 20)
        .tcp(40000, 8080, 1, 1024)
        .syn()
        .ack(1);
    let mut frame = Vec::with_capacity(builder.size(0));
    builder.write(&mut frame, &[]).unwrap();
    assert_eq!(
        parse_packet(&frame),
        Some((
            "2001:0db8:0000:0000:0000:0000:0000:0001".to_string(),
            8080,
            "TCP".to_string(),
            0x12
        ))
    );
}

#[test]
fn parses_icmp_with_port_zero() {
    let builder = PacketBuilder::ethernet2([1, 2, 3, 4, 5, 6], [7, 8, 9, 10, 11, 12])
        .ipv4([10, 0, 0, 51], [10, 0, 0, 1], 20)
        .icmpv4_echo_request(1, 2);
    let mut frame = Vec::with_capacity(builder.size(0));
    builder.write(&mut frame, &[]).unwrap();
    assert_eq!(parse_packet(&frame), Some(("10.0.0.51".to_string(), 0, "ICMP".to_string(), 0)));
}

#[test]
fn drops_own_address_and_broken_frames() {
    assert_eq!(parse_packet(&tcp_frame([192, 168, 56, 101], 22)), None);
    assert!(parse_packet(&tcp_frame([192, 168, 56, 102], 22)).is_some());
    assert_eq!(parse_packet(&[]), None);
    assert_eq!(parse_packet(&[0u8; 5]), None);
    let frame = tcp_frame([192, 168, 1, 10], 443);
    assert_eq!(parse_packet(&frame[..20]), None);
}

#[test]
fn summary_of_headers() {
    let syn = TcpFlags { syn: true, ..NO_FLAGS };
    let headers = Headers {
        net: NetLayer::Ipv4 { source: [1, 2, 3, 4], protocol: 6 },
        transport: TransportLayer::Tcp { destination_port: 22, flags: syn },
    };
    assert_eq!(
        summarize_headers(&headers),
        Some(("1.2.3.4".to_string(), 22, "TCP".to_string(), 2))
    );
    let other_protocol = Headers {
        net: NetLayer::Ipv4 { source: [1, 2, 3, 4], protocol: 47 },
        transport: TransportLayer::Other,
    };
    assert_eq!(summarize_headers(&other_protocol), None);
    let own = Headers {
        net: NetLayer::Ipv4 { source: [192, 168, 56, 101], protocol: 17 },
        transport: TransportLayer::Udp { destination_port: 53 },
    };
    assert_eq!(summarize_headers(&own), None);
    let no_ip = Headers { net: NetLayer::Other, transport: TransportLayer::Udp { destination_port: 53 } };
    assert_eq!(summarize_headers(&no_ip), None);
    let six = Headers {
        net: NetLayer::Ipv6 { source: [0xff; 16], next_header: 17 },
        transport: TransportLayer::Udp { destination_port: 123 },
    };
    assert_eq!(
        summarize_headers(&six),
        Some(("ffff:ffff:ffff:ffff:ffff:ffff:ffff:ffff".to_string(), 123, "UDP".to_string(), 0))
    );
    let six_other = Headers {
        net: NetLayer::Ipv6 { source: [0; 16], next_header: 58 },
        transport: TransportLayer::Other,
    };
    assert_eq!(summarize_headers(&six_other), None);
    let tcp_without_header = Headers {
        net: NetLayer::Ipv4 { source: [9, 9, 9, 9], protocol: 6 },
        transport: TransportLayer::Other,
    };
    assert_eq!(
        summarize_headers(&tcp_without_header),
        Some(("9.9.9.9".to_string(), 0, "TCP".to_string(), 0))
    );
}

#[test]
fn flag_bits() {
    assert_eq!(compose_flags(&NO_FLAGS), 0);
    assert_eq!(compose_flags(&TcpFlags { fin: true, ..NO_FLAGS }), 0x01);
    assert_eq!(compose_flags(&TcpFlags { syn: true, ..NO_FLAGS }), 0x02);
    assert_eq!(compose_flags(&TcpFlags { rst: true, ..NO_FLAGS }), 0x04);
    assert_eq!(compose_flags(&TcpFlags { psh: true, ..NO_FLAGS }), 0x08);
    assert_eq!(compose_flags(&TcpFlags { ack: true, ..NO_FLAGS }), 0x10);
    assert_eq!(compose_flags(&TcpFlags { urg: true, ..NO_FLAGS }), 0x20);
    assert_eq!(compose_flags(&TcpFlags { ece: true, ..NO_FLAGS }), 0x40);
    assert_eq!(compose_flags(&TcpFlags { cwr: true, ..NO_FLAGS }), 0x80);
    assert_eq!(compose_flags(&TcpFlags { syn: true, ack: true, ..NO_FLAGS }), 0x12);
}

#[test]
fn protocol_names() {
    assert_eq!(protocol_name(6), Some("TCP"));
    assert_eq!(protocol_name(17), Some("UDP"));
    assert_eq!(protocol_name(1), Some("ICMP"));
    assert_eq!(protocol_name(0), None);
    assert_eq!(protocol_name(58), None);
}

#[test]
fn address_texts() {
    assert_eq!(format_ipv4(&[0, 0, 0, 0]), "0.0.0.0");
    assert_eq!(format_ipv4(&[255, 255, 255, 255]), "255.255.255.255");
    assert_eq!(format_ipv4(&[192, 168, 56, 101]), "192.168.56.101");
    assert_eq!(format_ipv6(&[0; 16]), "0000:0000:0000:0000:0000:0000:0000:0000");
    assert_eq!(
        format_ipv6(&[
            0xfe, 0x80, 0, 0, 0, 0, 0, 0, 0x02, 0x1a, 0x2b, 0xff, 0xfe, 0x3c, 0x4d, 0x5e
        ]),
        "fe80:0000:0000:0000:021a:2bff:fe3c:4d5e"
    );
}
