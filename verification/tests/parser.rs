use sentinel::error::ParserError;
use sentinel::ethernet::EthernetFrame;
use sentinel::ip::{IpHeader, IpVersion, Ipv4Header, Ipv6Header};
use sentinel::packet::{parse_packet, parse_packet_within_bounds, Protocol};
use sentinel::tcp::TcpHeader;
use sentinel::udp::UdpHeader;

#[test]
fn test_parse_ethernet_frame() {
    let mut data = vec![0u8; 14];
    data[0..6].copy_from_slice(&[0x00, 0x11, 0x22, 0x33, 0x44, 0x55]);
    data[6..12].copy_from_slice(&[0x66, 0x77, 0x88, 0x99, 0xaa, 0xbb]);
    data[12..14].copy_from_slice(&0x0800u16.to_be_bytes());

    let frame = EthernetFrame::parse(&data).unwrap();
    assert_eq!(frame.dst_mac, [0x00, 0x11, 0x22, 0x33, 0x44, 0x55]);
    assert_eq!(frame.src_mac, [0x66, 0x77, 0x88, 0x99, 0xaa, 0xbb]);
    assert_eq!(frame.ethertype, 0x0800);
    assert_eq!(frame.vlan_id, None);
}

#[test]
fn test_parse_ethernet_frame_too_short() {
    let data = [0u8; 10];
    assert!(EthernetFrame::parse(&data).is_err());
}

#[test]
fn test_parse_ethernet_frame_with_vlan() {
    let mut data = vec![0u8; 18];
    data[12..14].copy_from_slice(&0x8100u16.to_be_bytes());
    data[14..16].copy_from_slice(&100u16.to_be_bytes());
    data[16..18].copy_from_slice(&0x0800u16.to_be_bytes());

    let frame = EthernetFrame::parse(&data).unwrap();
    assert_eq!(frame.ethertype, 0x0800);
    assert_eq!(frame.vlan_id, Some(100));
}

#[test]
fn test_parse_ipv4() {
    let mut data = vec![0u8; 20];
    data[0] = 0x45;
    data[2..4].copy_from_slice(&100u16.to_be_bytes());
    data[8] = 64;
    data[9] = 6;
    data[12..16].copy_from_slice(&[10, 0, 0, 1]);
    data[16..20].copy_from_slice(&[10, 0, 0, 2]);

    let hdr = Ipv4Header::parse(&data).unwrap();
    assert_eq!(hdr.version, 4);
    assert_eq!(hdr.ihl, 5);
    assert_eq!(hdr.src_ip, [10, 0, 0, 1]);
    assert_eq!(hdr.dst_ip, [10, 0, 0, 2]);
}

#[test]
fn test_parse_ipv6() {
    let mut data = vec![0u8; 40];
    data[0] = 0x60;
    data[6] = 59;
    data[7] = 64;
    data[8..24].copy_from_slice(&[0xfe, 0x80, 0, 0, 0, 0, 0, 0, 0, 0, 0, 0, 0, 0, 0, 1]);
    data[24..40].copy_from_slice(&[0xfe, 0x80, 0, 0, 0, 0, 0, 0, 0, 0, 0, 0, 0, 0, 0, 2]);

    let hdr = Ipv6Header::parse(&data).unwrap();
    assert_eq!(hdr.version, 6);
    assert_eq!(hdr.next_header, 59);
    assert_eq!(hdr.src_ip[0], 0xfe);
    assert_eq!(hdr.src_ip[1], 0x80);
}

#[test]
fn test_parse_packet_too_short() {
    let data = [0u8; 10];
    assert!(parse_packet(&data).is_err());
}

#[test]
fn test_protocol_display() {
    assert_eq!(Protocol::Tcp.to_string(), "TCP");
    assert_eq!(Protocol::Udp.to_string(), "UDP");
    assert_eq!(Protocol::Other(1).to_string(), "OTHER(1)");
}

#[test]
fn test_parse_tcp() {
    let mut data = vec![0u8; 20];
    data[0..2].copy_from_slice(&12345u16.to_be_bytes());
    data[2..4].copy_from_slice(&80u16.to_be_bytes());
    data[4..8].copy_from_slice(&123456u32.to_be_bytes());
    data[8..12].copy_from_slice(&789u32.to_be_bytes());
    data[12] = 0x50;
    data[13] = 0x02;

    let hdr = TcpHeader::parse(&data).unwrap();
    assert_eq!(hdr.src_port, 12345);
    assert_eq!(hdr.dst_port, 80);
    assert_eq!(hdr.seq_num, 123456);
    assert_eq!(hdr.ack_num, 789);
    assert_eq!(hdr.data_offset, 5);
    assert!(hdr.is_syn());
    assert!(!hdr.is_ack());
}

#[test]
fn test_parse_tcp_too_short() {
    let data = [0u8; 10];
    assert!(TcpHeader::parse(&data).is_err());
}

#[test]
fn test_tcp_flags() {
    let mut data = vec![0u8; 20];
    data[12] = 0x50;
    data[13] = 0x12;

    let hdr = TcpHeader::parse(&data).unwrap();
    assert!(hdr.is_syn());
    assert!(hdr.is_ack());
    assert!(!hdr.is_fin());
}

#[test]
fn test_parse_udp() {
    let mut data = vec![0u8; 8];
    data[0..2].copy_from_slice(&12345u16.to_be_bytes());
    data[2..4].copy_from_slice(&53u16.to_be_bytes());
    data[4..6].copy_from_slice(&20u16.to_be_bytes());

    let hdr = UdpHeader::parse(&data).unwrap();
    assert_eq!(hdr.src_port, 12345);
    assert_eq!(hdr.dst_port, 53);
    assert_eq!(hdr.length, 20);
    assert_eq!(hdr.payload_len(), 12);
}

#[test]
fn test_parse_udp_too_short() {
    let data = [0u8; 4];
    assert!(UdpHeader::parse(&data).is_err());
}

fn ipv4_tcp_frame() -> Vec<u8> {
    let mut data = vec![0u8; 14 + 20 + 20 + 6];
    data[0..6].copy_from_slice(&[0x00, 0x11, 0x22, 0x33, 0x44, 0x55]);
    data[6..12].copy_from_slice(&[0x66, 0x77, 0x88, 0x99, 0xaa, 0xbb]);
    data[12..14].copy_from_slice(&0x0800u16.to_be_bytes());
    data[14] = 0x45;
    data[22] = 64;
    data[23] = 6;
    data[26..30].copy_from_slice(&[192, 168, 1, 10]);
    data[30..34].copy_from_slice(&[10, 0, 0, 255]);
    data[34..36].copy_from_slice(&40000u16.to_be_bytes());
    data[36..38].copy_from_slice(&443u16.to_be_bytes());
    data[46] = 0x50;
    data[47] = 0x18;
    data
}

#[test]
fn parse_packet_ipv4_tcp_fields() {
    let data = ipv4_tcp_frame();
    assert!(parse_packet_within_bounds(&data));
    let p = parse_packet(&data).unwrap();
    assert_eq!(p.protocol, Protocol::Tcp);
    assert_eq!(p.src_port, 40000);
    assert_eq!(p.dst_port, 443);
    assert_eq!(p.payload_len, 6);
    assert_eq!(p.src_ip(), "192.168.1.10");
    assert_eq!(p.dst_ip(), "10.0.0.255");
    assert_eq!(p.src_ip_bytes(), [0, 0, 0, 0, 0, 0, 0, 0, 0, 0, 0xff, 0xff, 192, 168, 1, 10]);
    assert_eq!(p.transport_header_len, 20);
    assert_eq!(p.total_len(), data.len());
    assert_eq!(p.checked_total_len(), Some(data.len()));
    assert_eq!(p.ip.version(), IpVersion::V4);
    assert_eq!(p.ip.ttl(), 64);
    assert_eq!(p.to_string(), "TCP 192.168.1.10:40000 -> 10.0.0.255:443 (66:77:88:99:aa:bb) len=60");
}

#[test]
fn parse_packet_ipv4_udp_and_icmp() {
    let mut data = ipv4_tcp_frame();
    data[23] = 17;
    let p = parse_packet(&data).unwrap();
    assert_eq!(p.protocol, Protocol::Udp);
    assert_eq!(p.payload_len, 26 - 8);
    data[23] = 1;
    let p = parse_packet(&data).unwrap();
    assert_eq!(p.protocol, Protocol::Icmp);
    assert_eq!((p.src_port, p.dst_port, p.payload_len), (0, 0, 26));
    data[23] = 47;
    let p = parse_packet(&data).unwrap();
    assert_eq!(p.protocol, Protocol::Other(47));
}

#[test]
fn parse_packet_ipv6_udp() {
    let mut data = vec![0u8; 14 + 40 + 8 + 4];
    data[12..14].copy_from_slice(&0x86DDu16.to_be_bytes());
    data[14] = 0x60;
    data[20] = 17;
    data[21] = 32;
    data[22] = 0x20;
    data[23] = 0x01;
    data[37] = 1;
    data[38] = 0xfe;
    data[39] = 0x80;
    data[53] = 2;
    data[54..56].copy_from_slice(&5353u16.to_be_bytes());
    data[56..58].copy_from_slice(&53u16.to_be_bytes());
    let p = parse_packet(&data).unwrap();
    assert_eq!(p.protocol, Protocol::Udp);
    assert_eq!((p.src_port, p.dst_port), (5353, 53));
    assert_eq!(p.transport_header_len, 0);
    assert_eq!(p.payload_len, 12);
    assert_eq!(p.ip.version(), IpVersion::V6);
    assert_eq!(p.ip.ttl(), 32);
    assert_eq!(p.src_ip(), "2001:0000:0000:0000:0000:0000:0000:0001");
    assert_eq!(p.dst_ip(), "fe80:0000:0000:0000:0000:0000:0000:0002");
    assert_eq!(p.total_len(), data.len());
}

#[test]
fn parse_packet_errors() {
    let mut data = ipv4_tcp_frame();
    data[12..14].copy_from_slice(&0x0806u16.to_be_bytes());
    assert!(matches!(parse_packet(&data), Err(ParserError::UnsupportedEtherType(0x0806))));
    let mut data = ipv4_tcp_frame();
    data[14] = 0x55;
    assert!(matches!(parse_packet(&data), Err(ParserError::InvalidIpVersion(5))));
    let mut data = ipv4_tcp_frame();
    data[14] = 0x44;
    match parse_packet(&data) {
        Err(ParserError::ParseError(m)) => assert_eq!(m, "IHL too small"),
        other => panic!("unexpected {:?}", other),
    }
    let mut data = ipv4_tcp_frame();
    data[46] = 0x40;
    assert!(matches!(parse_packet(&data), Err(ParserError::InvalidTcpDataOffset(4))));
    let data = ipv4_tcp_frame();
    assert!(matches!(parse_packet(&data[..40]), Err(ParserError::PacketTooShort(20, 6))));
    let mut vlan = vec![0u8; 16];
    vlan[12..14].copy_from_slice(&0x8100u16.to_be_bytes());
    assert!(matches!(parse_packet(&vlan), Err(ParserError::PacketTooShort(18, 16))));
}

#[test]
fn parse_packet_out_of_bounds_is_detected() {
    let mut data = ipv4_tcp_frame();
    data[14] = 0x4f;
    assert!(!parse_packet_within_bounds(&data));
    let mut data = ipv4_tcp_frame();
    data[46] = 0xf0;
    assert!(!parse_packet_within_bounds(&data));
    assert!(parse_packet_within_bounds(&[0u8; 3]));
}

#[test]
fn header_texts_and_accessors() {
    let mut data = vec![0u8; 14];
    data[0..6].copy_from_slice(&[0x00, 0x1a, 0x2b, 0x3c, 0x4d, 0xff]);
    let frame = EthernetFrame::parse(&data).unwrap();
    assert_eq!(frame.dst_mac_str(), "00:1a:2b:3c:4d:ff");
    assert_eq!(frame.src_mac_str(), "00:00:00:00:00:00");
    assert_eq!(frame.header_len(), 14);

    let mut v4 = vec![0u8; 20];
    v4[0] = 0x46;
    v4[1] = 0xb9;
    v4[6] = 0x5f;
    v4[7] = 0xff;
    v4[12..16].copy_from_slice(&[255, 0, 7, 99]);
    let h = Ipv4Header::parse(&v4).unwrap();
    assert_eq!(h.header_len(), 24);
    assert_eq!((h.dscp, h.ecn, h.flags, h.fragment_offset), (0x2e, 1, 2, 0x1fff));
    assert_eq!(h.src_ip_str(), "255.0.7.99");
    assert_eq!(h.dst_ip_str(), "0.0.0.0");
    assert_eq!(h.src_ip_to_ipv6(), [0, 0, 0, 0, 0, 0, 0, 0, 0, 0, 0xff, 0xff, 255, 0, 7, 99]);
    let ip = IpHeader::parse_ipv4(&v4).unwrap();
    assert_eq!(ip.src_ip_str(), "255.0.7.99");
    assert_eq!(ip.dst_ip_bytes()[10..12], [0xff, 0xff]);

    let mut v6 = vec![0u8; 40];
    v6[0] = 0x6a;
    v6[1] = 0xbc;
    v6[2] = 0xde;
    v6[3] = 0xf0;
    v6[24] = 0xab;
    v6[25] = 0xcd;
    let h6 = Ipv6Header::parse(&v6).unwrap();
    assert_eq!(h6.traffic_class, 0xab);
    assert_eq!(h6.flow_label, 0xcdef0);
    assert_eq!(h6.header_len(), 40);
    assert_eq!(h6.dst_ip_str(), "abcd:0000:0000:0000:0000:0000:0000:0000");
    v6[0] = 0x40;
    assert!(matches!(Ipv6Header::parse(&v6), Err(ParserError::InvalidIpVersion(4))));
    assert!(matches!(IpHeader::parse_ipv6(&v6[..39]), Err(ParserError::PacketTooShort(40, 39))));

    let mut t = vec![0u8; 20];
    t[12] = 0x6f;
    t[13] = 0x3f;
    let th = TcpHeader::parse(&t).unwrap();
    assert_eq!(th.header_len(), 24);
    assert_eq!(th.reserved, 0x0e);
    assert_eq!(th.ports(), (0, 0));
    assert!(th.is_fin() && th.is_rst() && th.is_psh() && th.is_urg());
    assert_eq!(th.flag_names(), vec!["FIN", "SYN", "RST", "PSH", "ACK", "URG"]);

    let u = UdpHeader::parse(&[0, 1, 0, 2, 0, 8, 0, 0]).unwrap();
    assert_eq!(u.header_len(), 8);
    assert_eq!(u.ports(), (1, 2));
    assert_eq!(u.payload_len(), 0);
}

#[test]
fn parser_error_messages() {
    assert_eq!(
        ParserError::PacketTooShort(14, 3).to_string(),
        "Packet too short: need at least 14 bytes, got 3"
    );
    assert_eq!(ParserError::UnsupportedEtherType(0x0806).to_string(), "Unsupported Ethernet type: 0x0806");
    assert_eq!(ParserError::InvalidIpVersion(7).to_string(), "Invalid IP version: 7");
    assert_eq!(ParserError::InvalidTcpDataOffset(2).to_string(), "Invalid TCP data offset: 2");
    assert_eq!(ParserError::ParseError("IHL too small".to_string()).to_string(), "Parse error: IHL too small");
}

fn ipv6_hop_by_hop_tcp_frame() -> Vec<u8> {
    let mut data = vec![0u8; 82];
    data[12..14].copy_from_slice(&[0x86, 0xDD]);
    data[14] = 0x60;
    data[20] = 0;
    data[54] = 6;
    data[55] = 0;
    data[62..64].copy_from_slice(&[0x30, 0x39]);
    data[64..66].copy_from_slice(&[0x00, 0x50]);
    data[74] = 0x50;
    data
}

#[test]
fn parse_packet_ipv6_follows_hop_by_hop_header() {
    let data = ipv6_hop_by_hop_tcp_frame();
    let p = parse_packet(&data).unwrap();
    assert_eq!(p.protocol, Protocol::Tcp);
    assert_eq!((p.src_port, p.dst_port), (12345, 80));
    assert_eq!(p.transport_header_len, 0);
    assert_eq!(p.payload_len, 28);
    assert_eq!(p.total_len(), data.len());
}

#[test]
fn parse_packet_ipv6_follows_routing_and_destination_headers() {
    let mut data = vec![0u8; 14 + 40 + 16 + 8 + 8 + 3];
    data[12..14].copy_from_slice(&[0x86, 0xDD]);
    data[14] = 0x60;
    data[20] = 43;
    data[54] = 60;
    data[55] = 1;
    data[70] = 17;
    data[71] = 0;
    data[78..80].copy_from_slice(&5353u16.to_be_bytes());
    data[80..82].copy_from_slice(&53u16.to_be_bytes());
    let p = parse_packet(&data).unwrap();
    assert_eq!(p.protocol, Protocol::Udp);
    assert_eq!((p.src_port, p.dst_port), (5353, 53));
    assert_eq!(p.payload_len, 35);
    assert_eq!(p.total_len(), data.len());
}

#[test]
fn parse_packet_ipv6_fragments() {
    let mut data = vec![0u8; 14 + 40 + 8 + 20];
    data[12..14].copy_from_slice(&[0x86, 0xDD]);
    data[14] = 0x60;
    data[20] = 44;
    data[54] = 6;
    data[62..64].copy_from_slice(&1234u16.to_be_bytes());
    data[64..66].copy_from_slice(&80u16.to_be_bytes());
    data[74] = 0x50;
    let first = parse_packet(&data).unwrap();
    assert_eq!(first.protocol, Protocol::Tcp);
    assert_eq!((first.src_port, first.dst_port), (1234, 80));
    data[56..58].copy_from_slice(&(185u16 << 3).to_be_bytes());
    let later = parse_packet(&data).unwrap();
    assert_eq!(later.protocol, Protocol::Other(6));
    assert_eq!((later.src_port, later.dst_port), (0, 0));
    assert_eq!(later.payload_len, 28);
    assert_eq!(later.total_len(), data.len());
}

#[test]
fn parse_packet_ipv6_extension_header_cut_short() {
    let mut data = ipv6_hop_by_hop_tcp_frame();
    data[55] = 5;
    assert!(matches!(parse_packet(&data), Err(ParserError::PacketTooShort(48, 28))));
    data.truncate(14 + 40 + 4);
    assert!(matches!(parse_packet(&data), Err(ParserError::PacketTooShort(8, 4))));
}

#[test]
fn parse_packet_ipv6_tcp_offset_past_end_is_accepted() {
    let mut data = ipv6_hop_by_hop_tcp_frame();
    data[74] = 0xf0;
    let p = parse_packet(&data).unwrap();
    assert_eq!((p.protocol, p.src_port, p.dst_port), (Protocol::Tcp, 12345, 80));
    assert_eq!(p.transport_header_len, 0);
    assert_eq!(p.payload_len, 28);
    assert_eq!(p.total_len(), data.len());
}

#[test]
fn checked_total_len_reports_overflow() {
    let mut p = parse_packet(&ipv4_tcp_frame()).unwrap();
    assert_eq!(p.checked_total_len(), Some(60));
    p.payload_len = usize::MAX;
    assert_eq!(p.checked_total_len(), None);
}
