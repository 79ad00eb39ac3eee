use tickertinker::address::IpAddress;
use tickertinker::analyze::{analyze_headers, from_null, get_sniffable_headers, MyLinkType};
use tickertinker::headers::{ArpFields, NetFields, PacketHeaders, TransportFields};
use tickertinker::text::mac_from_dec_to_hex;
use tickertinker::types::{ArpType, IcmpType, IcmpTypeV4, IcmpTypeV6, IpVersion, Protocol};

/// An IPv4 header (20 bytes, no options) from 192.168.1.2 to 8.8.8.8, then a UDP header
/// from port 12345 to port 53.
fn ipv4_udp() -> Vec<u8> {
    vec![
        0x45, 0x00, 0x00, 0x1c, 0x00, 0x00, 0x00, 0x00, 0x40, 0x11, 0x00, 0x00, 192, 168, 1, 2, 8,
        8, 8, 8, 0x30, 0x39, 0x00, 0x35, 0x00, 0x08, 0x00, 0x00,
    ]
}

fn framed(prefix: [u8; 4]) -> Vec<u8> {
    let mut p = prefix.to_vec();
    p.extend(ipv4_udp());
    p
}

#[test]
fn null_frame_little_endian_tag_is_ipv4() {
    let h = get_sniffable_headers(&framed([2, 0, 0, 0]), MyLinkType::Null).unwrap();
    let a = analyze_headers(&h).unwrap();
    assert_eq!(a.ip_version, IpVersion::IPv4);
    assert_eq!(a.key.address1, IpAddress::V4(0xc0a8_0102));
    assert_eq!(a.key.address2, IpAddress::V4(0x0808_0808));
    assert_eq!(a.key.port1, Some(12345));
    assert_eq!(a.key.port2, Some(53));
    assert_eq!(a.key.protocol, Protocol::UDP);
    assert_eq!(a.exchanged_bytes, 28);
    assert_eq!(a.mac_addresses, (None, None));
}

#[test]
fn null_frame_big_endian_tag_is_ipv4() {
    let h = get_sniffable_headers(&framed([0, 0, 0, 2]), MyLinkType::Loop).unwrap();
    let a = analyze_headers(&h).unwrap();
    assert_eq!(a.ip_version, IpVersion::IPv4);
    assert_eq!(a.key.port2, Some(53));
}

#[test]
fn null_frame_ipv6_tags_are_accepted_and_others_refused() {
    for tag in [24u8, 28, 30] {
        assert!(from_null(&framed([tag, 0, 0, 0])).is_some());
    }
    assert!(from_null(&framed([5, 0, 0, 0])).is_none());
    assert!(from_null(&framed([0, 0, 2, 0])).is_none());
    assert!(from_null(&[2, 0, 0, 0]).is_none());
    assert!(from_null(&[]).is_none());
}

#[test]
fn raw_ip_link_type_reads_ip_directly() {
    let h = get_sniffable_headers(&ipv4_udp(), MyLinkType::RawIp).unwrap();
    let a = analyze_headers(&h).unwrap();
    assert_eq!(a.key.port1, Some(12345));
    assert_eq!(a.exchanged_bytes, 28);
}

#[test]
fn unsupported_and_unassigned_link_types_read_bare_ip() {
    for t in [MyLinkType::Unsupported, MyLinkType::NotYetAssigned, MyLinkType::IPv4] {
        let h = get_sniffable_headers(&ipv4_udp(), t).unwrap();
        assert_eq!(analyze_headers(&h).unwrap().key.port2, Some(53));
    }
}

#[test]
fn ethernet_frame_adds_macs_and_fourteen_bytes() {
    let mut p = vec![0xff, 0xff, 0xff, 0xff, 0xff, 0xff, 0x00, 0x1a, 0x2b, 0x3c, 0x4d, 0x5e, 0x08, 0x00];
    p.extend(ipv4_udp());
    let h = get_sniffable_headers(&p, MyLinkType::Ethernet).unwrap();
    let a = analyze_headers(&h).unwrap();
    assert_eq!(a.exchanged_bytes, 42);
    assert_eq!(a.mac_addresses.0.as_deref(), Some("00:1a:2b:3c:4d:5e"));
    assert_eq!(a.mac_addresses.1.as_deref(), Some("ff:ff:ff:ff:ff:ff"));
}

#[test]
fn truncated_ethernet_frame_is_skipped() {
    assert!(get_sniffable_headers(&[0x00, 0x01, 0x02], MyLinkType::Ethernet).is_none());
}

#[test]
fn link_type_codes() {
    assert_eq!(MyLinkType::from_pcap_link_type(0), MyLinkType::Null);
    assert_eq!(MyLinkType::from_pcap_link_type(1), MyLinkType::Ethernet);
    assert_eq!(MyLinkType::from_pcap_link_type(101), MyLinkType::RawIp);
    assert_eq!(MyLinkType::from_pcap_link_type(108), MyLinkType::Loop);
    assert_eq!(MyLinkType::from_pcap_link_type(228), MyLinkType::IPv4);
    assert_eq!(MyLinkType::from_pcap_link_type(229), MyLinkType::IPv6);
    assert_eq!(MyLinkType::from_pcap_link_type(127), MyLinkType::Unsupported);
}

fn arp(sender: Vec<u8>, target: Vec<u8>, proto: u16) -> PacketHeaders {
    PacketHeaders {
        link: None,
        net: Some(NetFields::Arp(ArpFields {
            proto_addr_type: proto,
            sender_protocol_addr: sender,
            target_protocol_addr: target,
            packet_len: 28,
            operation: 1,
        })),
        transport: None,
    }
}

#[test]
fn arp_with_five_byte_sender_address_is_skipped() {
    assert!(analyze_headers(&arp(vec![10, 0, 0, 1, 7], vec![10, 0, 0, 2], 0x0800)).is_none());
    assert!(analyze_headers(&arp(vec![10, 0, 0], vec![10, 0, 0, 2], 0x0800)).is_none());
    assert!(analyze_headers(&arp(vec![10, 0, 0, 1], vec![10, 0, 0, 2], 0x1234)).is_none());
}

#[test]
fn arp_request_gives_an_arp_flow() {
    let a = analyze_headers(&arp(vec![10, 0, 0, 1], vec![10, 0, 0, 2], 0x0800)).unwrap();
    assert_eq!(a.key.protocol, Protocol::ARP);
    assert_eq!(a.key.address1, IpAddress::V4(0x0a00_0001));
    assert_eq!(a.key.address2, IpAddress::V4(0x0a00_0002));
    assert_eq!(a.key.port1, None);
    assert_eq!(a.arp_type, ArpType::Request);
    assert_eq!(a.exchanged_bytes, 28);
}

#[test]
fn arp_over_ipv6_addresses() {
    let mut s = vec![0u8; 16];
    s[15] = 1;
    let a = analyze_headers(&arp(s, vec![0u8; 16], 0x86dd)).unwrap();
    assert_eq!(a.key.address1, IpAddress::V6(1));
    assert_eq!(a.ip_version, IpVersion::IPv6);
}

#[test]
fn ipv6_counts_forty_bytes_plus_payload_and_icmp_types() {
    let h = PacketHeaders {
        link: None,
        net: Some(NetFields::Ipv6 { source: 1, destination: 2, payload_length: 65535 }),
        transport: Some(TransportFields::Icmpv6 { type_u8: 128 }),
    };
    let a = analyze_headers(&h).unwrap();
    assert_eq!(a.exchanged_bytes, 65575);
    assert_eq!(a.key.protocol, Protocol::ICMP);
    assert_eq!(a.icmp_type, IcmpType::V6(IcmpTypeV6::EchoRequest));
    let h4 = PacketHeaders {
        link: None,
        net: Some(NetFields::Ipv4 { source: 1, destination: 2, total_len: 84 }),
        transport: Some(TransportFields::Icmpv4 { type_u8: 0 }),
    };
    assert_eq!(analyze_headers(&h4).unwrap().icmp_type, IcmpType::V4(IcmpTypeV4::EchoReply));
}

#[test]
fn missing_transport_header_is_skipped() {
    let h = PacketHeaders {
        link: None,
        net: Some(NetFields::Ipv4 { source: 1, destination: 2, total_len: 20 }),
        transport: None,
    };
    assert!(analyze_headers(&h).is_none());
    let none = PacketHeaders { link: None, net: None, transport: None };
    assert!(analyze_headers(&none).is_none());
}

#[test]
fn mac_to_hex() {
    assert_eq!(mac_from_dec_to_hex([0, 26, 43, 60, 77, 94]), "00:1a:2b:3c:4d:5e");
    assert_eq!(mac_from_dec_to_hex([255, 0, 1, 2, 3, 171]), "ff:00:01:02:03:ab");
}
