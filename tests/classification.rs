use tickertinker::address::{InterfaceAddress, IpAddress};
use tickertinker::bogon::{bogon_range, is_bogon, Bogon};
use tickertinker::classify::{
    get_address_to_lookup, get_traffic_direction, get_traffic_type, is_broadcast_address,
    is_local_connection, is_my_address,
};
use tickertinker::types::{AddressPortPair, Protocol, TrafficDirection, TrafficType};

const LOOPBACK: IpAddress = IpAddress::V4(0x7f00_0001);

fn iface(addr: u32, mask: u32, broadcast: Option<u32>) -> InterfaceAddress {
    InterfaceAddress {
        addr: IpAddress::V4(addr),
        netmask: Some(IpAddress::V4(mask)),
        broadcast_addr: broadcast.map(IpAddress::V4),
    }
}

#[test]
fn loopback_direction_follows_port_order() {
    let d1 = get_traffic_direction(&LOOPBACK, &LOOPBACK, Some(12345), Some(80), &[]);
    assert_eq!(d1, TrafficDirection::Outgoing);
    let d2 = get_traffic_direction(&LOOPBACK, &LOOPBACK, Some(80), Some(12345), &[]);
    assert_eq!(d2, TrafficDirection::Incoming);
    let v6 = IpAddress::V6(1);
    assert_eq!(get_traffic_direction(&v6, &v6, Some(9), Some(8), &[]), TrafficDirection::Outgoing);
}

#[test]
fn direction_from_interface_addresses() {
    let me = iface(0xc0a8_0102, 0xffff_ff00, Some(0xc0a8_01ff));
    let remote = IpAddress::V4(0x0808_0808);
    let mine = IpAddress::V4(0xc0a8_0102);
    let zero = IpAddress::V4(0);
    let addrs = [me];
    assert_eq!(get_traffic_direction(&mine, &remote, Some(1), Some(2), &addrs), TrafficDirection::Outgoing);
    assert_eq!(get_traffic_direction(&remote, &mine, Some(1), Some(2), &addrs), TrafficDirection::Incoming);
    // an unassigned source talking to a remote address (e.g. DHCP discovery) goes out
    assert_eq!(get_traffic_direction(&zero, &remote, Some(68), Some(67), &addrs), TrafficDirection::Outgoing);
    // an unassigned source talking to this host comes in
    assert_eq!(get_traffic_direction(&zero, &mine, Some(68), Some(67), &addrs), TrafficDirection::Incoming);
}

#[test]
fn direction_without_interface_uses_bogons() {
    let private = IpAddress::V4(0x0a00_0005);
    let public = IpAddress::V4(0x0101_0101);
    assert_eq!(get_traffic_direction(&private, &public, Some(1), Some(2), &[]), TrafficDirection::Outgoing);
    assert_eq!(get_traffic_direction(&public, &private, Some(1), Some(2), &[]), TrafficDirection::Incoming);
}

#[test]
fn traffic_type_only_outgoing_can_be_multicast_or_broadcast() {
    let addrs = [iface(0xc0a8_0102, 0xffff_ff00, Some(0xc0a8_01ff))];
    let mcast = IpAddress::V4(0xe000_00fb);
    let directed = IpAddress::V4(0xc0a8_01ff);
    let limited = IpAddress::V4(0xffff_ffff);
    let other = IpAddress::V4(0x0808_0808);
    assert_eq!(get_traffic_type(&mcast, &addrs, TrafficDirection::Outgoing), TrafficType::Multicast);
    assert_eq!(get_traffic_type(&directed, &addrs, TrafficDirection::Outgoing), TrafficType::Broadcast);
    assert_eq!(get_traffic_type(&limited, &[], TrafficDirection::Outgoing), TrafficType::Broadcast);
    assert_eq!(get_traffic_type(&other, &addrs, TrafficDirection::Outgoing), TrafficType::Unicast);
    assert_eq!(get_traffic_type(&mcast, &addrs, TrafficDirection::Incoming), TrafficType::Unicast);
    assert!(is_broadcast_address(&directed, &addrs));
    assert!(!is_broadcast_address(&other, &addrs));
}

#[test]
fn local_connection_by_subnet_and_link_local() {
    let addrs = [iface(0xc0a8_0102, 0xffff_ff00, None)];
    assert!(is_local_connection(&IpAddress::V4(0xc0a8_0163), &addrs));
    assert!(!is_local_connection(&IpAddress::V4(0xc0a8_0263), &addrs));
    assert!(is_local_connection(&IpAddress::V4(0xa9fe_0001), &addrs));
    // link-local addresses are local whatever the interfaces
    assert!(is_local_connection(&IpAddress::V6(0xfe80 << 112), &addrs));
    assert!(is_local_connection(&IpAddress::V4(0xa9fe_0102), &[]));
    // an IPv6 address is never in the subnet of an IPv4 interface address
    assert!(!is_local_connection(&IpAddress::V6(0xc0a8_0163), &addrs));
    let v6 = [InterfaceAddress {
        addr: IpAddress::V6(0x2001_0db8 << 96 | 5),
        netmask: Some(IpAddress::V6(u128::MAX << 64)),
        broadcast_addr: None,
    }];
    assert!(is_local_connection(&IpAddress::V6(0x2001_0db8 << 96 | 99), &v6));
    assert!(is_local_connection(&IpAddress::V6(0xfe80 << 112 | 1), &v6));
    assert!(!is_local_connection(&IpAddress::V6(0x2001_0db9 << 96), &v6));
    assert!(!is_local_connection(&IpAddress::V4(0xc0a8_0163), &[]));
}

#[test]
fn my_address_includes_loopback() {
    let addrs = [iface(0xc0a8_0102, 0xffff_ff00, None)];
    assert!(is_my_address(&IpAddress::V4(0xc0a8_0102), &addrs));
    assert!(is_my_address(&LOOPBACK, &addrs));
    assert!(!is_my_address(&IpAddress::V4(0xc0a8_0103), &addrs));
}

#[test]
fn address_to_lookup_is_the_remote_side() {
    let key = AddressPortPair::new(IpAddress::V4(1), Some(1), IpAddress::V4(2), Some(2), Protocol::TCP);
    assert_eq!(get_address_to_lookup(&key, TrafficDirection::Outgoing), IpAddress::V4(2));
    assert_eq!(get_address_to_lookup(&key, TrafficDirection::Incoming), IpAddress::V4(1));
}

#[test]
fn bogon_ranges() {
    assert_eq!(is_bogon(&IpAddress::V4(0x0a01_0203)), Some("private-use"));
    assert_eq!(is_bogon(&IpAddress::V4(0xac1f_ffff)), Some("private-use"));
    assert_eq!(is_bogon(&IpAddress::V4(0xac20_0000)), None);
    assert_eq!(is_bogon(&IpAddress::V4(0x6440_0001)), Some("carrier-grade NAT"));
    assert_eq!(is_bogon(&IpAddress::V4(0x7f00_0001)), Some("loopback"));
    assert_eq!(is_bogon(&IpAddress::V4(0xc000_0201)), Some("TEST-NET-1"));
    assert_eq!(is_bogon(&IpAddress::V4(0xc633_6401)), Some("TEST-NET-2"));
    assert_eq!(is_bogon(&IpAddress::V4(0xcb00_7101)), Some("TEST-NET-3"));
    assert_eq!(is_bogon(&IpAddress::V4(0xe000_0001)), Some("multicast"));
    assert_eq!(is_bogon(&IpAddress::V4(0xffff_ffff)), Some("future use"));
    assert_eq!(is_bogon(&IpAddress::V4(0)), Some("\"this\" network"));
    assert_eq!(is_bogon(&IpAddress::V4(0x0808_0808)), None);
    assert_eq!(is_bogon(&IpAddress::V6(0)), Some("node-scope unicast unspecified"));
    assert_eq!(is_bogon(&IpAddress::V6(1)), Some("node-scope unicast loopback"));
    assert_eq!(is_bogon(&IpAddress::V6(0x2001_0db8 << 96)), Some("documentation prefix"));
    assert_eq!(is_bogon(&IpAddress::V6(0xfe80 << 112)), Some("link-local unicast"));
    assert_eq!(is_bogon(&IpAddress::V6(0x2606_4700 << 96)), None);
    assert_eq!(bogon_range(&IpAddress::V6(0xff02 << 112 | 1)), Some(Bogon::MulticastV6));
}

#[test]
fn address_from_bytes() {
    assert_eq!(IpAddress::from_bytes(&[192, 168, 1, 2]), Some(IpAddress::V4(0xc0a8_0102)));
    assert_eq!(IpAddress::from_v4_octets([10, 0, 0, 1]), IpAddress::V4(0x0a00_0001));
    let mut b = [0u8; 16];
    b[0] = 0x20;
    b[1] = 0x01;
    b[15] = 7;
    assert_eq!(IpAddress::from_bytes(&b), Some(IpAddress::V6(0x2001 << 112 | 7)));
    assert_eq!(IpAddress::from_bytes(&[1, 2, 3]), None);
    assert_eq!(IpAddress::from_bytes(&[1, 2, 3, 4, 5]), None);
}
