use tickertinker::address::IpAddress;
use tickertinker::service::{get_service, Service, ServiceTable};
use tickertinker::types::{AddressPortPair, Protocol, TrafficDirection};

fn table() -> ServiceTable {
    let mut t = ServiceTable::new();
    assert!(t.add("http", 80, Protocol::TCP));
    assert!(t.add("https", 443, Protocol::TCP));
    assert!(t.add("domain", 53, Protocol::UDP));
    assert!(t.add("irdmi", 8000, Protocol::TCP));
    t
}

fn name(s: &Service) -> String {
    s.to_display_string()
}

#[test]
fn well_known_named_port_beats_unnamed_port_with_bonus() {
    let key = AddressPortPair::new(
        IpAddress::V4(0x0808_0808),
        Some(80),
        IpAddress::V4(0xc0a8_0102),
        Some(50000),
        Protocol::TCP,
    );
    let s = get_service(&key, TrafficDirection::Outgoing, &[], &table());
    assert_eq!(name(&s), "http");
    let s = get_service(&key, TrafficDirection::Incoming, &[], &table());
    assert_eq!(name(&s), "http");
}

#[test]
fn direction_bonus_decides_between_named_ports() {
    // both named and well known; incoming gives the bonus to the source port
    let key = AddressPortPair::new(IpAddress::V4(1), Some(443), IpAddress::V4(2), Some(80), Protocol::TCP);
    assert_eq!(name(&get_service(&key, TrafficDirection::Incoming, &[], &table())), "https");
    assert_eq!(name(&get_service(&key, TrafficDirection::Outgoing, &[], &table())), "http");
    // a named port that is not well known, with the bonus, loses to a well-known one without
    let key = AddressPortPair::new(IpAddress::V4(1), Some(443), IpAddress::V4(2), Some(8000), Protocol::TCP);
    assert_eq!(name(&get_service(&key, TrafficDirection::Outgoing, &[], &table())), "https");
    let key = AddressPortPair::new(IpAddress::V4(1), Some(8000), IpAddress::V4(2), Some(443), Protocol::TCP);
    assert_eq!(name(&get_service(&key, TrafficDirection::Incoming, &[], &table())), "https");
}

#[test]
fn multicast_destination_gets_the_bonus() {
    let key = AddressPortPair::new(IpAddress::V4(1), Some(53), IpAddress::V4(0xe000_00fb), Some(53), Protocol::UDP);
    assert_eq!(name(&get_service(&key, TrafficDirection::Incoming, &[], &table())), "domain");
}

#[test]
fn services_not_applicable_or_unknown() {
    let icmp = AddressPortPair::new(IpAddress::V4(1), None, IpAddress::V4(2), None, Protocol::ICMP);
    assert!(get_service(&icmp, TrafficDirection::Outgoing, &[], &table()) == Service::NotApplicable);
    let arp = AddressPortPair::new(IpAddress::V4(1), None, IpAddress::V4(2), None, Protocol::ARP);
    assert!(get_service(&arp, TrafficDirection::Outgoing, &[], &table()) == Service::NotApplicable);
    let half = AddressPortPair::new(IpAddress::V4(1), Some(80), IpAddress::V4(2), None, Protocol::TCP);
    assert!(get_service(&half, TrafficDirection::Outgoing, &[], &table()) == Service::NotApplicable);
    let none = AddressPortPair::new(IpAddress::V4(1), Some(40000), IpAddress::V4(2), Some(50000), Protocol::TCP);
    assert!(get_service(&none, TrafficDirection::Outgoing, &[], &table()) == Service::Unknown);
    // port 53 is known for UDP only
    let tcp53 = AddressPortPair::new(IpAddress::V4(1), Some(40000), IpAddress::V4(2), Some(53), Protocol::TCP);
    assert!(get_service(&tcp53, TrafficDirection::Outgoing, &[], &table()) == Service::Unknown);
}

#[test]
fn table_refuses_invalid_names() {
    let mut t = ServiceTable::new();
    assert!(!t.add("", 1, Protocol::TCP));
    assert!(!t.add("unknown", 1, Protocol::TCP));
    assert!(!t.add("-", 1, Protocol::TCP));
    assert!(!t.add("has space", 1, Protocol::TCP));
    assert!(!t.add("tab\tname", 1, Protocol::TCP));
    assert!(!t.add("#comment", 1, Protocol::TCP));
    assert!(!t.add("what?", 1, Protocol::TCP));
    assert!(!t.add("caf\u{e9}", 1, Protocol::TCP));
    assert!(!t.add("ping", 1, Protocol::ICMP));
    assert_eq!(t.len(), 0);
    assert!(t.add("unknowns", 1, Protocol::UDP));
    assert!(t.add("-x", 2, Protocol::UDP));
    assert_eq!(t.len(), 2);
}

#[test]
fn first_entry_wins() {
    let mut t = ServiceTable::new();
    assert!(t.add("first", 7, Protocol::TCP));
    assert!(t.add("second", 7, Protocol::TCP));
    assert_eq!(name(&t.lookup(7, Protocol::TCP)), "first");
    assert!(t.lookup(7, Protocol::UDP) == Service::Unknown);
}

#[test]
fn service_display() {
    assert_eq!(Service::Unknown.to_display_string(), "?");
    assert_eq!(Service::NotApplicable.to_display_string(), "-");
    assert_eq!(Service::Name("https".to_string()).to_display_string(), "https");
    assert_eq!(Service::Name("mdns".to_string()).to_string_with_equal_prefix(), "=mdns");
    assert_eq!(Service::NotApplicable.to_string_with_equal_prefix(), "=-");
    assert_eq!(Service::Unknown.to_string_with_equal_prefix(), "?");
}
