use tickertinker::address::{InterfaceAddress, IpAddress};
use tickertinker::analyze::MyLinkType;
use tickertinker::data_info::DataInfo;
use tickertinker::host::{Asn, Host};
use tickertinker::host_data_states::HostDataStates;
use tickertinker::info_traffic::{modify_or_insert_in_map, InfoTraffic};
use tickertinker::pipeline::{complete_host_resolution, process_packet, LiveTicker, OfflineTick, TrafficData};
use tickertinker::resolution::{AddressesResolutionState, LookupStep};
use tickertinker::service::{Service, ServiceTable};
use tickertinker::session::{CaptureError, CaptureLifecycle};
use tickertinker::types::{AddressPortPair, ArpType, IcmpType, Protocol, Timestamp, TrafficDirection, TrafficType};

/// IPv4 + UDP from 192.168.1.2:`sport` to `dst`:53.
fn udp_packet(sport: u16, dst: [u8; 4]) -> Vec<u8> {
    let mut p = vec![2, 0, 0, 0, 0x45, 0x00, 0x00, 0x1c, 0, 0, 0, 0, 0x40, 0x11, 0, 0, 192, 168, 1, 2];
    p.extend(dst);
    p.extend([(sport >> 8) as u8, sport as u8, 0x00, 0x35, 0x00, 0x08, 0x00, 0x00]);
    p
}

fn me() -> Vec<InterfaceAddress> {
    vec![InterfaceAddress {
        addr: IpAddress::V4(0xc0a8_0102),
        netmask: Some(IpAddress::V4(0xffff_ff00)),
        broadcast_addr: Some(IpAddress::V4(0xc0a8_01ff)),
    }]
}

fn services() -> ServiceTable {
    let mut t = ServiceTable::new();
    assert!(t.add("domain", 53, Protocol::UDP));
    t
}

fn host(name: &str) -> Host {
    Host {
        domain: name.to_string(),
        asn: Asn { code: "15169".to_string(), name: "GOOGLE".to_string() },
        country: "US".to_string(),
    }
}

fn replay(packets: &[Vec<u8>]) -> (InfoTraffic, AddressesResolutionState, Vec<LookupStep>) {
    let mut traffic = InfoTraffic::new();
    let mut ledger = AddressesResolutionState::new();
    let mut steps = Vec::new();
    for (i, p) in packets.iter().enumerate() {
        let ts = Timestamp::new(100 + i as i64, 0);
        if let Some(rec) = process_packet(&mut traffic, &mut ledger, p, MyLinkType::Null, ts, &me(), &services()) {
            steps.push(rec.lookup);
        }
    }
    (traffic, ledger, steps)
}

fn sample() -> Vec<Vec<u8>> {
    vec![
        udp_packet(40000, [8, 8, 8, 8]),
        udp_packet(40000, [8, 8, 8, 8]),
        vec![1, 2, 3],
        udp_packet(40001, [8, 8, 8, 8]),
        udp_packet(40000, [8, 8, 8, 8]),
        udp_packet(40000, [1, 1, 1, 1]),
    ]
}

#[test]
fn transmitted_packets_count_each_decoded_packet_of_the_flow() {
    let (traffic, _, _) = replay(&sample());
    assert_eq!(traffic.map.len(), 3);
    let (key, info) = &traffic.map[0];
    assert_eq!(key.port1, Some(40000));
    assert_eq!(key.address2, IpAddress::V4(0x0808_0808));
    assert_eq!(info.transmitted_packets, 3);
    assert_eq!(info.transmitted_bytes, 84);
    assert_eq!(info.traffic_direction, TrafficDirection::Outgoing);
    assert_eq!(info.service.to_display_string(), "domain");
    assert_eq!(info.initial_timestamp, Timestamp::new(100, 0));
    assert_eq!(info.final_timestamp, Timestamp::new(104, 0));
    assert_eq!(traffic.map[1].1.transmitted_packets, 1);
    assert_eq!(traffic.map[2].1.transmitted_packets, 1);
    assert_eq!(traffic.tot_data_info.outgoing_packets, 5);
    assert_eq!(traffic.tot_data_info.outgoing_bytes, 140);
    assert_eq!(traffic.services.len(), 1);
    assert_eq!(traffic.services[0].1.outgoing_packets, 5);
}

#[test]
fn replaying_twice_gives_identical_counters() {
    let (a, _, sa) = replay(&sample());
    let (b, _, sb) = replay(&sample());
    assert_eq!(a.map.len(), b.map.len());
    for (x, y) in a.map.iter().zip(b.map.iter()) {
        assert_eq!(x.0, y.0);
        assert_eq!(x.1.transmitted_packets, y.1.transmitted_packets);
        assert_eq!(x.1.transmitted_bytes, y.1.transmitted_bytes);
        assert_eq!(x.1.final_timestamp, y.1.final_timestamp);
    }
    assert_eq!(a.tot_data_info, b.tot_data_info);
    assert_eq!(a.services[0].1, b.services[0].1);
    assert_eq!(sa, sb);
}

#[test]
fn one_lookup_per_address() {
    let (_, ledger, steps) = replay(&sample());
    assert_eq!(
        steps,
        vec![LookupStep::Dispatch, LookupStep::Pending, LookupStep::Pending, LookupStep::Pending, LookupStep::Dispatch]
    );
    assert!(ledger.is_waiting(&IpAddress::V4(0x0808_0808)));
    assert!(ledger.is_waiting(&IpAddress::V4(0x0101_0101)));
}

#[test]
fn resolved_address_never_waits_again() {
    let mut ledger = AddressesResolutionState::new();
    let a = IpAddress::V4(0x0808_0808);
    let t = Timestamp::new(1, 0);
    let (s1, h1) = ledger.register_packet(a, 10, TrafficDirection::Outgoing, t);
    assert_eq!(s1, LookupStep::Dispatch);
    assert!(h1.is_none());
    assert_eq!(ledger.register_packet(a, 20, TrafficDirection::Outgoing, t).0, LookupStep::Pending);
    let waited = ledger.complete_resolution(a, host("dns.google"));
    assert_eq!(waited.outgoing_packets, 2);
    assert_eq!(waited.outgoing_bytes, 30);
    assert!(!ledger.is_waiting(&a));
    let (s3, h3) = ledger.register_packet(a, 5, TrafficDirection::Incoming, t);
    assert_eq!(s3, LookupStep::Resolved);
    assert!(h3.unwrap() == host("dns.google"));
    assert!(!ledger.is_waiting(&a));
    let again = ledger.complete_resolution(a, host("other"));
    assert_eq!(again, DataInfo::default());
    assert!(!ledger.is_waiting(&a));
    assert!(ledger.resolved_host(&a).unwrap() == host("other"));
}

#[test]
fn resolved_hosts_collect_later_packets() {
    let packets = sample();
    let mut traffic = InfoTraffic::new();
    let mut ledger = AddressesResolutionState::new();
    let t = Timestamp::new(1, 0);
    let rec = process_packet(&mut traffic, &mut ledger, &packets[0], MyLinkType::Null, t, &me(), &services()).unwrap();
    assert_eq!(rec.lookup, LookupStep::Dispatch);
    let msg = complete_host_resolution(
        &mut ledger,
        &rec.key,
        rec.direction,
        Some("dns.google".to_string()),
        "8.8.8.8".to_string(),
        "US".to_string(),
        Asn { code: "15169".to_string(), name: "GOOGLE".to_string() },
        &me(),
    );
    assert_eq!(msg.rdns, "dns.google");
    assert_eq!(msg.address_to_lookup, IpAddress::V4(0x0808_0808));
    assert_eq!(msg.data_info_host.data_info.outgoing_packets, 1);
    assert!(!msg.data_info_host.is_bogon);
    assert!(!msg.data_info_host.is_local);
    assert_eq!(msg.data_info_host.traffic_type, TrafficType::Unicast);
    traffic.merge_host(&msg.host, msg.data_info_host);
    let rec2 = process_packet(&mut traffic, &mut ledger, &packets[1], MyLinkType::Null, t, &me(), &services()).unwrap();
    assert_eq!(rec2.lookup, LookupStep::Resolved);
    assert_eq!(traffic.hosts.len(), 1);
    assert!(traffic.hosts[0].0 == host("dns.google"));
    assert_eq!(traffic.hosts[0].1.data_info.outgoing_packets, 2);
    assert_eq!(traffic.hosts[0].1.data_info.outgoing_bytes, 56);
}

#[test]
fn failed_lookup_falls_back_to_address_text() {
    let mut ledger = AddressesResolutionState::new();
    let key = AddressPortPair::new(IpAddress::V4(0x0a00_0001), Some(1), IpAddress::V4(0xc0a8_0102), Some(2), Protocol::TCP);
    let empty = Asn { code: String::new(), name: String::new() };
    let msg = complete_host_resolution(&mut ledger, &key, TrafficDirection::Incoming, None, "10.0.0.1".to_string(), String::new(), empty.clone(), &me());
    assert_eq!(msg.rdns, "10.0.0.1");
    assert_eq!(msg.host.domain, "10.0.0.1");
    assert!(msg.data_info_host.is_bogon);
    assert_eq!(msg.data_info_host.data_info, DataInfo::default());
    let msg2 = complete_host_resolution(&mut ledger, &key, TrafficDirection::Incoming, Some(String::new()), "10.0.0.1".to_string(), String::new(), empty, &me());
    assert_eq!(msg2.rdns, "10.0.0.1");
}

#[test]
fn undecodable_packet_changes_nothing() {
    let mut traffic = InfoTraffic::new();
    let mut ledger = AddressesResolutionState::new();
    let r = process_packet(&mut traffic, &mut ledger, &[9, 9], MyLinkType::Null, Timestamp::new(5, 0), &me(), &services());
    assert!(r.is_none());
    assert_eq!(traffic.last_packet_timestamp, Timestamp::default());
    assert!(traffic.map.is_empty());
}

#[test]
fn icmp_and_arp_histograms() {
    let mut traffic = InfoTraffic::new();
    let table = ServiceTable::new();
    let key = AddressPortPair::new(IpAddress::V4(1), None, IpAddress::V4(2), None, Protocol::ARP);
    for _ in 0..3 {
        let (_, s) = modify_or_insert_in_map(&mut traffic, &key, &[], &table, (None, None), IcmpType::default(), ArpType::Reply, 42);
        assert!(s == Service::NotApplicable);
    }
    assert_eq!(traffic.map[0].1.arp_types, vec![(ArpType::Reply, 3)]);
    assert!(traffic.map[0].1.icmp_types.is_empty());
    assert_eq!(traffic.map[0].1.transmitted_bytes, 126);
}

#[test]
fn take_but_leave_something_keeps_time_and_drops() {
    let (mut traffic, _, _) = replay(&sample());
    traffic.dropped_packets = 4;
    let taken = traffic.take_but_leave_something();
    assert_eq!(taken.map.len(), 3);
    assert!(traffic.map.is_empty());
    assert!(traffic.services.is_empty());
    assert_eq!(traffic.dropped_packets, 4);
    assert_eq!(traffic.last_packet_timestamp, Timestamp::new(105, 0));
}

#[test]
fn offline_ticks() {
    let mut traffic = InfoTraffic::new();
    let first = traffic.offline_tick(Timestamp::new(10, 5));
    assert_eq!(first, OfflineTick { emit: false, gap_secs: None });
    assert_eq!(traffic.last_packet_timestamp, Timestamp::new(10, 5));
    assert_eq!(traffic.offline_tick(Timestamp::new(10, 900)), OfflineTick { emit: false, gap_secs: None });
    assert_eq!(traffic.offline_tick(Timestamp::new(11, 0)), OfflineTick { emit: true, gap_secs: None });
    assert_eq!(traffic.offline_tick(Timestamp::new(15, 0)), OfflineTick { emit: true, gap_secs: Some(4) });
}

#[test]
fn live_ticker_fires_each_second() {
    let mut t = LiveTicker::new();
    assert!(!t.due(5_000));
    t.first_packet(1_000);
    t.first_packet(1_500);
    assert!(!t.due(1_999));
    assert!(t.due(2_000));
    assert!(!t.due(2_500));
    assert!(t.due(3_100));
    assert_eq!(t.started_ms, Some(3_000));
}

#[test]
fn traffic_data_totals() {
    let mut d = TrafficData::default();
    d.count_packet(60);
    d.count_packet(1500);
    assert_eq!(d, TrafficData { total_packets: 2, total_bytes: 1560 });
    d.count_packet(u64::MAX);
    assert_eq!(d.total_bytes, u64::MAX);
}

#[test]
fn host_data_collects_distinct_values() {
    let mut states = HostDataStates::new();
    states.data.update(&host("dns.google"), false);
    states.data.update(&host("dns.google"), false);
    states.data.update(&host("8.8.4.4"), true);
    assert_eq!(states.data.domains, (vec!["dns.google".to_string()], true));
    assert_eq!(states.data.asns, (vec!["GOOGLE".to_string()], true));
    assert_eq!(states.data.countries, (vec!["US".to_string()], true));
    let blank = Host { domain: String::new(), asn: Asn { code: String::new(), name: String::new() }, country: String::new() };
    states.data.domains.1 = false;
    states.data.update(&blank, false);
    assert!(!states.data.domains.1);
    assert_eq!(states.data.countries.0.len(), 1);
}

#[test]
fn one_capture_at_a_time() {
    let mut l = CaptureLifecycle::new();
    assert_eq!(l.end(), Err(CaptureError::NotRunning));
    assert_eq!(l.begin(), Ok(()));
    assert!(l.is_running());
    assert_eq!(l.begin(), Err(CaptureError::AlreadyRunning));
    assert_eq!(CaptureError::AlreadyRunning.message(), "capture already running");
    assert_eq!(l.end(), Ok(()));
    assert_eq!(l.end(), Err(CaptureError::NotRunning));
    assert_eq!(CaptureError::NotRunning.message(), "no capture running");
}
