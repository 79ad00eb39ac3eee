use tickertinker::data_info::DataRepr;
use tickertinker::info_address_port_pair::InfoAddressPortPair;
use tickertinker::service::Service;
use tickertinker::types::{ArpType, IcmpType, IcmpTypeV4, Protocol, Timestamp, TrafficDirection};

#[test]
fn test_info_address_port_pair_data() {
    let pair1 = InfoAddressPortPair {
        transmitted_bytes: 1000,
        transmitted_packets: 10,
        final_timestamp: Timestamp::new(8, 1300),
        ..Default::default()
    };
    let pair2 = InfoAddressPortPair {
        transmitted_bytes: 1100,
        transmitted_packets: 8,
        final_timestamp: Timestamp::new(15, 0),
        ..Default::default()
    };

    assert_eq!(pair1.transmitted_data(DataRepr::Bytes), 1000);
    assert_eq!(pair1.transmitted_data(DataRepr::Packets), 10);
    assert_eq!(pair1.transmitted_data(DataRepr::Bits), 8000);

    assert_eq!(pair2.transmitted_data(DataRepr::Bytes), 1100);
    assert_eq!(pair2.transmitted_data(DataRepr::Packets), 8);
    assert_eq!(pair2.transmitted_data(DataRepr::Bits), 8800);
}

#[test]
fn bits_saturate_at_the_largest_value() {
    let pair = InfoAddressPortPair { transmitted_bytes: u128::MAX / 4, ..Default::default() };
    assert_eq!(pair.transmitted_data(DataRepr::Bits), u128::MAX);
}

#[test]
fn refresh_adds_counters_and_histograms() {
    let echo = IcmpType::V4(IcmpTypeV4::EchoRequest);
    let reply = IcmpType::V4(IcmpTypeV4::EchoReply);
    let mut a = InfoAddressPortPair {
        transmitted_bytes: 100,
        transmitted_packets: 2,
        initial_timestamp: Timestamp::new(1, 0),
        final_timestamp: Timestamp::new(2, 0),
        icmp_types: vec![(echo, 2)],
        ..Default::default()
    };
    let b = InfoAddressPortPair {
        transmitted_bytes: 50,
        transmitted_packets: 1,
        final_timestamp: Timestamp::new(9, 5),
        service: Service::NotApplicable,
        traffic_direction: TrafficDirection::Outgoing,
        icmp_types: vec![(reply, 1), (echo, 3)],
        arp_types: vec![(ArpType::Request, 4)],
        ..Default::default()
    };
    a.refresh(&b);
    assert_eq!(a.transmitted_bytes, 150);
    assert_eq!(a.transmitted_packets, 3);
    assert_eq!(a.initial_timestamp, Timestamp::new(1, 0));
    assert_eq!(a.final_timestamp, Timestamp::new(9, 5));
    assert!(a.service == Service::NotApplicable);
    assert_eq!(a.traffic_direction, TrafficDirection::Outgoing);
    assert_eq!(a.icmp_types, vec![(echo, 5), (reply, 1)]);
    assert_eq!(a.arp_types, vec![(ArpType::Request, 4)]);
}

#[test]
fn add_packet_counts_icmp_types_only_for_icmp() {
    let mut info = InfoAddressPortPair::default();
    let t = IcmpType::V4(IcmpTypeV4::EchoRequest);
    info.add_packet(60, Timestamp::new(3, 0), Protocol::ICMP, t, ArpType::Unknown);
    info.add_packet(60, Timestamp::new(4, 0), Protocol::ICMP, t, ArpType::Unknown);
    info.add_packet(10, Timestamp::new(5, 0), Protocol::TCP, t, ArpType::Request);
    assert_eq!(info.transmitted_packets, 3);
    assert_eq!(info.transmitted_bytes, 130);
    assert_eq!(info.final_timestamp, Timestamp::new(5, 0));
    assert_eq!(info.icmp_types, vec![(t, 2)]);
    assert!(info.arp_types.is_empty());
}
