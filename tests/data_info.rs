use std::cmp::Ordering;
use tickertinker::data_info::{ByteMultiple, DataInfo, DataRepr, SortType};
use tickertinker::types::{Timestamp, TrafficDirection};

#[test]
fn formatted_strings() {
    assert_eq!(DataRepr::Bytes.formatted_string(999_999), "999 KB");
    assert_eq!(DataRepr::Bytes.formatted_string(1_500_000_000), "1.50 GB");
    assert_eq!(DataRepr::Bytes.formatted_string(0), "0 B");
    assert_eq!(DataRepr::Bytes.formatted_string(999), "999 B");
    assert_eq!(DataRepr::Bytes.formatted_string(1_000), "1.00 KB");
    assert_eq!(DataRepr::Bytes.formatted_string(12_345), "12.3 KB");
    assert_eq!(DataRepr::Bytes.formatted_string(123_456_789), "123 MB");
    assert_eq!(DataRepr::Bytes.formatted_string(9_999_999_999_999), "9.99 TB");
    assert_eq!(DataRepr::Bytes.formatted_string(1_234_000_000_000_000_000), "1234 PB");
    assert_eq!(DataRepr::Bits.formatted_string(1_500_000_000), "1.50 Gb");
    assert_eq!(DataRepr::Bits.formatted_string(42), "42 b");
    assert_eq!(DataRepr::Packets.formatted_string(1_500_000_000), "1500000000");
    assert_eq!(DataRepr::Packets.formatted_string(0), "0");
}

#[test]
fn byte_multiples() {
    assert_eq!(ByteMultiple::from_amount(999), ByteMultiple::B);
    assert_eq!(ByteMultiple::from_amount(1_000), ByteMultiple::KB);
    assert_eq!(ByteMultiple::from_amount(1_000_000_000_000_000), ByteMultiple::PB);
    assert_eq!(ByteMultiple::GB.multiplier(), 1_000_000_000);
    assert_eq!(ByteMultiple::MB.get_char(), "M");
    assert_eq!(ByteMultiple::B.get_char(), "");
    assert_eq!(ByteMultiple::from_char('k'), ByteMultiple::KB);
    assert_eq!(ByteMultiple::from_char('P'), ByteMultiple::PB);
    assert_eq!(ByteMultiple::from_char('x'), ByteMultiple::B);
    assert_eq!(ByteMultiple::TB.pretty_print(DataRepr::Bits), "Tb");
    assert_eq!(ByteMultiple::TB.pretty_print(DataRepr::Packets), "");
}

#[test]
fn data_info_counters() {
    let t = Timestamp::new(0, 0);
    let mut d1 = DataInfo::new_with_first_packet(123, TrafficDirection::Incoming, t);
    d1.add_packet(100, TrafficDirection::Incoming, t);
    d1.add_packet(200, TrafficDirection::Outgoing, Timestamp::new(3, 4));
    d1.add_packets(11, 1200, TrafficDirection::Outgoing);
    d1.add_packets(5, 500, TrafficDirection::Incoming);
    assert_eq!(d1.incoming_packets, 7);
    assert_eq!(d1.outgoing_packets, 12);
    assert_eq!(d1.incoming_bytes, 723);
    assert_eq!(d1.outgoing_bytes, 1400);
    assert_eq!(d1.final_timestamp, Timestamp::new(3, 4));
    assert_eq!(d1.tot_data(DataRepr::Packets), 19);
    assert_eq!(d1.tot_data(DataRepr::Bytes), 2123);
    assert_eq!(d1.tot_data(DataRepr::Bits), 16984);
    assert_eq!(d1.incoming_data(DataRepr::Bits), 5784);
    assert_eq!(d1.outgoing_data(DataRepr::Bits), 11200);

    let mut d2 = DataInfo::new_with_first_packet(100, TrafficDirection::Outgoing, Timestamp::new(9, 0));
    d2.add_packets(19, 300, TrafficDirection::Outgoing);
    assert_eq!(d2.tot_data(DataRepr::Packets), 20);
    assert_eq!(d2.tot_data(DataRepr::Bits), 3200);

    assert_eq!(d1.compare(&d2, SortType::Ascending, DataRepr::Packets), Ordering::Less);
    assert_eq!(d1.compare(&d2, SortType::Descending, DataRepr::Packets), Ordering::Greater);
    assert_eq!(d1.compare(&d2, SortType::Neutral, DataRepr::Packets), Ordering::Greater);
    assert_eq!(d1.compare(&d2, SortType::Ascending, DataRepr::Bytes), Ordering::Greater);
    assert_eq!(d1.compare(&d2, SortType::Descending, DataRepr::Bytes), Ordering::Less);
    assert_eq!(d1.compare(&d2, SortType::Ascending, DataRepr::Bits), Ordering::Greater);
    assert_eq!(d1.compare(&d1, SortType::Neutral, DataRepr::Bits), Ordering::Equal);

    d1.refresh(d2);
    assert_eq!(d1.incoming_packets, 7);
    assert_eq!(d1.outgoing_packets, 32);
    assert_eq!(d1.incoming_bytes, 723);
    assert_eq!(d1.outgoing_bytes, 1800);
    assert_eq!(d1.final_timestamp, Timestamp::new(9, 0));
}

#[test]
fn data_info_saturates() {
    let t = Timestamp::default();
    let mut d = DataInfo::from_counts(0, u128::MAX, 0, u128::MAX - 1, t);
    d.add_packet(10, TrafficDirection::Outgoing, t);
    assert_eq!(d.outgoing_packets, u128::MAX);
    assert_eq!(d.outgoing_bytes, u128::MAX);
    assert_eq!(d.tot_data(DataRepr::Bits), u128::MAX);
    assert_eq!(DataInfo::default(), DataInfo::empty(t));
}
