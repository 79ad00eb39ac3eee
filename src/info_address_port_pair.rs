//! Statistics of one flow (one address:port pair).

use vstd::prelude::*;
use crate::counts::{add_arp_count, add_count, add_icmp_count, merge_arp_counts, merge_counts, merge_icmp_counts};
use crate::data_info::{DataRepr, sat_add, sat_bits};
use crate::service::Service;
use crate::types::{ArpType, IcmpType, Protocol, Timestamp, TrafficDirection};

verus! {

/// Statistics of the traffic of one address:port pair.
#[derive(Clone, Debug)]
pub struct InfoAddressPortPair {
    /// Source MAC address.
    pub mac_address1: Option<String>,
    /// Destination MAC address.
    pub mac_address2: Option<String>,
    /// Bytes exchanged (saturating at `u128::MAX`).
    pub transmitted_bytes: u128,
    /// Packets exchanged (saturating at `u128::MAX`).
    pub transmitted_packets: u128,
    /// Capture time of the first packet.
    pub initial_timestamp: Timestamp,
    /// Capture time of the latest packet.
    pub final_timestamp: Timestamp,
    /// Upper-layer service.
    pub service: Service,
    /// Direction, fixed at the first packet.
    pub traffic_direction: TrafficDirection,
    /// Count of each ICMP message type (empty unless ICMP).
    pub icmp_types: Vec<(IcmpType, usize)>,
    /// Count of each ARP operation (empty unless ARP).
    pub arp_types: Vec<(ArpType, usize)>,
}

/// `after` is `before` with one more packet of `bytes` bytes captured at `ts`, counted in
/// the ICMP or ARP histogram where the protocol is one of those.
pub open spec fn flow_updated(
    before: InfoAddressPortPair,
    after: InfoAddressPortPair,
    bytes: u128,
    ts: Timestamp,
    protocol: Protocol,
    icmp_type: IcmpType,
    arp_type: ArpType,
) -> bool {
    &&& after.transmitted_bytes == sat_add(before.transmitted_bytes, bytes)
    &&& after.transmitted_packets == sat_add(before.transmitted_packets, 1)
    &&& after.final_timestamp == ts
    &&& after.initial_timestamp == before.initial_timestamp
    &&& after.mac_address1 == before.mac_address1
    &&& after.mac_address2 == before.mac_address2
    &&& after.service == before.service
    &&& after.traffic_direction == before.traffic_direction
    &&& after.icmp_types@ == if protocol == Protocol::ICMP {
        add_count(before.icmp_types@, icmp_type, 1)
    } else {
        before.icmp_types@
    }
    &&& after.arp_types@ == if protocol == Protocol::ARP {
        add_count(before.arp_types@, arp_type, 1)
    } else {
        before.arp_types@
    }
}

impl InfoAddressPortPair {
    /// Counts one more packet of the flow.
    pub fn add_packet(
        &mut self,
        bytes: u128,
        ts: Timestamp,
        protocol: Protocol,
        icmp_type: IcmpType,
        arp_type: ArpType,
    )
        ensures
            flow_updated(*old(self), *final(self), bytes, ts, protocol, icmp_type, arp_type),
    {
        self.transmitted_bytes = self.transmitted_bytes.saturating_add(bytes);
        self.transmitted_packets = self.transmitted_packets.saturating_add(1);
        self.final_timestamp = ts;
        if protocol == Protocol::ICMP {
            add_icmp_count(&mut self.icmp_types, icmp_type, 1);
        }
        if protocol == Protocol::ARP {
            add_arp_count(&mut self.arp_types, arp_type, 1);
        }
    }

    /// Adds the statistics of `other`, taking its latest time, service and direction.
    pub fn refresh(&mut self, other: &InfoAddressPortPair)
        ensures
            final(self).transmitted_bytes == sat_add(old(self).transmitted_bytes, other.transmitted_bytes),
            final(self).transmitted_packets == sat_add(
                old(self).transmitted_packets,
                other.transmitted_packets,
            ),
            final(self).final_timestamp == other.final_timestamp,
            final(self).initial_timestamp == old(self).initial_timestamp,
            final(self).mac_address1 == old(self).mac_address1,
            final(self).mac_address2 == old(self).mac_address2,
            final(self).service@ == other.service@,
            final(self).traffic_direction == other.traffic_direction,
            final(self).icmp_types@ == merge_counts(old(self).icmp_types@, other.icmp_types@),
            final(self).arp_types@ == merge_counts(old(self).arp_types@, other.arp_types@),
    {
        self.transmitted_bytes = self.transmitted_bytes.saturating_add(other.transmitted_bytes);
        self.transmitted_packets = self.transmitted_packets.saturating_add(other.transmitted_packets);
        self.final_timestamp = other.final_timestamp;
        self.service = match &other.service {
            Service::Name(n) => Service::Name(n.clone()),
            Service::Unknown => Service::Unknown,
            Service::NotApplicable => Service::NotApplicable,
        };
        self.traffic_direction = other.traffic_direction;
        merge_icmp_counts(&mut self.icmp_types, &other.icmp_types);
        merge_arp_counts(&mut self.arp_types, &other.arp_types);
    }

    /// Traffic of the flow in the given unit.
    pub fn transmitted_data(&self, data_repr: DataRepr) -> (r: u128)
        ensures
            r == match data_repr {
                DataRepr::Packets => self.transmitted_packets,
                DataRepr::Bytes => self.transmitted_bytes,
                DataRepr::Bits => sat_bits(self.transmitted_bytes),
            },
    {
        match data_repr {
            DataRepr::Packets => self.transmitted_packets,
            DataRepr::Bytes => self.transmitted_bytes,
            DataRepr::Bits => if self.transmitted_bytes > u128::MAX / 8 {
                u128::MAX
            } else {
                self.transmitted_bytes * 8
            },
        }
    }
}

impl Default for InfoAddressPortPair {
    fn default() -> (r: InfoAddressPortPair)
        ensures
            r.mac_address1.is_none(),
            r.mac_address2.is_none(),
            r.transmitted_bytes == 0,
            r.transmitted_packets == 0,
            r.initial_timestamp == (Timestamp { secs: 0, usecs: 0 }),
            r.final_timestamp == (Timestamp { secs: 0, usecs: 0 }),
            r.service is Unknown,
            r.traffic_direction == TrafficDirection::Incoming,
            r.icmp_types@.len() == 0,
            r.arp_types@.len() == 0,
    {
        InfoAddressPortPair {
            mac_address1: None,
            mac_address2: None,
            transmitted_bytes: 0,
            transmitted_packets: 0,
            initial_timestamp: Timestamp { secs: 0, usecs: 0 },
            final_timestamp: Timestamp { secs: 0, usecs: 0 },
            service: Service::Unknown,
            traffic_direction: TrafficDirection::Incoming,
            icmp_types: Vec::new(),
            arp_types: Vec::new(),
        }
    }
}

} // verus!
