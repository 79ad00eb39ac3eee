//! The aggregate of a capture: per-flow, per-service and per-host traffic, and totals.

use vstd::prelude::*;
use crate::address::InterfaceAddress;
use crate::classify::{get_traffic_direction, spec_traffic_direction};
use crate::data_info::{DataInfo, sat_add, spec_add_packet, spec_first_packet};
use crate::host::{DataInfoHost, Host, HostView};
use crate::info_address_port_pair::{InfoAddressPortPair, flow_updated};
use crate::service::{Service, ServiceTable, ServiceView, get_service, spec_get_service};
use crate::types::{AddressPortPair, ArpType, IcmpType, Protocol, Timestamp, TrafficDirection};

verus! {

/// All the traffic seen by a capture so far.
pub struct InfoTraffic {
    /// Statistics of each flow, in order of first packet; one entry per key.
    pub map: Vec<(AddressPortPair, InfoAddressPortPair)>,
    /// Traffic of each service, in order of first packet.
    pub services: Vec<(Service, DataInfo)>,
    /// Traffic of each resolved host, in order of first packet.
    pub hosts: Vec<(Host, DataInfoHost)>,
    /// Traffic of all flows.
    pub tot_data_info: DataInfo,
    /// Packets dropped, as the capture source reports them.
    pub dropped_packets: u32,
    /// Capture time of the latest packet.
    pub last_packet_timestamp: Timestamp,
}

/// The keys of the flow entries, in order.
pub open spec fn keys_of(m: Seq<(AddressPortPair, InfoAddressPortPair)>) -> Seq<AddressPortPair> {
    m.map_values(|e: (AddressPortPair, InfoAddressPortPair)| e.0)
}

/// Position of the first occurrence of `k`, from position `i` on; -1 where there is none.
pub open spec fn key_index(keys: Seq<AddressPortPair>, k: AddressPortPair, i: int) -> int
    decreases keys.len() - i,
{
    if i < 0 || i >= keys.len() {
        -1
    } else if keys[i] == k {
        i
    } else {
        key_index(keys, k, i + 1)
    }
}

/// The entry of flow `k`, if there is one.
pub open spec fn flow_of(m: Seq<(AddressPortPair, InfoAddressPortPair)>, k: AddressPortPair) -> Option<InfoAddressPortPair> {
    let i = key_index(keys_of(m), k, 0);
    if i >= 0 {
        Some(m[i].1)
    } else {
        None
    }
}

/// Packets counted for flow `k` (0 where it has no entry).
pub open spec fn packets_of(m: Seq<(AddressPortPair, InfoAddressPortPair)>, k: AddressPortPair) -> u128 {
    match flow_of(m, k) {
        Some(info) => info.transmitted_packets,
        None => 0,
    }
}

/// Bytes counted for flow `k` (0 where it has no entry).
pub open spec fn bytes_of(m: Seq<(AddressPortPair, InfoAddressPortPair)>, k: AddressPortPair) -> u128 {
    match flow_of(m, k) {
        Some(info) => info.transmitted_bytes,
        None => 0,
    }
}

/// From `before` to `after`, one packet of `bytes` bytes was counted for flow `key`, and
/// nothing for any other flow.
pub open spec fn packet_recorded(
    before: Seq<(AddressPortPair, InfoAddressPortPair)>,
    after: Seq<(AddressPortPair, InfoAddressPortPair)>,
    key: AddressPortPair,
    bytes: u128,
) -> bool {
    forall|k: AddressPortPair|
        {
            &&& #[trigger] packets_of(after, k) == if k == key {
                sat_add(packets_of(before, k), 1)
            } else {
                packets_of(before, k)
            }
            &&& bytes_of(after, k) == if k == key {
                sat_add(bytes_of(before, k), bytes)
            } else {
                bytes_of(before, k)
            }
        }
}

/// Position of the first entry for service `v`, from position `i` on; -1 where there is none.
pub open spec fn service_index(s: Seq<(Service, DataInfo)>, v: ServiceView, i: int) -> int
    decreases s.len() - i,
{
    if i < 0 || i >= s.len() {
        -1
    } else if s[i].0@ == v {
        i
    } else {
        service_index(s, v, i + 1)
    }
}

/// Position of the first entry for host `v`, from position `i` on; -1 where there is none.
pub open spec fn host_index(s: Seq<(Host, DataInfoHost)>, v: HostView, i: int) -> int
    decreases s.len() - i,
{
    if i < 0 || i >= s.len() {
        -1
    } else if s[i].0@ == v {
        i
    } else {
        host_index(s, v, i + 1)
    }
}

/// From `before` to `after`, one packet was counted for service `v`: added to its entry, or
/// as a new last entry.
pub open spec fn service_counted(
    before: Seq<(Service, DataInfo)>,
    after: Seq<(Service, DataInfo)>,
    v: ServiceView,
    bytes: u128,
    direction: TrafficDirection,
    ts: Timestamp,
) -> bool {
    let i = service_index(before, v, 0);
    if i >= 0 {
        after == before.update(i, (before[i].0, spec_add_packet(before[i].1, bytes, direction, ts)))
    } else {
        &&& after == before.push((after.last().0, spec_first_packet(bytes, direction, ts)))
        &&& after.last().0@ == v
    }
}

/// From `before` to `after`, one packet was counted for host `v`: added to its entry, or as
/// a new last entry that has the facts `first_facts`.
pub open spec fn host_counted(
    before: Seq<(Host, DataInfoHost)>,
    after: Seq<(Host, DataInfoHost)>,
    v: HostView,
    bytes: u128,
    direction: TrafficDirection,
    ts: Timestamp,
    first_facts: DataInfoHost,
) -> bool {
    let i = host_index(before, v, 0);
    if i >= 0 {
        after == before.update(
            i,
            (before[i].0, DataInfoHost {
                data_info: spec_add_packet(before[i].1.data_info, bytes, direction, ts),
                ..before[i].1
            }),
        )
    } else {
        &&& after == before.push((after.last().0, DataInfoHost {
            data_info: spec_first_packet(bytes, direction, ts),
            ..first_facts
        }))
        &&& after.last().0@ == v
    }
}

/// From `before` to `after`, only the entry of flow `key` changed: every other flow has the
/// same entry, `key` has one, and a flow that existed keeps its direction and service.
pub open spec fn other_flows_kept(
    before: Seq<(AddressPortPair, InfoAddressPortPair)>,
    after: Seq<(AddressPortPair, InfoAddressPortPair)>,
    key: AddressPortPair,
) -> bool {
    &&& forall|k: AddressPortPair| k != key ==> #[trigger] flow_of(after, k) == flow_of(before, k)
    &&& flow_of(after, key).is_some()
    &&& flow_of(before, key).is_some() ==> {
        &&& flow_of(after, key).unwrap().traffic_direction == flow_of(
            before,
            key,
        ).unwrap().traffic_direction
        &&& flow_of(after, key).unwrap().service@ == flow_of(before, key).unwrap().service@
    }
}

/// A flow entry created by the first packet of a flow.
pub open spec fn new_flow(
    info: InfoAddressPortPair,
    macs: (Option<String>, Option<String>),
    bytes: u128,
    ts: Timestamp,
    service: ServiceView,
    direction: TrafficDirection,
    protocol: Protocol,
    icmp_type: IcmpType,
    arp_type: ArpType,
) -> bool {
    &&& info.mac_address1 == macs.0
    &&& info.mac_address2 == macs.1
    &&& info.transmitted_bytes == bytes
    &&& info.transmitted_packets == 1
    &&& info.initial_timestamp == ts
    &&& info.final_timestamp == ts
    &&& info.service@ == service
    &&& info.traffic_direction == direction
    &&& info.icmp_types@ == if protocol == Protocol::ICMP {
        seq![(icmp_type, 1usize)]
    } else {
        Seq::empty()
    }
    &&& info.arp_types@ == if protocol == Protocol::ARP {
        seq![(arp_type, 1usize)]
    } else {
        Seq::empty()
    }
}

proof fn lemma_key_index_range(keys: Seq<AddressPortPair>, k: AddressPortPair, i: int)
    requires
        0 <= i,
    ensures
        key_index(keys, k, i) == -1 || (i <= key_index(keys, k, i) < keys.len() && keys[key_index(
            keys,
            k,
            i,
        )] == k),
        key_index(keys, k, i) == -1 ==> forall|j: int| i <= j < keys.len() ==> keys[j] != k,
    decreases keys.len() - i,
{
    if i < keys.len() && keys[i] != k {
        lemma_key_index_range(keys, k, i + 1);
    }
}

proof fn lemma_key_index_push(keys: Seq<AddressPortPair>, x: AddressPortPair, k: AddressPortPair, i: int)
    requires
        0 <= i <= keys.len(),
    ensures
        key_index(keys.push(x), k, i) == if key_index(keys, k, i) >= 0 {
            key_index(keys, k, i)
        } else if k == x {
            keys.len() as int
        } else {
            -1
        },
    decreases keys.len() - i,
{
    if i < keys.len() {
        assert(keys.push(x)[i] == keys[i]);
        if keys[i] != k {
            lemma_key_index_push(keys, x, k, i + 1);
        }
    } else {
        assert(keys.push(x)[i] == x);
        assert(key_index(keys, k, i) == -1);
        if x != k {
            assert(key_index(keys.push(x), k, i + 1) == -1);
        }
    }
}

impl InfoTraffic {
    /// An empty aggregate.
    pub fn new() -> (r: InfoTraffic)
        ensures
            r.map@.len() == 0,
            r.services@.len() == 0,
            r.hosts@.len() == 0,
            r.tot_data_info == DataInfo::spec_zero(),
            r.dropped_packets == 0,
            r.last_packet_timestamp == (Timestamp { secs: 0, usecs: 0 }),
    {
        InfoTraffic {
            map: Vec::new(),
            services: Vec::new(),
            hosts: Vec::new(),
            tot_data_info: DataInfo::empty(Timestamp { secs: 0, usecs: 0 }),
            dropped_packets: 0,
            last_packet_timestamp: Timestamp { secs: 0, usecs: 0 },
        }
    }

    /// Hands out the traffic gathered so far and starts over, keeping the time of the latest
    /// packet and the dropped-packet count.
    pub fn take_but_leave_something(&mut self) -> (r: InfoTraffic)
        ensures
            r == *old(self),
            final(self).map@.len() == 0,
            final(self).services@.len() == 0,
            final(self).hosts@.len() == 0,
            final(self).tot_data_info == DataInfo::spec_zero(),
            final(self).dropped_packets == old(self).dropped_packets,
            final(self).last_packet_timestamp == old(self).last_packet_timestamp,
    {
        let mut fresh = InfoTraffic::new();
        fresh.dropped_packets = self.dropped_packets;
        fresh.last_packet_timestamp = self.last_packet_timestamp;
        std::mem::swap(self, &mut fresh);
        fresh
    }

    /// Position of the entry of flow `key`, if there is one.
    fn find_flow(&self, key: &AddressPortPair) -> (r: Option<usize>)
        ensures
            r.is_some() == (key_index(keys_of(self.map@), *key, 0) >= 0),
            r.is_some() ==> r.unwrap() == key_index(keys_of(self.map@), *key, 0),
    {
        let mut i: usize = 0;
        while i < self.map.len()
            invariant
                i <= self.map@.len(),
                key_index(keys_of(self.map@), *key, 0) == key_index(keys_of(self.map@), *key, i as int),
            decreases self.map@.len() - i,
        {
            if self.map[i].0 == *key {
                return Some(i);
            }
            i = i + 1;
        }
        None
    }

    /// Counts a packet for its service.
    pub fn add_service_packet(&mut self, service: &Service, bytes: u128, direction: TrafficDirection)
        ensures
            final(self).map == old(self).map,
            final(self).hosts == old(self).hosts,
            final(self).tot_data_info == old(self).tot_data_info,
            final(self).dropped_packets == old(self).dropped_packets,
            final(self).last_packet_timestamp == old(self).last_packet_timestamp,
            service_counted(
                old(self).services@,
                final(self).services@,
                service@,
                bytes,
                direction,
                old(self).last_packet_timestamp,
            ),
    {
        let ts = self.last_packet_timestamp;
        let mut i: usize = 0;
        while i < self.services.len()
            invariant
                i <= self.services@.len(),
                *self == *old(self),
                ts == old(self).last_packet_timestamp,
                service_index(self.services@, service@, 0) == service_index(self.services@, service@, i as int),
            decreases self.services@.len() - i,
        {
            if self.services[i].0 == *service {
                self.services[i].1.add_packet(bytes, direction, ts);
                proof {
                    let before = old(self).services@;
                    assert(service_index(before, service@, i as int) == i);
                    assert(service_index(before, service@, 0) == i);
                    assert(ts == old(self).last_packet_timestamp);
                    assert(self.services@ =~= before.update(
                        i as int,
                        (before[i as int].0, spec_add_packet(before[i as int].1, bytes, direction, ts)),
                    ));
                }
                return;
            }
            i = i + 1;
        }
        let s = match service {
            Service::Name(n) => Service::Name(n.clone()),
            Service::Unknown => Service::Unknown,
            Service::NotApplicable => Service::NotApplicable,
        };
        self.services.push((s, DataInfo::new_with_first_packet(bytes, direction, ts)));
    }
}

impl InfoTraffic {
    fn find_host(&self, host: &Host) -> (r: Option<usize>)
        ensures
            r.is_some() == (host_index(self.hosts@, host@, 0) >= 0),
            r.is_some() ==> r.unwrap() == host_index(self.hosts@, host@, 0) && r.unwrap()
                < self.hosts@.len(),
    {
        let mut i: usize = 0;
        while i < self.hosts.len()
            invariant
                i <= self.hosts@.len(),
                host_index(self.hosts@, host@, 0) == host_index(self.hosts@, host@, i as int),
            decreases self.hosts@.len() - i,
        {
            if self.hosts[i].0 == *host {
                return Some(i);
            }
            i = i + 1;
        }
        None
    }

    /// Counts a packet for a resolved host. A host seen for the first time gets the given
    /// facts (which are computed once, here) and this packet as its traffic.
    pub fn add_host_packet(
        &mut self,
        host: &Host,
        bytes: u128,
        direction: TrafficDirection,
        first_facts: DataInfoHost,
    )
        ensures
            final(self).map == old(self).map,
            final(self).services == old(self).services,
            final(self).tot_data_info == old(self).tot_data_info,
            final(self).dropped_packets == old(self).dropped_packets,
            final(self).last_packet_timestamp == old(self).last_packet_timestamp,
            host_counted(
                old(self).hosts@,
                final(self).hosts@,
                host@,
                bytes,
                direction,
                old(self).last_packet_timestamp,
                first_facts,
            ),
    {
        let ts = self.last_packet_timestamp;
        match self.find_host(host) {
            Some(i) => {
                self.hosts[i].1.data_info.add_packet(bytes, direction, ts);
                proof {
                    let before = old(self).hosts@;
                    assert(self.hosts@ =~= before.update(
                        i as int,
                        (before[i as int].0, DataInfoHost {
                            data_info: spec_add_packet(before[i as int].1.data_info, bytes, direction, ts),
                            ..before[i as int].1
                        }),
                    ));
                }
            },
            None => {
                let facts = DataInfoHost {
                    data_info: DataInfo::new_with_first_packet(bytes, direction, ts),
                    ..first_facts
                };
                self.hosts.push((host.duplicate(), facts));
            },
        }
    }

    /// Adds the traffic of a newly resolved host: to its entry where it has one, else as a
    /// new entry.
    pub fn merge_host(&mut self, host: &Host, data: DataInfoHost)
        ensures
            final(self).map == old(self).map,
            final(self).services == old(self).services,
            final(self).tot_data_info == old(self).tot_data_info,
            final(self).dropped_packets == old(self).dropped_packets,
            final(self).last_packet_timestamp == old(self).last_packet_timestamp,
            ({
                let before = old(self).hosts@;
                let after = final(self).hosts@;
                let i = host_index(before, host@, 0);
                if i >= 0 {
                    &&& after.len() == before.len()
                    &&& after[i].0 == before[i].0
                    &&& after[i].1.data_info == (DataInfo {
                        incoming_packets: sat_add(before[i].1.data_info.incoming_packets, data.data_info.incoming_packets),
                        outgoing_packets: sat_add(before[i].1.data_info.outgoing_packets, data.data_info.outgoing_packets),
                        incoming_bytes: sat_add(before[i].1.data_info.incoming_bytes, data.data_info.incoming_bytes),
                        outgoing_bytes: sat_add(before[i].1.data_info.outgoing_bytes, data.data_info.outgoing_bytes),
                        final_timestamp: data.data_info.final_timestamp,
                    })
                    &&& after[i].1 == (DataInfoHost { data_info: after[i].1.data_info, ..before[i].1 })
                    &&& forall|j: int| 0 <= j < after.len() && j != i ==> after[j] == before[j]
                } else {
                    &&& after == before.push((after.last().0, data))
                    &&& after.last().0@ == host@
                }
            }),
    {
        match self.find_host(host) {
            Some(i) => {
                self.hosts[i].1.data_info.refresh(data.data_info);
            },
            None => {
                self.hosts.push((host.duplicate(), data));
            },
        }
    }
}

/// Counts a packet for its flow. On the first packet of a flow its direction and service are
/// determined and stored; later packets add to the entry. Returns the flow's direction and
/// service.
pub fn modify_or_insert_in_map(
    info_traffic_msg: &mut InfoTraffic,
    key: &AddressPortPair,
    my_interface_addresses: &[InterfaceAddress],
    services: &ServiceTable,
    mac_addresses: (Option<String>, Option<String>),
    icmp_type: IcmpType,
    arp_type: ArpType,
    exchanged_bytes: u128,
) -> (r: (TrafficDirection, Service))
    ensures
        final(info_traffic_msg).services == old(info_traffic_msg).services,
        final(info_traffic_msg).hosts == old(info_traffic_msg).hosts,
        final(info_traffic_msg).tot_data_info == old(info_traffic_msg).tot_data_info,
        final(info_traffic_msg).dropped_packets == old(info_traffic_msg).dropped_packets,
        final(info_traffic_msg).last_packet_timestamp == old(info_traffic_msg).last_packet_timestamp,
        packet_recorded(old(info_traffic_msg).map@, final(info_traffic_msg).map@, *key, exchanged_bytes),
        other_flows_kept(old(info_traffic_msg).map@, final(info_traffic_msg).map@, *key),
        flow_of(final(info_traffic_msg).map@, *key).is_some(),
        flow_of(final(info_traffic_msg).map@, *key).unwrap().traffic_direction == r.0,
        flow_of(final(info_traffic_msg).map@, *key).unwrap().service@ == r.1@,
        flow_of(old(info_traffic_msg).map@, *key).is_none() ==> {
            let direction = spec_traffic_direction(
                key.address1,
                key.address2,
                key.port1,
                key.port2,
                my_interface_addresses@,
            );
            &&& r.0 == direction
            &&& r.1@ == spec_get_service(*key, direction, my_interface_addresses@, *services)
        },
        ({
            let before = old(info_traffic_msg).map@;
            let after = final(info_traffic_msg).map@;
            let i = key_index(keys_of(before), *key, 0);
            let ts = old(info_traffic_msg).last_packet_timestamp;
            if i >= 0 {
                &&& after == before.update(i, (*key, after[i].1))
                &&& flow_updated(before[i].1, after[i].1, exchanged_bytes, ts, key.protocol, icmp_type, arp_type)
                &&& r.0 == before[i].1.traffic_direction
                &&& r.1@ == before[i].1.service@
            } else {
                let direction = spec_traffic_direction(
                    key.address1,
                    key.address2,
                    key.port1,
                    key.port2,
                    my_interface_addresses@,
                );
                let service = spec_get_service(*key, direction, my_interface_addresses@, *services);
                &&& after == before.push((*key, after.last().1))
                &&& new_flow(after.last().1, mac_addresses, exchanged_bytes, ts, service, direction, key.protocol, icmp_type, arp_type)
                &&& r.0 == direction
                &&& r.1@ == service
            }
        }),
{
    let ts = info_traffic_msg.last_packet_timestamp;
    let ghost before = info_traffic_msg.map@;
    proof {
        lemma_key_index_range(keys_of(before), *key, 0);
    }
    match info_traffic_msg.find_flow(key) {
        Some(i) => {
            info_traffic_msg.map[i].1.add_packet(exchanged_bytes, ts, key.protocol, icmp_type, arp_type);
            let e = &info_traffic_msg.map[i].1;
            let service = match &e.service {
                Service::Name(n) => Service::Name(n.clone()),
                Service::Unknown => Service::Unknown,
                Service::NotApplicable => Service::NotApplicable,
            };
            let r = (e.traffic_direction, service);
            proof {
                let after = info_traffic_msg.map@;
                assert(after == before.update(i as int, (*key, after[i as int].1)));
                assert(keys_of(after) =~= keys_of(before));
                assert(after[i as int].1.service == before[i as int].1.service);
                assert forall|k: AddressPortPair| k != *key implies #[trigger] flow_of(after, k)
                    == flow_of(before, k) by {
                    lemma_key_index_range(keys_of(before), k, 0);
                }
                assert forall|k: AddressPortPair| #[trigger] packets_of(after, k) == (if k == *key {
                    sat_add(packets_of(before, k), 1)
                } else {
                    packets_of(before, k)
                }) && bytes_of(after, k) == (if k == *key {
                    sat_add(bytes_of(before, k), exchanged_bytes)
                } else {
                    bytes_of(before, k)
                }) by {
                    lemma_key_index_range(keys_of(before), k, 0);
                }
            }
            r
        },
        None => {
            let traffic_direction = get_traffic_direction(
                &key.address1,
                &key.address2,
                key.port1,
                key.port2,
                my_interface_addresses,
            );
            let service = get_service(key, traffic_direction, my_interface_addresses, services);
            let stored = match &service {
                Service::Name(n) => Service::Name(n.clone()),
                Service::Unknown => Service::Unknown,
                Service::NotApplicable => Service::NotApplicable,
            };
            let mut icmp_types = Vec::new();
            if key.protocol == Protocol::ICMP {
                icmp_types.push((icmp_type, 1usize));
            }
            let mut arp_types = Vec::new();
            if key.protocol == Protocol::ARP {
                arp_types.push((arp_type, 1usize));
            }
            let info = InfoAddressPortPair {
                mac_address1: mac_addresses.0,
                mac_address2: mac_addresses.1,
                transmitted_bytes: exchanged_bytes,
                transmitted_packets: 1,
                initial_timestamp: ts,
                final_timestamp: ts,
                service: stored,
                traffic_direction,
                icmp_types,
                arp_types,
            };
            info_traffic_msg.map.push((*key, info));
            proof {
                let after = info_traffic_msg.map@;
                assert(keys_of(after) =~= keys_of(before).push(*key));
                lemma_key_index_push(keys_of(before), *key, *key, 0);
                assert forall|k: AddressPortPair| k != *key implies #[trigger] flow_of(after, k)
                    == flow_of(before, k) by {
                    lemma_key_index_range(keys_of(before), k, 0);
                    lemma_key_index_push(keys_of(before), *key, k, 0);
                }
                assert(icmp_types@ =~= (if key.protocol == Protocol::ICMP {
                    seq![(icmp_type, 1usize)]
                } else {
                    Seq::empty()
                }));
                assert(arp_types@ =~= (if key.protocol == Protocol::ARP {
                    seq![(arp_type, 1usize)]
                } else {
                    Seq::empty()
                }));
                assert forall|k: AddressPortPair| #[trigger] packets_of(after, k) == (if k == *key {
                    sat_add(packets_of(before, k), 1)
                } else {
                    packets_of(before, k)
                }) && bytes_of(after, k) == (if k == *key {
                    sat_add(bytes_of(before, k), exchanged_bytes)
                } else {
                    bytes_of(before, k)
                }) by {
                    lemma_key_index_range(keys_of(before), k, 0);
                    lemma_key_index_push(keys_of(before), *key, k, 0);
                }
            }
            (traffic_direction, service)
        },
    }
}

} // verus!
