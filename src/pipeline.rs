//! The decisions of the capture loop: what one packet does to the aggregate and the
//! resolution ledger, how a finished lookup becomes a host, and when snapshots are due.

use vstd::prelude::*;
use vstd::string::StrSliceExecFns;
use crate::address::{IpAddress, InterfaceAddress, spec_is_loopback};
use crate::analyze::{MyLinkType, analyze_headers, get_sniffable_headers, spec_packet_flow, spec_sniffable_headers};
use crate::bogon::{bogon_of, is_bogon};
use crate::classify::{
    get_address_to_lookup, get_traffic_type, is_local_connection, spec_address_to_lookup,
    spec_is_local_connection, spec_traffic_direction, spec_traffic_type,
};
use crate::data_info::{DataInfo, sat_add, spec_add_packet};
use crate::host::{Asn, DataInfoHost, Host};
use crate::info_traffic::{
    InfoTraffic, bytes_of, flow_of, host_counted, modify_or_insert_in_map, other_flows_kept,
    packet_recorded, packets_of, service_counted, service_index,
};
use crate::resolution::{
    AddressesResolutionState, LedgerModel, LookupStep, spec_complete, spec_lookup_step,
    spec_register,
};
use crate::service::{Service, ServiceTable, ServiceView, spec_get_service};
use crate::info_address_port_pair::InfoAddressPortPair;
use crate::types::{AddressPortPair, Timestamp, TrafficDirection};

verus! {

/// The facts about a remote address that are fixed when its host is first seen.
pub open spec fn spec_host_facts(
    a: IpAddress,
    addrs: Seq<InterfaceAddress>,
    direction: TrafficDirection,
    data: DataInfo,
) -> DataInfoHost {
    DataInfoHost {
        data_info: data,
        is_favorite: false,
        is_loopback: spec_is_loopback(a),
        is_local: spec_is_local_connection(a, addrs),
        is_bogon: bogon_of(a).is_some(),
        traffic_type: spec_traffic_type(a, addrs, direction),
    }
}

/// Computes the facts about a remote address, with the given traffic.
pub fn host_facts(
    address: &IpAddress,
    my_interface_addresses: &[InterfaceAddress],
    direction: TrafficDirection,
    data: DataInfo,
) -> (r: DataInfoHost)
    ensures
        r == spec_host_facts(*address, my_interface_addresses@, direction, data),
{
    DataInfoHost {
        data_info: data,
        is_favorite: false,
        is_loopback: address.is_loopback(),
        is_local: is_local_connection(address, my_interface_addresses),
        is_bogon: is_bogon(address).is_some(),
        traffic_type: get_traffic_type(address, my_interface_addresses, direction),
    }
}

/// What the capture learns from one counted packet.
pub struct PacketRecord {
    pub key: AddressPortPair,
    pub direction: TrafficDirection,
    pub service: Service,
    pub exchanged_bytes: u128,
    /// The address whose host the packet belongs to.
    pub address_to_lookup: IpAddress,
    /// What the packet asks of the resolution machinery; on `Dispatch` the caller starts a
    /// lookup of `address_to_lookup`.
    pub lookup: LookupStep,
}

/// What processing a packet does to the aggregate (from `tb` to `ta`) and to the ledger
/// (from `lb` to `la`). The flow's direction and service are the ones its entry holds
/// afterwards.
pub open spec fn packet_processed(
    tb: InfoTraffic,
    ta: InfoTraffic,
    lb: LedgerModel,
    la: LedgerModel,
    packet: Seq<u8>,
    link: MyLinkType,
    ts: Timestamp,
    addrs: Seq<InterfaceAddress>,
    table: ServiceTable,
) -> bool {
    match spec_sniffable_headers(packet, link) {
        None => ta == tb && la == lb,
        Some(h) => match spec_packet_flow(h) {
            None => ta == (InfoTraffic { last_packet_timestamp: ts, ..tb }) && la == lb,
            Some(flow) => {
                let key = flow.0;
                let bytes = flow.1;
                let dir = flow_of(ta.map@, key).unwrap().traffic_direction;
                let service = flow_of(ta.map@, key).unwrap().service@;
                &&& ta.last_packet_timestamp == ts
                &&& ta.dropped_packets == tb.dropped_packets
                &&& packet_recorded(tb.map@, ta.map@, key, bytes)
                &&& other_flows_kept(tb.map@, ta.map@, key)
                &&& flow_of(tb.map@, key).is_none() ==> {
                    &&& dir == spec_traffic_direction(key.address1, key.address2, key.port1, key.port2, addrs)
                    &&& service == spec_get_service(key, dir, addrs, table)
                }
                &&& ta.tot_data_info == spec_add_packet(tb.tot_data_info, bytes, dir, ts)
                &&& service_counted(tb.services@, ta.services@, service, bytes, dir, ts)
                &&& la == spec_register(lb, spec_address_to_lookup(key, dir), bytes, dir, ts)
            },
        },
    }
}

/// Processes one captured packet: decodes it, counts it for its flow, its service, the
/// totals and (once resolved) its host, and records it in the resolution ledger. `None`
/// where the packet is skipped; a packet whose headers decode but give no flow still
/// advances the time of the latest packet.
pub fn process_packet(
    traffic: &mut InfoTraffic,
    ledger: &mut AddressesResolutionState,
    packet: &[u8],
    my_link_type: MyLinkType,
    ts: Timestamp,
    my_interface_addresses: &[InterfaceAddress],
    services: &ServiceTable,
) -> (r: Option<PacketRecord>)
    requires
        old(ledger).wf(),
    ensures
        final(ledger).wf(),
        packet_processed(
            *old(traffic),
            *final(traffic),
            old(ledger).model(),
            final(ledger).model(),
            packet@,
            my_link_type,
            ts,
            my_interface_addresses@,
            *services,
        ),
        spec_sniffable_headers(packet@, my_link_type).is_none() ==> {
            &&& r.is_none()
            &&& *final(traffic) == *old(traffic)
            &&& final(ledger).model() == old(ledger).model()
        },
        spec_sniffable_headers(packet@, my_link_type).is_some() && spec_packet_flow(
            spec_sniffable_headers(packet@, my_link_type).unwrap(),
        ).is_none() ==> {
            &&& r.is_none()
            &&& *final(traffic) == (InfoTraffic { last_packet_timestamp: ts, ..*old(traffic) })
            &&& final(ledger).model() == old(ledger).model()
        },
        spec_sniffable_headers(packet@, my_link_type).is_some() && spec_packet_flow(
            spec_sniffable_headers(packet@, my_link_type).unwrap(),
        ).is_some() ==> {
            let (key, bytes, icmp, arp, version) = spec_packet_flow(
                spec_sniffable_headers(packet@, my_link_type).unwrap(),
            ).unwrap();
            let rec = r.unwrap();
            let addr = rec.address_to_lookup;
            let before = old(ledger).model();
            &&& r.is_some()
            &&& rec.key == key
            &&& rec.exchanged_bytes == bytes
            &&& final(traffic).last_packet_timestamp == ts
            &&& final(traffic).dropped_packets == old(traffic).dropped_packets
            &&& packet_recorded(old(traffic).map@, final(traffic).map@, key, bytes)
            &&& flow_of(final(traffic).map@, key).is_some()
            &&& flow_of(final(traffic).map@, key).unwrap().traffic_direction == rec.direction
            &&& flow_of(final(traffic).map@, key).unwrap().service@ == rec.service@
            &&& flow_of(old(traffic).map@, key).is_none() ==> {
                &&& rec.direction == spec_traffic_direction(
                    key.address1,
                    key.address2,
                    key.port1,
                    key.port2,
                    my_interface_addresses@,
                )
                &&& rec.service@ == spec_get_service(
                    key,
                    rec.direction,
                    my_interface_addresses@,
                    *services,
                )
            }
            &&& final(traffic).tot_data_info == spec_add_packet(
                old(traffic).tot_data_info,
                bytes,
                rec.direction,
                ts,
            )
            &&& service_counted(
                old(traffic).services@,
                final(traffic).services@,
                rec.service@,
                bytes,
                rec.direction,
                ts,
            )
            &&& addr == spec_address_to_lookup(key, rec.direction)
            &&& rec.lookup == spec_lookup_step(before, addr)
            &&& final(ledger).model() == spec_register(before, addr, bytes, rec.direction, ts)
            &&& rec.lookup == LookupStep::Resolved ==> host_counted(
                old(traffic).hosts@,
                final(traffic).hosts@,
                before.resolved[addr]@,
                bytes,
                rec.direction,
                ts,
                spec_host_facts(addr, my_interface_addresses@, rec.direction, DataInfo::spec_zero()),
            )
            &&& rec.lookup != LookupStep::Resolved ==> final(traffic).hosts == old(traffic).hosts
        },
{
    let headers = match get_sniffable_headers(packet, my_link_type) {
        Some(h) => h,
        None => return None,
    };
    traffic.last_packet_timestamp = ts;
    let analysis = match analyze_headers(&headers) {
        Some(a) => a,
        None => return None,
    };
    let key = analysis.key;
    let bytes = analysis.exchanged_bytes;
    let (direction, service) = modify_or_insert_in_map(
        traffic,
        &key,
        my_interface_addresses,
        services,
        analysis.mac_addresses,
        analysis.icmp_type,
        analysis.arp_type,
        bytes,
    );
    traffic.tot_data_info.add_packet(bytes, direction, ts);
    let address_to_lookup = get_address_to_lookup(&key, direction);
    let (lookup, host) = ledger.register_packet(address_to_lookup, bytes, direction, ts);
    if let Some(h) = host {
        let facts = host_facts(
            &address_to_lookup,
            my_interface_addresses,
            direction,
            DataInfo::default(),
        );
        traffic.add_host_packet(&h, bytes, direction, facts);
    }
    traffic.add_service_packet(&service, bytes, direction);
    Some(PacketRecord { key, direction, service, exchanged_bytes: bytes, address_to_lookup, lookup })
}

/// A resolved host, ready to be merged into the aggregate and shown.
pub struct HostMessage {
    pub host: Host,
    pub data_info_host: DataInfoHost,
    pub address_to_lookup: IpAddress,
    /// The reverse-DNS name, or the address in text where the lookup gave none.
    pub rdns: String,
}

/// Finishes the resolution of an address: builds its host from the lookup results (the
/// reverse-DNS name, or `address_text` where the lookup failed or gave an empty name; the
/// country code and autonomous system found, which may be empty), moves the address to
/// the resolved ones, and hands back the host with the traffic that waited for it.
pub fn complete_host_resolution(
    ledger: &mut AddressesResolutionState,
    key: &AddressPortPair,
    traffic_direction: TrafficDirection,
    lookup_result: Option<String>,
    address_text: String,
    country: String,
    asn: Asn,
    my_interface_addresses: &[InterfaceAddress],
) -> (r: HostMessage)
    requires
        old(ledger).wf(),
    ensures
        final(ledger).wf(),
        r.address_to_lookup == spec_address_to_lookup(*key, traffic_direction),
        r.rdns@ == match lookup_result {
            Some(name) => if name@.len() > 0 {
                name@
            } else {
                address_text@
            },
            None => address_text@,
        },
        r.host.domain@ == r.rdns@,
        r.host.asn.code@ == asn.code@,
        r.host.asn.name@ == asn.name@,
        r.host.country@ == country@,
        final(ledger).model().waiting == old(ledger).model().waiting.remove(r.address_to_lookup),
        final(ledger).model().resolved.dom() == old(ledger).model().resolved.dom().insert(
            r.address_to_lookup,
        ),
        final(ledger).model().resolved[r.address_to_lookup]@ == r.host@,
        final(ledger).model() == spec_complete(
            old(ledger).model(),
            r.address_to_lookup,
            final(ledger).model().resolved[r.address_to_lookup],
        ),
        r.data_info_host == spec_host_facts(
            r.address_to_lookup,
            my_interface_addresses@,
            traffic_direction,
            if old(ledger).model().waiting.contains_key(r.address_to_lookup) {
                old(ledger).model().waiting[r.address_to_lookup]
            } else {
                DataInfo::spec_zero()
            },
        ),
{
    let address_to_lookup = get_address_to_lookup(key, traffic_direction);
    let rdns = match lookup_result {
        Some(name) => if name.as_str().unicode_len() > 0 {
            name
        } else {
            address_text
        },
        None => address_text,
    };
    let host = Host { domain: rdns.clone(), asn, country };
    let stored = host.duplicate();
    let other_data = ledger.complete_resolution(address_to_lookup, stored);
    let data_info_host = host_facts(
        &address_to_lookup,
        my_interface_addresses,
        traffic_direction,
        other_data,
    );
    HostMessage { host, data_info_host, address_to_lookup, rdns }
}

/// What a capture read from a file does before counting a packet.
#[derive(Clone, Copy, Debug, PartialEq, Eq, Structural)]
pub struct OfflineTick {
    /// A snapshot is due: the packet starts a later second than the latest one.
    pub emit: bool,
    /// The number of whole idle seconds between the two, where there is at least one.
    pub gap_secs: Option<u32>,
}

/// The decision for the next packet of a file, given the time of the latest one (already
/// set to the next packet's time where there was none).
pub open spec fn spec_offline_tick(last: Timestamp, next: Timestamp) -> OfflineTick {
    let diff = next.secs - last.secs;
    OfflineTick {
        emit: last.secs < next.secs,
        gap_secs: if diff > 1 {
            Some(if diff - 1 > u32::MAX { u32::MAX } else { (diff - 1) as u32 })
        } else {
            None
        },
    }
}

impl InfoTraffic {
    /// For a capture read from a file: takes the next packet's time as the latest one where
    /// none was seen yet, and says whether a snapshot is due and how long the file was idle.
    pub fn offline_tick(&mut self, next_packet_timestamp: Timestamp) -> (r: OfflineTick)
        ensures
            ({
                let last = if old(self).last_packet_timestamp == (Timestamp { secs: 0, usecs: 0 }) {
                    next_packet_timestamp
                } else {
                    old(self).last_packet_timestamp
                };
                &&& *final(self) == (InfoTraffic { last_packet_timestamp: last, ..*old(self) })
                &&& r == spec_offline_tick(last, next_packet_timestamp)
            }),
    {
        if self.last_packet_timestamp == (Timestamp { secs: 0, usecs: 0 }) {
            self.last_packet_timestamp = next_packet_timestamp;
        }
        let last = self.last_packet_timestamp.secs as i128;
        let next = next_packet_timestamp.secs as i128;
        let diff = next - last;
        let gap_secs = if diff > 1 {
            Some(if diff - 1 > u32::MAX as i128 { u32::MAX } else { (diff - 1) as u32 })
        } else {
            None
        };
        OfflineTick { emit: last < next, gap_secs }
    }
}

/// Schedule of the periodic snapshots of a live capture: one each second, counted from the
/// first packet.
pub struct LiveTicker {
    /// Milliseconds at which the current second started; none before the first packet.
    pub started_ms: Option<u64>,
}

impl LiveTicker {
    pub fn new() -> (r: LiveTicker)
        ensures
            r.started_ms.is_none(),
    {
        LiveTicker { started_ms: None }
    }

    /// Starts the schedule at the first packet; later calls change nothing.
    pub fn first_packet(&mut self, now_ms: u64)
        ensures
            final(self).started_ms == if old(self).started_ms.is_none() {
                Some(now_ms)
            } else {
                old(self).started_ms
            },
    {
        if self.started_ms.is_none() {
            self.started_ms = Some(now_ms);
        }
    }

    /// Whether a snapshot is due at `now_ms`; when it is, the schedule moves one second on.
    pub fn due(&mut self, now_ms: u64) -> (r: bool)
        ensures
            r == match old(self).started_ms {
                Some(t) => now_ms >= t + 1000,
                None => false,
            },
            r ==> final(self).started_ms == Some((old(self).started_ms.unwrap() + 1000) as u64),
            !r ==> final(self).started_ms == old(self).started_ms,
    {
        match self.started_ms {
            Some(t) => {
                if t <= u64::MAX - 1000 && now_ms >= t + 1000 {
                    self.started_ms = Some(t + 1000);
                    true
                } else {
                    false
                }
            },
            None => false,
        }
    }
}

/// Running totals of a capture for a simple display.
#[derive(Clone, Copy, Debug, PartialEq, Eq, Structural)]
pub struct TrafficData {
    pub total_packets: u64,
    pub total_bytes: u64,
}

impl Default for TrafficData {
    fn default() -> (r: TrafficData)
        ensures
            r.total_packets == 0,
            r.total_bytes == 0,
    {
        TrafficData { total_packets: 0, total_bytes: 0 }
    }
}

impl TrafficData {
    /// Counts a packet of `len` bytes (both totals saturate at `u64::MAX`).
    pub fn count_packet(&mut self, len: u64)
        ensures
            final(self).total_packets == if old(self).total_packets == u64::MAX {
                u64::MAX
            } else {
                (old(self).total_packets + 1) as u64
            },
            final(self).total_bytes == if old(self).total_bytes + len > u64::MAX {
                u64::MAX
            } else {
                (old(self).total_bytes + len) as u64
            },
    {
        self.total_packets = self.total_packets.saturating_add(1);
        self.total_bytes = self.total_bytes.saturating_add(len);
    }
}

/// Two flow entries with equal counters, direction and service.
pub open spec fn same_flow_counters(x: InfoAddressPortPair, y: InfoAddressPortPair) -> bool {
    &&& x.transmitted_packets == y.transmitted_packets
    &&& x.transmitted_bytes == y.transmitted_bytes
    &&& x.traffic_direction == y.traffic_direction
    &&& x.service@ == y.service@
}

/// Two aggregates with the same counters: the same flows with equal counters, direction and
/// service; equal totals and time of the latest packet; the same services, in the same
/// order, with equal traffic.
pub open spec fn same_counters(a: InfoTraffic, b: InfoTraffic) -> bool {
    &&& forall|k: AddressPortPair|
        {
            &&& #[trigger] flow_of(a.map@, k).is_some() == flow_of(b.map@, k).is_some()
            &&& flow_of(a.map@, k).is_some() ==> same_flow_counters(
                flow_of(a.map@, k).unwrap(),
                flow_of(b.map@, k).unwrap(),
            )
        }
    &&& a.tot_data_info == b.tot_data_info
    &&& a.last_packet_timestamp == b.last_packet_timestamp
    &&& same_services(a.services@, b.services@)
}

/// The same services in the same order, with equal traffic.
pub open spec fn same_services(a: Seq<(Service, DataInfo)>, b: Seq<(Service, DataInfo)>) -> bool {
    &&& a.len() == b.len()
    &&& forall|i: int| 0 <= i < a.len() ==> #[trigger] a[i].0@ == b[i].0@ && a[i].1 == b[i].1
}

/// An aggregate before any packet.
pub open spec fn fresh(t: InfoTraffic) -> bool {
    &&& t.map@.len() == 0
    &&& t.services@.len() == 0
    &&& t.tot_data_info == DataInfo::spec_zero()
    &&& t.last_packet_timestamp == (Timestamp { secs: 0, usecs: 0 })
}

/// `states` and `ledgers` are what processing `packets`, captured at `times`, goes through.
pub open spec fn is_replay(
    states: Seq<InfoTraffic>,
    ledgers: Seq<LedgerModel>,
    packets: Seq<Seq<u8>>,
    times: Seq<Timestamp>,
    link: MyLinkType,
    addrs: Seq<InterfaceAddress>,
    table: ServiceTable,
) -> bool {
    &&& states.len() == packets.len() + 1
    &&& ledgers.len() == packets.len() + 1
    &&& times.len() == packets.len()
    &&& forall|i: int|
        0 <= i < packets.len() ==> packet_processed(
            #[trigger] states[i],
            states[i + 1],
            ledgers[i],
            ledgers[i + 1],
            packets[i],
            link,
            times[i],
            addrs,
            table,
        )
}

proof fn lemma_service_index_same(a: Seq<(Service, DataInfo)>, b: Seq<(Service, DataInfo)>, v: ServiceView, i: int)
    requires
        same_services(a, b),
        0 <= i,
    ensures
        service_index(a, v, i) == service_index(b, v, i),
    decreases a.len() - i,
{
    if i < a.len() {
        assert(a[i].0@ == b[i].0@);
        lemma_service_index_same(a, b, v, i + 1);
    }
}

proof fn lemma_services_step(
    a: Seq<(Service, DataInfo)>,
    a2: Seq<(Service, DataInfo)>,
    b: Seq<(Service, DataInfo)>,
    b2: Seq<(Service, DataInfo)>,
    v: ServiceView,
    bytes: u128,
    dir: TrafficDirection,
    ts: Timestamp,
)
    requires
        same_services(a, b),
        service_counted(a, a2, v, bytes, dir, ts),
        service_counted(b, b2, v, bytes, dir, ts),
    ensures
        same_services(a2, b2),
{
    lemma_service_index_same(a, b, v, 0);
    let i = service_index(a, v, 0);
    if i >= 0 {
        lemma_service_index_range(a, v, 0);
        assert(a[i].0@ == b[i].0@ && a[i].1 == b[i].1);
        assert forall|j: int| 0 <= j < a2.len() implies #[trigger] a2[j].0@ == b2[j].0@ && a2[j].1
            == b2[j].1 by {
            assert(a[j].0@ == b[j].0@);
        }
    } else {
        assert forall|j: int| 0 <= j < a2.len() implies #[trigger] a2[j].0@ == b2[j].0@ && a2[j].1
            == b2[j].1 by {
            if j < a.len() {
                assert(a2[j] == a[j]);
                assert(b2[j] == b[j]);
                assert(a[j].0@ == b[j].0@);
            }
        }
    }
}

proof fn lemma_service_index_range(s: Seq<(Service, DataInfo)>, v: ServiceView, i: int)
    requires
        0 <= i,
    ensures
        service_index(s, v, i) == -1 || i <= service_index(s, v, i) < s.len(),
    decreases s.len() - i,
{
    if i < s.len() && s[i].0@ != v {
        lemma_service_index_range(s, v, i + 1);
    }
}

proof fn lemma_replay_step(
    a: InfoTraffic,
    a2: InfoTraffic,
    b: InfoTraffic,
    b2: InfoTraffic,
    l: LedgerModel,
    la2: LedgerModel,
    lb2: LedgerModel,
    packet: Seq<u8>,
    link: MyLinkType,
    ts: Timestamp,
    addrs: Seq<InterfaceAddress>,
    table: ServiceTable,
)
    requires
        same_counters(a, b),
        packet_processed(a, a2, l, la2, packet, link, ts, addrs, table),
        packet_processed(b, b2, l, lb2, packet, link, ts, addrs, table),
    ensures
        same_counters(a2, b2),
        la2 == lb2,
{
    match spec_sniffable_headers(packet, link) {
        None => {},
        Some(h) => match spec_packet_flow(h) {
            None => {},
            Some(flow) => {
                let key = flow.0;
                let bytes = flow.1;
                let fa = flow_of(a2.map@, key).unwrap();
                let fb = flow_of(b2.map@, key).unwrap();
                assert(flow_of(a.map@, key).is_some() == flow_of(b.map@, key).is_some());
                assert(fa.traffic_direction == fb.traffic_direction && fa.service@ == fb.service@);
                assert(packets_of(a.map@, key) == packets_of(b.map@, key));
                assert(bytes_of(a.map@, key) == bytes_of(b.map@, key));
                assert(packets_of(a2.map@, key) == packets_of(b2.map@, key));
                assert(bytes_of(a2.map@, key) == bytes_of(b2.map@, key));
                assert forall|k: AddressPortPair|
                    {
                        &&& #[trigger] flow_of(a2.map@, k).is_some() == flow_of(b2.map@, k).is_some()
                        &&& flow_of(a2.map@, k).is_some() ==> same_flow_counters(
                            flow_of(a2.map@, k).unwrap(),
                            flow_of(b2.map@, k).unwrap(),
                        )
                    } by {
                    if k != key {
                        assert(flow_of(a2.map@, k) == flow_of(a.map@, k));
                        assert(flow_of(b2.map@, k) == flow_of(b.map@, k));
                        assert(flow_of(a.map@, k).is_some() == flow_of(b.map@, k).is_some());
                    }
                }
                lemma_services_step(a.services@, a2.services@, b.services@, b2.services@, fa.service@, bytes, fa.traffic_direction, ts);
            },
        },
    }
}

/// Replaying the same packets, captured at the same times, through two fresh pipelines
/// (empty aggregates, empty ledgers) ends with the same counters and the same ledger.
pub proof fn lemma_replay_deterministic(
    s1: Seq<InfoTraffic>,
    l1: Seq<LedgerModel>,
    s2: Seq<InfoTraffic>,
    l2: Seq<LedgerModel>,
    packets: Seq<Seq<u8>>,
    times: Seq<Timestamp>,
    link: MyLinkType,
    addrs: Seq<InterfaceAddress>,
    table: ServiceTable,
)
    requires
        is_replay(s1, l1, packets, times, link, addrs, table),
        is_replay(s2, l2, packets, times, link, addrs, table),
        fresh(s1[0]),
        fresh(s2[0]),
        l1[0] == l2[0],
    ensures
        same_counters(s1.last(), s2.last()),
        l1.last() == l2.last(),
{
    lemma_replay_prefix(s1, l1, s2, l2, packets, times, link, addrs, table, packets.len() as int);
}

proof fn lemma_replay_prefix(
    s1: Seq<InfoTraffic>,
    l1: Seq<LedgerModel>,
    s2: Seq<InfoTraffic>,
    l2: Seq<LedgerModel>,
    packets: Seq<Seq<u8>>,
    times: Seq<Timestamp>,
    link: MyLinkType,
    addrs: Seq<InterfaceAddress>,
    table: ServiceTable,
    n: int,
)
    requires
        is_replay(s1, l1, packets, times, link, addrs, table),
        is_replay(s2, l2, packets, times, link, addrs, table),
        fresh(s1[0]),
        fresh(s2[0]),
        l1[0] == l2[0],
        0 <= n <= packets.len(),
    ensures
        same_counters(s1[n], s2[n]),
        l1[n] == l2[n],
    decreases n,
{
    if n == 0 {
        assert forall|k: AddressPortPair|
            {
                &&& #[trigger] flow_of(s1[0].map@, k).is_some() == flow_of(s2[0].map@, k).is_some()
                &&& flow_of(s1[0].map@, k).is_some() ==> same_flow_counters(
                    flow_of(s1[0].map@, k).unwrap(),
                    flow_of(s2[0].map@, k).unwrap(),
                )
            } by {
            assert(crate::info_traffic::keys_of(s1[0].map@).len() == 0);
            assert(crate::info_traffic::keys_of(s2[0].map@).len() == 0);
        }
    } else {
        lemma_replay_prefix(s1, l1, s2, l2, packets, times, link, addrs, table, n - 1);
        assert(packet_processed(s1[n - 1], s1[n], l1[n - 1], l1[n], packets[n - 1], link, times[n - 1], addrs, table));
        assert(packet_processed(s2[n - 1], s2[n], l2[n - 1], l2[n], packets[n - 1], link, times[n - 1], addrs, table));
        lemma_replay_step(s1[n - 1], s1[n], s2[n - 1], s2[n], l1[n - 1], l1[n], l2[n], packets[n - 1], link, times[n - 1], addrs, table);
    }
}

/// The flow a packet is counted for, where it decodes to one.
pub open spec fn decoded_key(packet: Seq<u8>, link: MyLinkType) -> Option<AddressPortPair> {
    match spec_sniffable_headers(packet, link) {
        Some(h) => match spec_packet_flow(h) {
            Some(flow) => Some(flow.0),
            None => None,
        },
        None => None,
    }
}

/// How many of the packets decode to flow `k`.
pub open spec fn decoded_count(packets: Seq<Seq<u8>>, link: MyLinkType, k: AddressPortPair) -> nat
    decreases packets.len(),
{
    if packets.len() == 0 {
        0
    } else {
        decoded_count(packets.drop_last(), link, k) + if decoded_key(packets.last(), link) == Some(k) {
            1nat
        } else {
            0nat
        }
    }
}

/// After a replay from a fresh aggregate, the packet count of every flow is the number of
/// packets that decoded to it (`u128::MAX` once that number no longer fits).
pub proof fn lemma_transmitted_packets_count(
    states: Seq<InfoTraffic>,
    ledgers: Seq<LedgerModel>,
    packets: Seq<Seq<u8>>,
    times: Seq<Timestamp>,
    link: MyLinkType,
    addrs: Seq<InterfaceAddress>,
    table: ServiceTable,
    k: AddressPortPair,
)
    requires
        is_replay(states, ledgers, packets, times, link, addrs, table),
        fresh(states[0]),
    ensures
        packets_of(states.last().map@, k) == if decoded_count(packets, link, k) <= u128::MAX {
            decoded_count(packets, link, k)
        } else {
            u128::MAX as nat
        },
{
    lemma_count_prefix(states, ledgers, packets, times, link, addrs, table, k, packets.len() as int);
    assert(packets.take(packets.len() as int) =~= packets);
}

proof fn lemma_count_prefix(
    states: Seq<InfoTraffic>,
    ledgers: Seq<LedgerModel>,
    packets: Seq<Seq<u8>>,
    times: Seq<Timestamp>,
    link: MyLinkType,
    addrs: Seq<InterfaceAddress>,
    table: ServiceTable,
    k: AddressPortPair,
    n: int,
)
    requires
        is_replay(states, ledgers, packets, times, link, addrs, table),
        fresh(states[0]),
        0 <= n <= packets.len(),
    ensures
        packets_of(states[n].map@, k) == if decoded_count(packets.take(n), link, k) <= u128::MAX {
            decoded_count(packets.take(n), link, k)
        } else {
            u128::MAX as nat
        },
    decreases n,
{
    if n == 0 {
        assert(crate::info_traffic::keys_of(states[0].map@).len() == 0);
        assert(packets.take(0).len() == 0);
    } else {
        lemma_count_prefix(states, ledgers, packets, times, link, addrs, table, k, n - 1);
        assert(packets.take(n).drop_last() =~= packets.take(n - 1));
        assert(packets.take(n).last() == packets[n - 1]);
        assert(packet_processed(states[n - 1], states[n], ledgers[n - 1], ledgers[n], packets[n - 1], link, times[n - 1], addrs, table));
        match decoded_key(packets[n - 1], link) {
            Some(key) => {
                assert(packet_recorded(states[n - 1].map@, states[n].map@, key, spec_packet_flow(spec_sniffable_headers(packets[n - 1], link).unwrap()).unwrap().1));
                assert(packets_of(states[n].map@, k) == if k == key {
                    sat_add(packets_of(states[n - 1].map@, k), 1)
                } else {
                    packets_of(states[n - 1].map@, k)
                });
            },
            None => {
                assert(states[n].map == states[n - 1].map);
            },
        }
    }
}

} // verus!
