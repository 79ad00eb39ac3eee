//! From raw packet bytes to a flow key: link-layer framing, then the network and transport
//! headers.

use vstd::prelude::*;
use crate::address::{IpAddress, be_value};
use crate::headers::{
    ArpFields, MacPair, NetFields, PacketHeaders, TransportFields, headers_from_ethernet,
    headers_from_ip, ethernet_headers, ip_headers,
};
use crate::text::{colon_hex, mac_from_dec_to_hex};
use crate::types::{
    AddressPortPair, ArpType, IcmpType, IcmpTypeV4, IcmpTypeV6, IpVersion, Protocol,
    spec_arp_type, spec_icmp_v4_type, spec_icmp_v6_type,
};

verus! {

/// Link-layer type of a capture, as far as decoding is concerned.
#[derive(Clone, Copy, Debug, PartialEq, Eq, Structural)]
pub enum MyLinkType {
    Null,
    Ethernet,
    RawIp,
    Loop,
    IPv4,
    IPv6,
    Unsupported,
    NotYetAssigned,
}

impl MyLinkType {
    /// The link type of a pcap `DLT_`/`LINKTYPE_` number.
    pub fn from_pcap_link_type(code: i32) -> (r: MyLinkType)
        ensures
            code == 0 ==> r == MyLinkType::Null,
            code == 1 ==> r == MyLinkType::Ethernet,
            (code == 12 || code == 14 || code == 101) ==> r == MyLinkType::RawIp,
            code == 108 ==> r == MyLinkType::Loop,
            code == 228 ==> r == MyLinkType::IPv4,
            code == 229 ==> r == MyLinkType::IPv6,
            !(code == 0 || code == 1 || code == 12 || code == 14 || code == 101 || code == 108
                || code == 228 || code == 229) ==> r == MyLinkType::Unsupported,
    {
        match code {
            0 => MyLinkType::Null,
            1 => MyLinkType::Ethernet,
            12 | 14 | 101 => MyLinkType::RawIp,
            108 => MyLinkType::Loop,
            228 => MyLinkType::IPv4,
            229 => MyLinkType::IPv6,
            _ => MyLinkType::Unsupported,
        }
    }
}

/// An address-family tag of null/loopback framing that announces IP: 2 is IPv4 everywhere;
/// 24, 28 and 30 are IPv6 on different platforms.
pub open spec fn is_af_inet(v: int) -> bool {
    v == 2 || v == 24 || v == 28 || v == 30
}

/// Whether the four bytes of a null/loopback header, read little-endian or big-endian,
/// announce IP.
pub open spec fn null_header_ok(h: Seq<u8>) -> bool {
    is_af_inet(h[0] + 256 * h[1] + 65536 * h[2] + 16777216 * h[3])
        || is_af_inet(h[3] + 256 * h[2] + 65536 * h[1] + 16777216 * h[0])
}

/// Headers of a packet with null/loopback framing: a 4-byte address-family tag, then IP.
pub open spec fn spec_from_null(p: Seq<u8>) -> Option<PacketHeaders> {
    if p.len() <= 4 {
        None
    } else if null_header_ok(p) {
        ip_headers(p.subrange(4, p.len() as int))
    } else {
        None
    }
}

/// Headers of a packet captured on a link of type `t`: Ethernet II frames are read from
/// their link header, null/loopback frames after their tag, and every other link type as
/// bare IP.
pub open spec fn spec_sniffable_headers(p: Seq<u8>, t: MyLinkType) -> Option<PacketHeaders> {
    match t {
        MyLinkType::Ethernet => ethernet_headers(p),
        MyLinkType::RawIp | MyLinkType::IPv4 | MyLinkType::IPv6 | MyLinkType::Unsupported
        | MyLinkType::NotYetAssigned => ip_headers(p),
        MyLinkType::Null | MyLinkType::Loop => spec_from_null(p),
    }
}

/// Decodes a packet with null/loopback framing; `None` where it is too short or its tag
/// does not announce IP.
pub fn from_null(packet: &[u8]) -> (r: Option<PacketHeaders>)
    ensures
        r == spec_from_null(packet@),
{
    if packet.len() <= 4 {
        return None;
    }
    let le = (packet[0] as u32) + 256 * (packet[1] as u32) + 65536 * (packet[2] as u32)
        + 16777216 * (packet[3] as u32);
    let be = (packet[3] as u32) + 256 * (packet[2] as u32) + 65536 * (packet[1] as u32)
        + 16777216 * (packet[0] as u32);
    let le_ok = le == 2 || le == 24 || le == 28 || le == 30;
    let be_ok = be == 2 || be == 24 || be == 28 || be == 30;
    if le_ok || be_ok {
        headers_from_ip(&packet[4..packet.len()])
    } else {
        None
    }
}

/// Decodes a packet according to the link type of its capture.
pub fn get_sniffable_headers(packet: &[u8], my_link_type: MyLinkType) -> (r: Option<PacketHeaders>)
    ensures
        r == spec_sniffable_headers(packet@, my_link_type),
{
    match my_link_type {
        MyLinkType::Ethernet => headers_from_ethernet(packet),
        MyLinkType::RawIp | MyLinkType::IPv4 | MyLinkType::IPv6 | MyLinkType::Unsupported
        | MyLinkType::NotYetAssigned => headers_from_ip(packet),
        MyLinkType::Null | MyLinkType::Loop => from_null(packet),
    }
}

/// What the link layer contributes: the two MAC addresses in text, and the bytes of the
/// Ethernet II header.
pub struct LinkInfo {
    pub mac_address1: Option<String>,
    pub mac_address2: Option<String>,
    pub exchanged_bytes: u128,
}

/// What the network layer contributes to a flow.
#[derive(Clone, Copy, Debug, PartialEq, Eq, Structural)]
pub struct NetworkInfo {
    pub ip_version: IpVersion,
    pub source: IpAddress,
    pub dest: IpAddress,
    pub exchanged_bytes: u128,
    /// The ARP operation, for ARP packets.
    pub arp_type: Option<ArpType>,
}

/// What the transport layer contributes to a flow.
#[derive(Clone, Copy, Debug, PartialEq, Eq, Structural)]
pub struct TransportInfo {
    pub sport: Option<u16>,
    pub dport: Option<u16>,
    pub protocol: Protocol,
    /// The ICMP message type, for ICMP packets.
    pub icmp_type: Option<IcmpType>,
}

pub open spec fn spec_arp(a: ArpFields) -> Option<NetworkInfo> {
    let s = a.sender_protocol_addr@;
    let t = a.target_protocol_addr@;
    let arp = Some(spec_arp_type(a.operation));
    let bytes = a.packet_len as u128;
    if a.proto_addr_type == 0x0800 && s.len() == 4 && t.len() == 4 {
        Some(
            NetworkInfo {
                ip_version: IpVersion::IPv4,
                source: IpAddress::V4(be_value(s) as u32),
                dest: IpAddress::V4(be_value(t) as u32),
                exchanged_bytes: bytes,
                arp_type: arp,
            },
        )
    } else if a.proto_addr_type == 0x86dd && s.len() == 16 && t.len() == 16 {
        Some(
            NetworkInfo {
                ip_version: IpVersion::IPv6,
                source: IpAddress::V6(be_value(s) as u128),
                dest: IpAddress::V6(be_value(t) as u128),
                exchanged_bytes: bytes,
                arp_type: arp,
            },
        )
    } else {
        None
    }
}

/// The network layer's contribution: IPv4 counts its total length, IPv6 its 40-byte header
/// plus payload length, ARP its packet length; `None` skips the packet.
pub open spec fn spec_network(net: Option<NetFields>) -> Option<NetworkInfo> {
    match net {
        Some(NetFields::Ipv4 { source, destination, total_len }) => Some(
            NetworkInfo {
                ip_version: IpVersion::IPv4,
                source: IpAddress::V4(source),
                dest: IpAddress::V4(destination),
                exchanged_bytes: total_len as u128,
                arp_type: None,
            },
        ),
        Some(NetFields::Ipv6 { source, destination, payload_length }) => Some(
            NetworkInfo {
                ip_version: IpVersion::IPv6,
                source: IpAddress::V6(source),
                dest: IpAddress::V6(destination),
                exchanged_bytes: (40 + payload_length) as u128,
                arp_type: None,
            },
        ),
        Some(NetFields::Arp(a)) => spec_arp(a),
        None => None,
    }
}

/// The transport layer's contribution; `None` skips the packet.
pub open spec fn spec_transport(t: Option<TransportFields>) -> Option<TransportInfo> {
    match t {
        Some(TransportFields::Udp { source_port, destination_port }) => Some(
            TransportInfo {
                sport: Some(source_port),
                dport: Some(destination_port),
                protocol: Protocol::UDP,
                icmp_type: None,
            },
        ),
        Some(TransportFields::Tcp { source_port, destination_port }) => Some(
            TransportInfo {
                sport: Some(source_port),
                dport: Some(destination_port),
                protocol: Protocol::TCP,
                icmp_type: None,
            },
        ),
        Some(TransportFields::Icmpv4 { type_u8 }) => Some(
            TransportInfo {
                sport: None,
                dport: None,
                protocol: Protocol::ICMP,
                icmp_type: Some(IcmpType::V4(spec_icmp_v4_type(type_u8))),
            },
        ),
        Some(TransportFields::Icmpv6 { type_u8 }) => Some(
            TransportInfo {
                sport: None,
                dport: None,
                protocol: Protocol::ICMP,
                icmp_type: Some(IcmpType::V6(spec_icmp_v6_type(type_u8))),
            },
        ),
        None => None,
    }
}

pub open spec fn link_bytes(link: Option<MacPair>) -> u128 {
    if link.is_some() {
        14
    } else {
        0
    }
}

/// The flow a packet belongs to, with the bytes it counts for and its ICMP and ARP types
/// (defaults where they do not apply); `None` where the packet is skipped.
pub open spec fn spec_packet_flow(h: PacketHeaders) -> Option<
    (AddressPortPair, u128, IcmpType, ArpType, IpVersion),
> {
    match spec_network(h.net) {
        None => None,
        Some(n) => {
            let bytes = (link_bytes(h.link) + n.exchanged_bytes) as u128;
            match n.arp_type {
                Some(arp) => Some(
                    (
                        AddressPortPair {
                            address1: n.source,
                            port1: None,
                            address2: n.dest,
                            port2: None,
                            protocol: Protocol::ARP,
                        },
                        bytes,
                        IcmpType::V4(IcmpTypeV4::Unknown(0)),
                        arp,
                        n.ip_version,
                    ),
                ),
                None => match spec_transport(h.transport) {
                    None => None,
                    Some(t) => Some(
                        (
                            AddressPortPair {
                                address1: n.source,
                                port1: t.sport,
                                address2: n.dest,
                                port2: t.dport,
                                protocol: t.protocol,
                            },
                            bytes,
                            match t.icmp_type {
                                Some(i) => i,
                                None => IcmpType::V4(IcmpTypeV4::Unknown(0)),
                            },
                            ArpType::Unknown,
                            n.ip_version,
                        ),
                    ),
                },
            }
        },
    }
}

/// Reads the MAC addresses of an Ethernet II header, which counts 14 bytes.
pub fn analyze_link_header(link_header: &Option<MacPair>) -> (r: LinkInfo)
    ensures
        r.exchanged_bytes == link_bytes(*link_header),
        r.mac_address1.is_some() == link_header.is_some(),
        r.mac_address2.is_some() == link_header.is_some(),
        link_header.is_some() ==> r.mac_address1.unwrap()@ == colon_hex(
            link_header.unwrap().source@,
        ) && r.mac_address2.unwrap()@ == colon_hex(link_header.unwrap().destination@),
{
    match link_header {
        Some(h) => LinkInfo {
            mac_address1: Some(mac_from_dec_to_hex(h.source)),
            mac_address2: Some(mac_from_dec_to_hex(h.destination)),
            exchanged_bytes: 14,
        },
        None => LinkInfo { mac_address1: None, mac_address2: None, exchanged_bytes: 0 },
    }
}

fn analyze_arp(a: &ArpFields) -> (r: Option<NetworkInfo>)
    ensures
        r == spec_arp(*a),
{
    let arp = Some(ArpType::from_operation(a.operation));
    let bytes = a.packet_len as u128;
    if a.proto_addr_type == 0x0800 && a.sender_protocol_addr.len() == 4
        && a.target_protocol_addr.len() == 4 {
        let s = IpAddress::from_bytes(a.sender_protocol_addr.as_slice());
        let t = IpAddress::from_bytes(a.target_protocol_addr.as_slice());
        match (s, t) {
            (Some(source), Some(dest)) => Some(
                NetworkInfo {
                    ip_version: IpVersion::IPv4,
                    source,
                    dest,
                    exchanged_bytes: bytes,
                    arp_type: arp,
                },
            ),
            _ => None,
        }
    } else if a.proto_addr_type == 0x86dd && a.sender_protocol_addr.len() == 16
        && a.target_protocol_addr.len() == 16 {
        let s = IpAddress::from_bytes(a.sender_protocol_addr.as_slice());
        let t = IpAddress::from_bytes(a.target_protocol_addr.as_slice());
        match (s, t) {
            (Some(source), Some(dest)) => Some(
                NetworkInfo {
                    ip_version: IpVersion::IPv6,
                    source,
                    dest,
                    exchanged_bytes: bytes,
                    arp_type: arp,
                },
            ),
            _ => None,
        }
    } else {
        None
    }
}

/// Reads addresses and the byte count from the network header; `None` where the packet has
/// to be skipped (no network header, an ARP packet for another protocol, or ARP protocol
/// addresses of the wrong length).
pub fn analyze_network_header(network_header: &Option<NetFields>) -> (r: Option<NetworkInfo>)
    ensures
        r == spec_network(*network_header),
{
    match network_header {
        Some(NetFields::Ipv4 { source, destination, total_len }) => Some(
            NetworkInfo {
                ip_version: IpVersion::IPv4,
                source: IpAddress::V4(*source),
                dest: IpAddress::V4(*destination),
                exchanged_bytes: *total_len as u128,
                arp_type: None,
            },
        ),
        Some(NetFields::Ipv6 { source, destination, payload_length }) => Some(
            NetworkInfo {
                ip_version: IpVersion::IPv6,
                source: IpAddress::V6(*source),
                dest: IpAddress::V6(*destination),
                exchanged_bytes: 40 + *payload_length as u128,
                arp_type: None,
            },
        ),
        Some(NetFields::Arp(a)) => analyze_arp(a),
        None => None,
    }
}

/// Reads ports, protocol and ICMP type from the transport header; `None` where there is none.
pub fn analyze_transport_header(transport_header: &Option<TransportFields>) -> (r: Option<
    TransportInfo,
>)
    ensures
        r == spec_transport(*transport_header),
{
    match transport_header {
        Some(TransportFields::Udp { source_port, destination_port }) => Some(
            TransportInfo {
                sport: Some(*source_port),
                dport: Some(*destination_port),
                protocol: Protocol::UDP,
                icmp_type: None,
            },
        ),
        Some(TransportFields::Tcp { source_port, destination_port }) => Some(
            TransportInfo {
                sport: Some(*source_port),
                dport: Some(*destination_port),
                protocol: Protocol::TCP,
                icmp_type: None,
            },
        ),
        Some(TransportFields::Icmpv4 { type_u8 }) => Some(
            TransportInfo {
                sport: None,
                dport: None,
                protocol: Protocol::ICMP,
                icmp_type: Some(IcmpType::V4(IcmpTypeV4::from_type_u8(*type_u8))),
            },
        ),
        Some(TransportFields::Icmpv6 { type_u8 }) => Some(
            TransportInfo {
                sport: None,
                dport: None,
                protocol: Protocol::ICMP,
                icmp_type: Some(IcmpType::V6(IcmpTypeV6::from_type_u8(*type_u8))),
            },
        ),
        None => None,
    }
}

/// Everything the aggregation needs to know of one decoded packet.
pub struct PacketAnalysis {
    pub key: AddressPortPair,
    pub mac_addresses: (Option<String>, Option<String>),
    pub exchanged_bytes: u128,
    pub icmp_type: IcmpType,
    pub arp_type: ArpType,
    pub ip_version: IpVersion,
}

/// Analyzes the link, network and transport headers of a packet and assembles its flow key;
/// `None` where the packet has to be skipped.
pub fn analyze_headers(headers: &PacketHeaders) -> (r: Option<PacketAnalysis>)
    ensures
        r.is_some() == spec_packet_flow(*headers).is_some(),
        r.is_some() ==> {
            let (key, bytes, icmp, arp, version) = spec_packet_flow(*headers).unwrap();
            let a = r.unwrap();
            &&& a.key == key
            &&& a.exchanged_bytes == bytes
            &&& a.icmp_type == icmp
            &&& a.arp_type == arp
            &&& a.ip_version == version
            &&& a.mac_addresses.0.is_some() == headers.link.is_some()
            &&& a.mac_addresses.1.is_some() == headers.link.is_some()
            &&& headers.link.is_some() ==> a.mac_addresses.0.unwrap()@ == colon_hex(
                headers.link.unwrap().source@,
            ) && a.mac_addresses.1.unwrap()@ == colon_hex(headers.link.unwrap().destination@)
        },
{
    let link = analyze_link_header(&headers.link);
    let net = match analyze_network_header(&headers.net) {
        Some(n) => n,
        None => return None,
    };
    let bytes = link.exchanged_bytes + net.exchanged_bytes;
    match net.arp_type {
        Some(arp) => Some(
            PacketAnalysis {
                key: AddressPortPair::new(net.source, None, net.dest, None, Protocol::ARP),
                mac_addresses: (link.mac_address1, link.mac_address2),
                exchanged_bytes: bytes,
                icmp_type: IcmpType::V4(IcmpTypeV4::Unknown(0)),
                arp_type: arp,
                ip_version: net.ip_version,
            },
        ),
        None => {
            let t = match analyze_transport_header(&headers.transport) {
                Some(t) => t,
                None => return None,
            };
            let icmp_type = match t.icmp_type {
                Some(i) => i,
                None => IcmpType::V4(IcmpTypeV4::Unknown(0)),
            };
            Some(
                PacketAnalysis {
                    key: AddressPortPair::new(net.source, t.sport, net.dest, t.dport, t.protocol),
                    mac_addresses: (link.mac_address1, link.mac_address2),
                    exchanged_bytes: bytes,
                    icmp_type,
                    arp_type: ArpType::Unknown,
                    ip_version: net.ip_version,
                },
            )
        },
    }
}

/// An ARP packet whose sender protocol address is neither 4 nor 16 bytes long gives no flow.
pub proof fn lemma_arp_bad_sender_skipped(h: PacketHeaders, a: ArpFields)
    requires
        h.net == Some(NetFields::Arp(a)),
        a.sender_protocol_addr@.len() != 4,
        a.sender_protocol_addr@.len() != 16,
    ensures
        spec_packet_flow(h).is_none(),
{
}

} // verus!
