//! Decoded packet headers as plain values, and the calls into etherparse that produce them.

use vstd::prelude::*;
use etherparse::TransportHeader as T;

verus! {

/// Source and destination MAC addresses of an Ethernet II header.
#[derive(Clone, Copy, Debug)]
pub struct MacPair {
    pub source: [u8; 6],
    pub destination: [u8; 6],
}

/// Fields of an ARP packet that the analysis reads.
#[derive(Clone, Debug)]
pub struct ArpFields {
    /// EtherType of the protocol addresses (0x0800 IPv4, 0x86dd IPv6).
    pub proto_addr_type: u16,
    pub sender_protocol_addr: Vec<u8>,
    pub target_protocol_addr: Vec<u8>,
    /// Length of the whole ARP packet in bytes.
    pub packet_len: usize,
    pub operation: u16,
}

/// Network layer of a decoded packet.
#[derive(Clone, Debug)]
pub enum NetFields {
    Ipv4 { source: u32, destination: u32, total_len: u16 },
    Ipv6 { source: u128, destination: u128, payload_length: u16 },
    Arp(ArpFields),
}

/// Transport layer of a decoded packet.
#[derive(Clone, Copy, Debug)]
pub enum TransportFields {
    Udp { source_port: u16, destination_port: u16 },
    Tcp { source_port: u16, destination_port: u16 },
    Icmpv4 { type_u8: u8 },
    Icmpv6 { type_u8: u8 },
}

/// The headers found in a packet, each layer present only where it could be decoded.
#[derive(Clone, Debug)]
pub struct PacketHeaders {
    pub link: Option<MacPair>,
    pub net: Option<NetFields>,
    pub transport: Option<TransportFields>,
}

/// The headers that etherparse reads from a packet that starts with an Ethernet II header
/// (`None` where it rejects the packet).
pub uninterp spec fn ethernet_headers(b: Seq<u8>) -> Option<PacketHeaders>;

/// The headers that etherparse reads from a packet that starts with an IP header
/// (`None` where it rejects the packet).
pub uninterp spec fn ip_headers(b: Seq<u8>) -> Option<PacketHeaders>;

/// etherparse's `LinkHeader`, handled only inside the conversions below.
#[verifier::external_type_specification]
#[verifier::external_body]
pub struct ExLinkHeader(etherparse::LinkHeader);

/// etherparse's `NetHeaders`, handled only inside the conversions below.
#[verifier::external_type_specification]
#[verifier::external_body]
pub struct ExNetHeaders(etherparse::NetHeaders);

/// etherparse's `TransportHeader`, handled only inside the conversions below.
#[verifier::external_type_specification]
#[verifier::external_body]
pub struct ExTransportHeader(etherparse::TransportHeader);

/// etherparse's `ArpPacket`, handled only inside the conversions below.
#[verifier::external_type_specification]
#[verifier::external_body]
pub struct ExArpPacket(etherparse::ArpPacket);

/// Relies on etherparse's `LaxPacketHeaders::from_ethernet`: the headers it reads depend on
/// the bytes alone.
#[verifier::external_body]
pub(crate) fn headers_from_ethernet(packet: &[u8]) -> (r: Option<PacketHeaders>)
    ensures
        r == ethernet_headers(packet@),
{
    match etherparse::LaxPacketHeaders::from_ethernet(packet) {
        Ok(h) => Some(PacketHeaders {
            link: link_fields(h.link),
            net: net_fields(h.net),
            transport: transport_fields(h.transport),
        }),
        Err(_) => None,
    }
}

/// Relies on etherparse's `LaxPacketHeaders::from_ip`: the headers it reads depend on the
/// bytes alone.
#[verifier::external_body]
pub(crate) fn headers_from_ip(packet: &[u8]) -> (r: Option<PacketHeaders>)
    ensures
        r == ip_headers(packet@),
{
    match etherparse::LaxPacketHeaders::from_ip(packet) {
        Ok(h) => Some(PacketHeaders {
            link: link_fields(h.link),
            net: net_fields(h.net),
            transport: transport_fields(h.transport),
        }),
        Err(_) => None,
    }
}

/// Copies the MAC addresses out of etherparse's `LinkHeader::Ethernet2`.
#[verifier::external_body]
fn link_fields(l: Option<etherparse::LinkHeader>) -> Option<MacPair> {
    match l {
        Some(etherparse::LinkHeader::Ethernet2(e)) => Some(
            MacPair { source: e.source, destination: e.destination },
        ),
        _ => None,
    }
}

/// Copies addresses and lengths out of etherparse's `NetHeaders`.
#[verifier::external_body]
fn net_fields(n: Option<etherparse::NetHeaders>) -> Option<NetFields> {
    match n {
        Some(etherparse::NetHeaders::Ipv4(h, _)) => Some(NetFields::Ipv4 {
            source: u32::from_be_bytes(h.source),
            destination: u32::from_be_bytes(h.destination),
            total_len: h.total_len,
        }),
        Some(etherparse::NetHeaders::Ipv6(h, _)) => Some(NetFields::Ipv6 {
            source: u128::from_be_bytes(h.source),
            destination: u128::from_be_bytes(h.destination),
            payload_length: h.payload_length,
        }),
        Some(etherparse::NetHeaders::Arp(a)) => Some(NetFields::Arp(arp_fields(a))),
        None => None,
    }
}

/// Copies the fields of etherparse's `ArpPacket` (`sender_protocol_addr`,
/// `target_protocol_addr`, `packet_len`, `operation`).
#[verifier::external_body]
fn arp_fields(a: etherparse::ArpPacket) -> ArpFields {
    ArpFields {
        proto_addr_type: a.proto_addr_type.0,
        sender_protocol_addr: a.sender_protocol_addr().to_vec(),
        target_protocol_addr: a.target_protocol_addr().to_vec(),
        packet_len: a.packet_len(),
        operation: a.operation.0,
    }
}

/// Copies ports and ICMP type bytes out of etherparse's `TransportHeader`
/// (`Icmpv4Header::to_bytes`, whose first byte is the type; `Icmpv6Type::type_u8`).
#[verifier::external_body]
fn transport_fields(t: Option<etherparse::TransportHeader>) -> Option<TransportFields> {
    match t {
        Some(T::Udp(u)) => Some(TransportFields::Udp { source_port: u.source_port, destination_port: u.destination_port }),
        Some(T::Tcp(t)) => Some(TransportFields::Tcp { source_port: t.source_port, destination_port: t.destination_port }),
        Some(T::Icmpv4(i)) => Some(TransportFields::Icmpv4 { type_u8: i.to_bytes()[0] }),
        Some(T::Icmpv6(i)) => Some(TransportFields::Icmpv6 { type_u8: i.icmp_type.type_u8() }),
        None => None,
    }
}

} // verus!
