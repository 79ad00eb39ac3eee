//! The small value types shared by the decoder, the classifiers and the aggregates.

use vstd::prelude::*;
use crate::address::IpAddress;

verus! {

/// Transport (or, for ARP, network) protocol of a flow.
#[derive(Clone, Copy, Debug, PartialEq, Eq, Hash, Structural)]
pub enum Protocol {
    TCP,
    UDP,
    ICMP,
    ARP,
}

/// IP version of a decoded packet.
#[derive(Clone, Copy, Debug, PartialEq, Eq, Hash, Structural)]
pub enum IpVersion {
    IPv4,
    IPv6,
}

/// Whether a flow enters or leaves the capturing host.
#[derive(Clone, Copy, Debug, PartialEq, Eq, Hash, Structural)]
pub enum TrafficDirection {
    Incoming,
    Outgoing,
}

impl Default for TrafficDirection {
    fn default() -> (r: TrafficDirection)
        ensures
            r == TrafficDirection::Incoming,
    {
        TrafficDirection::Incoming
    }
}

/// Whether the remote side of a flow is one host, a multicast group or a broadcast domain.
#[derive(Clone, Copy, Debug, PartialEq, Eq, Hash, Structural)]
pub enum TrafficType {
    Unicast,
    Multicast,
    Broadcast,
}

/// Operation of an ARP packet.
#[derive(Clone, Copy, Debug, PartialEq, Eq, Hash, Structural)]
pub enum ArpType {
    Request,
    Reply,
    Unknown,
}

pub open spec fn spec_arp_type(operation: u16) -> ArpType {
    if operation == 1 {
        ArpType::Request
    } else if operation == 2 {
        ArpType::Reply
    } else {
        ArpType::Unknown
    }
}

impl ArpType {
    /// The operation named by the ARP operation code (1 request, 2 reply).
    pub fn from_operation(operation: u16) -> (r: ArpType)
        ensures
            r == spec_arp_type(operation),
    {
        if operation == 1 {
            ArpType::Request
        } else if operation == 2 {
            ArpType::Reply
        } else {
            ArpType::Unknown
        }
    }
}

impl Default for ArpType {
    fn default() -> (r: ArpType)
        ensures
            r == ArpType::Unknown,
    {
        ArpType::Unknown
    }
}

/// ICMPv4 message types.
#[derive(Clone, Copy, Debug, PartialEq, Eq, Hash, Structural)]
pub enum IcmpTypeV4 {
    EchoReply,
    DestinationUnreachable,
    Redirect,
    EchoRequest,
    TimeExceeded,
    ParameterProblem,
    TimestampRequest,
    TimestampReply,
    Unknown(u8),
}

/// ICMPv6 message types.
#[derive(Clone, Copy, Debug, PartialEq, Eq, Hash, Structural)]
pub enum IcmpTypeV6 {
    DestinationUnreachable,
    PacketTooBig,
    TimeExceeded,
    ParameterProblem,
    EchoRequest,
    EchoReply,
    RouterSolicitation,
    RouterAdvertisement,
    NeighborSolicitation,
    NeighborAdvertisement,
    Redirect,
    Unknown(u8),
}

/// ICMP message type of either IP version.
#[derive(Clone, Copy, Debug, PartialEq, Eq, Hash, Structural)]
pub enum IcmpType {
    V4(IcmpTypeV4),
    V6(IcmpTypeV6),
}

impl Default for IcmpType {
    fn default() -> (r: IcmpType)
        ensures
            r == IcmpType::V4(IcmpTypeV4::Unknown(0)),
    {
        IcmpType::V4(IcmpTypeV4::Unknown(0))
    }
}

pub open spec fn spec_icmp_v4_type(t: u8) -> IcmpTypeV4 {
    match t {
        0 => IcmpTypeV4::EchoReply,
        3 => IcmpTypeV4::DestinationUnreachable,
        5 => IcmpTypeV4::Redirect,
        8 => IcmpTypeV4::EchoRequest,
        11 => IcmpTypeV4::TimeExceeded,
        12 => IcmpTypeV4::ParameterProblem,
        13 => IcmpTypeV4::TimestampRequest,
        14 => IcmpTypeV4::TimestampReply,
        _ => IcmpTypeV4::Unknown(t),
    }
}

pub open spec fn spec_icmp_v6_type(t: u8) -> IcmpTypeV6 {
    match t {
        1 => IcmpTypeV6::DestinationUnreachable,
        2 => IcmpTypeV6::PacketTooBig,
        3 => IcmpTypeV6::TimeExceeded,
        4 => IcmpTypeV6::ParameterProblem,
        128 => IcmpTypeV6::EchoRequest,
        129 => IcmpTypeV6::EchoReply,
        133 => IcmpTypeV6::RouterSolicitation,
        134 => IcmpTypeV6::RouterAdvertisement,
        135 => IcmpTypeV6::NeighborSolicitation,
        136 => IcmpTypeV6::NeighborAdvertisement,
        137 => IcmpTypeV6::Redirect,
        _ => IcmpTypeV6::Unknown(t),
    }
}

impl IcmpTypeV4 {
    /// The message type named by the ICMPv4 type field.
    pub fn from_type_u8(t: u8) -> (r: IcmpTypeV4)
        ensures
            r == spec_icmp_v4_type(t),
    {
        match t {
            0 => IcmpTypeV4::EchoReply,
            3 => IcmpTypeV4::DestinationUnreachable,
            5 => IcmpTypeV4::Redirect,
            8 => IcmpTypeV4::EchoRequest,
            11 => IcmpTypeV4::TimeExceeded,
            12 => IcmpTypeV4::ParameterProblem,
            13 => IcmpTypeV4::TimestampRequest,
            14 => IcmpTypeV4::TimestampReply,
            _ => IcmpTypeV4::Unknown(t),
        }
    }
}

impl IcmpTypeV6 {
    /// The message type named by the ICMPv6 type field.
    pub fn from_type_u8(t: u8) -> (r: IcmpTypeV6)
        ensures
            r == spec_icmp_v6_type(t),
    {
        match t {
            1 => IcmpTypeV6::DestinationUnreachable,
            2 => IcmpTypeV6::PacketTooBig,
            3 => IcmpTypeV6::TimeExceeded,
            4 => IcmpTypeV6::ParameterProblem,
            128 => IcmpTypeV6::EchoRequest,
            129 => IcmpTypeV6::EchoReply,
            133 => IcmpTypeV6::RouterSolicitation,
            134 => IcmpTypeV6::RouterAdvertisement,
            135 => IcmpTypeV6::NeighborSolicitation,
            136 => IcmpTypeV6::NeighborAdvertisement,
            137 => IcmpTypeV6::Redirect,
            _ => IcmpTypeV6::Unknown(t),
        }
    }
}

/// Capture time of a packet: seconds and microseconds.
#[derive(Clone, Copy, Debug, PartialEq, Eq, Hash, Structural)]
pub struct Timestamp {
    pub secs: i64,
    pub usecs: i64,
}

impl Timestamp {
    pub fn new(secs: i64, usecs: i64) -> (r: Timestamp)
        ensures
            r.secs == secs,
            r.usecs == usecs,
    {
        Timestamp { secs, usecs }
    }

    pub fn secs(&self) -> (r: i64)
        ensures
            r == self.secs,
    {
        self.secs
    }
}

impl Default for Timestamp {
    fn default() -> (r: Timestamp)
        ensures
            r.secs == 0,
            r.usecs == 0,
    {
        Timestamp { secs: 0, usecs: 0 }
    }
}

/// Key of a flow: the first-seen source and destination, and the protocol.
#[derive(Clone, Copy, Debug, PartialEq, Eq, Hash, Structural)]
pub struct AddressPortPair {
    pub address1: IpAddress,
    pub port1: Option<u16>,
    pub address2: IpAddress,
    pub port2: Option<u16>,
    pub protocol: Protocol,
}

impl AddressPortPair {
    pub fn new(
        address1: IpAddress,
        port1: Option<u16>,
        address2: IpAddress,
        port2: Option<u16>,
        protocol: Protocol,
    ) -> (r: AddressPortPair)
        ensures
            r == (AddressPortPair { address1, port1, address2, port2, protocol }),
    {
        AddressPortPair { address1, port1, address2, port2, protocol }
    }
}

} // verus!
