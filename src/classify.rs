//! Direction and traffic-type classification of flows, relative to the capturing interface.

use vstd::prelude::*;
use crate::address::{
    IpAddress, InterfaceAddress, limited_broadcast, spec_is_link_local, spec_is_loopback,
    spec_is_multicast, spec_is_unspecified,
};
use crate::bogon::{bogon_of, bogon_range};
use crate::types::{AddressPortPair, TrafficDirection, TrafficType};

verus! {

/// Whether one of the interface addresses is `ip`.
pub open spec fn has_address(addrs: Seq<InterfaceAddress>, ip: IpAddress) -> bool {
    exists|i: int| 0 <= i < addrs.len() && addrs[i].addr == ip
}

/// Whether `ip` counts as the capturing host's own address when deciding a direction: one of
/// the interface addresses or, when no interface address is known (a capture file is being
/// read), any reserved address.
pub open spec fn is_local_endpoint(addrs: Seq<InterfaceAddress>, ip: IpAddress) -> bool {
    if addrs.len() == 0 {
        bogon_of(ip).is_some()
    } else {
        has_address(addrs, ip)
    }
}

/// Direction of a flow seen for the first time from `src` to `dst`.
pub open spec fn spec_traffic_direction(
    src: IpAddress,
    dst: IpAddress,
    sport: Option<u16>,
    dport: Option<u16>,
    addrs: Seq<InterfaceAddress>,
) -> TrafficDirection {
    if spec_is_loopback(src) && spec_is_loopback(dst) && sport.is_some() && dport.is_some() {
        if sport.unwrap() > dport.unwrap() {
            TrafficDirection::Outgoing
        } else {
            TrafficDirection::Incoming
        }
    } else if is_local_endpoint(addrs, src) {
        TrafficDirection::Outgoing
    } else if !spec_is_unspecified(src) {
        TrafficDirection::Incoming
    } else if !is_local_endpoint(addrs, dst) {
        TrafficDirection::Outgoing
    } else {
        TrafficDirection::Incoming
    }
}

/// The broadcast address of an interface address: its own, or 255.255.255.255 when unknown.
pub open spec fn broadcast_of(a: InterfaceAddress) -> IpAddress {
    match a.broadcast_addr {
        Some(b) => b,
        None => limited_broadcast(),
    }
}

/// Whether `ip` is 255.255.255.255 or the broadcast address of one of the interface addresses.
pub open spec fn spec_is_broadcast(ip: IpAddress, addrs: Seq<InterfaceAddress>) -> bool {
    ip == limited_broadcast() || exists|i: int| 0 <= i < addrs.len() && broadcast_of(addrs[i]) == ip
}

pub open spec fn spec_traffic_type(
    dst: IpAddress,
    addrs: Seq<InterfaceAddress>,
    direction: TrafficDirection,
) -> TrafficType {
    if direction == TrafficDirection::Outgoing {
        if spec_is_multicast(dst) {
            TrafficType::Multicast
        } else if spec_is_broadcast(dst, addrs) {
            TrafficType::Broadcast
        } else {
            TrafficType::Unicast
        }
    } else {
        TrafficType::Unicast
    }
}

/// Whether `remote` lies in the subnet of the interface address `a`: both of one IP version,
/// with a netmask of that version, which applied to both gives the same result.
pub open spec fn in_subnet(a: InterfaceAddress, remote: IpAddress) -> bool {
    match (a.addr, remote, a.netmask) {
        (IpAddress::V4(l), IpAddress::V4(r), Some(IpAddress::V4(m))) => m & l == m & r,
        (IpAddress::V6(l), IpAddress::V6(r), Some(IpAddress::V6(m))) => m & l == m & r,
        _ => false,
    }
}

/// A remote address is local when it is link-local or in the subnet of an interface address.
pub open spec fn spec_is_local_connection(remote: IpAddress, addrs: Seq<InterfaceAddress>) -> bool {
    spec_is_link_local(remote) || exists|i: int| 0 <= i < addrs.len() && in_subnet(addrs[i], remote)
}

/// The address whose host a flow is attributed to: the destination of outgoing traffic,
/// the source of incoming traffic.
pub open spec fn spec_address_to_lookup(key: AddressPortPair, direction: TrafficDirection) -> IpAddress {
    match direction {
        TrafficDirection::Outgoing => key.address2,
        TrafficDirection::Incoming => key.address1,
    }
}

fn has_interface_address(addrs: &[InterfaceAddress], ip: &IpAddress) -> (r: bool)
    ensures
        r == has_address(addrs@, *ip),
{
    let mut i: usize = 0;
    while i < addrs.len()
        invariant
            i <= addrs@.len(),
            forall|j: int| 0 <= j < i ==> addrs@[j].addr != *ip,
        decreases addrs@.len() - i,
    {
        if addrs[i].addr == *ip {
            return true;
        }
        i = i + 1;
    }
    false
}

fn is_local_endpoint_exec(addrs: &[InterfaceAddress], ip: &IpAddress) -> (r: bool)
    ensures
        r == is_local_endpoint(addrs@, *ip),
{
    if addrs.len() == 0 {
        bogon_range(ip).is_some()
    } else {
        has_interface_address(addrs, ip)
    }
}

/// Direction of a flow at its first packet.
pub fn get_traffic_direction(
    source_ip: &IpAddress,
    destination_ip: &IpAddress,
    source_port: Option<u16>,
    dest_port: Option<u16>,
    my_interface_addresses: &[InterfaceAddress],
) -> (r: TrafficDirection)
    ensures
        r == spec_traffic_direction(
            *source_ip,
            *destination_ip,
            source_port,
            dest_port,
            my_interface_addresses@,
        ),
{
    if source_ip.is_loopback() && destination_ip.is_loopback() {
        if let (Some(sport), Some(dport)) = (source_port, dest_port) {
            return if sport > dport {
                TrafficDirection::Outgoing
            } else {
                TrafficDirection::Incoming
            };
        }
    }
    if is_local_endpoint_exec(my_interface_addresses, source_ip) {
        TrafficDirection::Outgoing
    } else if !source_ip.is_unspecified() {
        TrafficDirection::Incoming
    } else if !is_local_endpoint_exec(my_interface_addresses, destination_ip) {
        TrafficDirection::Outgoing
    } else {
        TrafficDirection::Incoming
    }
}

/// Traffic type of the remote host: only outgoing traffic can be multicast or broadcast.
pub fn get_traffic_type(
    destination_ip: &IpAddress,
    my_interface_addresses: &[InterfaceAddress],
    traffic_direction: TrafficDirection,
) -> (r: TrafficType)
    ensures
        r == spec_traffic_type(*destination_ip, my_interface_addresses@, traffic_direction),
{
    if traffic_direction == TrafficDirection::Outgoing {
        if destination_ip.is_multicast() {
            TrafficType::Multicast
        } else if is_broadcast_address(destination_ip, my_interface_addresses) {
            TrafficType::Broadcast
        } else {
            TrafficType::Unicast
        }
    } else {
        TrafficType::Unicast
    }
}

/// Whether the address is the limited broadcast address or the directed broadcast address
/// of one of the interface addresses.
pub fn is_broadcast_address(address: &IpAddress, my_interface_addresses: &[InterfaceAddress]) -> (r:
    bool)
    ensures
        r == spec_is_broadcast(*address, my_interface_addresses@),
{
    if *address == IpAddress::V4(0xffff_ffff) {
        return true;
    }
    let mut i: usize = 0;
    while i < my_interface_addresses.len()
        invariant
            i <= my_interface_addresses@.len(),
            forall|j: int| 0 <= j < i ==> broadcast_of(my_interface_addresses@[j]) != *address,
        decreases my_interface_addresses@.len() - i,
    {
        let b = match my_interface_addresses[i].broadcast_addr {
            Some(b) => b,
            None => IpAddress::V4(0xffff_ffff),
        };
        if b == *address {
            return true;
        }
        i = i + 1;
    }
    false
}

fn in_subnet_exec(a: &InterfaceAddress, remote: &IpAddress) -> (r: bool)
    ensures
        r == in_subnet(*a, *remote),
{
    match (a.addr, *remote, a.netmask) {
        (IpAddress::V4(l), IpAddress::V4(r), Some(IpAddress::V4(m))) => m & l == m & r,
        (IpAddress::V6(l), IpAddress::V6(r), Some(IpAddress::V6(m))) => m & l == m & r,
        _ => false,
    }
}

/// Whether the remote address is on the capturing host's local network: link-local, or in
/// the subnet of an interface address of the same IP version (compared under that
/// interface's netmask).
pub fn is_local_connection(
    address_to_lookup: &IpAddress,
    my_interface_addresses: &[InterfaceAddress],
) -> (r: bool)
    ensures
        r == spec_is_local_connection(*address_to_lookup, my_interface_addresses@),
{
    if address_to_lookup.is_link_local() {
        return true;
    }
    let mut i: usize = 0;
    while i < my_interface_addresses.len()
        invariant
            i <= my_interface_addresses@.len(),
            forall|j: int| 0 <= j < i ==> !in_subnet(my_interface_addresses@[j], *address_to_lookup),
        decreases my_interface_addresses@.len() - i,
    {
        if in_subnet_exec(&my_interface_addresses[i], address_to_lookup) {
            return true;
        }
        i = i + 1;
    }
    false
}

/// Whether the address belongs to the capturing interface, or is a loopback address.
pub fn is_my_address(local_address: &IpAddress, my_interface_addresses: &[InterfaceAddress]) -> (r:
    bool)
    ensures
        r == (has_address(my_interface_addresses@, *local_address) || spec_is_loopback(
            *local_address,
        )),
{
    if has_interface_address(my_interface_addresses, local_address) {
        return true;
    }
    local_address.is_loopback()
}

/// The address whose host the flow is attributed to.
pub fn get_address_to_lookup(key: &AddressPortPair, traffic_direction: TrafficDirection) -> (r:
    IpAddress)
    ensures
        r == spec_address_to_lookup(*key, traffic_direction),
{
    match traffic_direction {
        TrafficDirection::Outgoing => key.address2,
        TrafficDirection::Incoming => key.address1,
    }
}

} // verus!
