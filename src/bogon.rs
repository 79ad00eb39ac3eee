//! Reserved and special-use address ranges ("bogons").

use vstd::prelude::*;
use crate::address::IpAddress;

verus! {

/// A reserved or special-use address range.
#[derive(Clone, Copy, Debug, PartialEq, Eq, Structural)]
pub enum Bogon {
    ThisNetwork,
    PrivateUse10,
    PrivateUse172,
    PrivateUse192,
    CarrierGrade,
    Loopback,
    LinkLocal,
    IetfProtocol,
    TestNet1,
    NetworkInterconnect,
    TestNet2,
    TestNet3,
    Multicast,
    FutureUse,
    NodeScopeUnspecified,
    NodeScopeLoopback,
    Ipv4Mapped,
    Ipv4Compatible,
    RemotelyTriggered,
    Orchid,
    DocumentationPrefix,
    UniqueLocal,
    LinkLocalUnicast,
    SiteLocalUnicast,
    MulticastV6,
}

/// Whether the range is one of IPv6 addresses.
pub open spec fn bogon_is_v6(b: Bogon) -> bool {
    match b {
        Bogon::NodeScopeUnspecified | Bogon::NodeScopeLoopback | Bogon::Ipv4Mapped
        | Bogon::Ipv4Compatible | Bogon::RemotelyTriggered | Bogon::Orchid
        | Bogon::DocumentationPrefix | Bogon::UniqueLocal | Bogon::LinkLocalUnicast
        | Bogon::SiteLocalUnicast | Bogon::MulticastV6 => true,
        _ => false,
    }
}

/// The first and last address of the range, as integers.
pub open spec fn bogon_bounds(b: Bogon) -> (int, int) {
    match b {
        Bogon::ThisNetwork => (0x0000_0000, 0x00ff_ffff),
        Bogon::PrivateUse10 => (0x0a00_0000, 0x0aff_ffff),
        Bogon::PrivateUse172 => (0xac10_0000, 0xac1f_ffff),
        Bogon::PrivateUse192 => (0xc0a8_0000, 0xc0a8_ffff),
        Bogon::CarrierGrade => (0x6440_0000, 0x647f_ffff),
        Bogon::Loopback => (0x7f00_0000, 0x7fff_ffff),
        Bogon::LinkLocal => (0xa9fe_0000, 0xa9fe_ffff),
        Bogon::IetfProtocol => (0xc000_0000, 0xc000_00ff),
        Bogon::TestNet1 => (0xc000_0200, 0xc000_02ff),
        Bogon::NetworkInterconnect => (0xc612_0000, 0xc613_ffff),
        Bogon::TestNet2 => (0xc633_6400, 0xc633_64ff),
        Bogon::TestNet3 => (0xcb00_7100, 0xcb00_71ff),
        Bogon::Multicast => (0xe000_0000, 0xefff_ffff),
        Bogon::FutureUse => (0xf000_0000, 0xffff_ffff),
        Bogon::NodeScopeUnspecified => (0, 0),
        Bogon::NodeScopeLoopback => (1, 1),
        Bogon::Ipv4Mapped => (0xffff_0000_0000, 0xffff_ffff_ffff),
        Bogon::Ipv4Compatible => (0, 0xffff_ffff),
        Bogon::RemotelyTriggered => (
            0x0100_0000_0000_0000_0000_0000_0000_0000,
            0x0100_0000_0000_0000_ffff_ffff_ffff_ffff,
        ),
        Bogon::Orchid => (
            0x2001_0010_0000_0000_0000_0000_0000_0000,
            0x2001_001f_ffff_ffff_ffff_ffff_ffff_ffff,
        ),
        Bogon::DocumentationPrefix => (
            0x2001_0db8_0000_0000_0000_0000_0000_0000,
            0x2001_0db8_ffff_ffff_ffff_ffff_ffff_ffff,
        ),
        Bogon::UniqueLocal => (
            0xfc00_0000_0000_0000_0000_0000_0000_0000,
            0xfdff_ffff_ffff_ffff_ffff_ffff_ffff_ffff,
        ),
        Bogon::LinkLocalUnicast => (
            0xfe80_0000_0000_0000_0000_0000_0000_0000,
            0xfebf_ffff_ffff_ffff_ffff_ffff_ffff_ffff,
        ),
        Bogon::SiteLocalUnicast => (
            0xfec0_0000_0000_0000_0000_0000_0000_0000,
            0xfeff_ffff_ffff_ffff_ffff_ffff_ffff_ffff,
        ),
        Bogon::MulticastV6 => (
            0xff00_0000_0000_0000_0000_0000_0000_0000,
            0xffff_ffff_ffff_ffff_ffff_ffff_ffff_ffff,
        ),
    }
}

/// Whether the range holds the address.
pub open spec fn bogon_contains(b: Bogon, ip: IpAddress) -> bool {
    let (lo, hi) = bogon_bounds(b);
    match ip {
        IpAddress::V4(a) => !bogon_is_v6(b) && lo <= a <= hi,
        IpAddress::V6(a) => bogon_is_v6(b) && lo <= a <= hi,
    }
}

/// The ranges in the order in which they are searched.
pub open spec fn bogon_table() -> Seq<Bogon> {
    seq![
        Bogon::ThisNetwork,
        Bogon::PrivateUse10,
        Bogon::PrivateUse172,
        Bogon::PrivateUse192,
        Bogon::CarrierGrade,
        Bogon::Loopback,
        Bogon::LinkLocal,
        Bogon::IetfProtocol,
        Bogon::TestNet1,
        Bogon::NetworkInterconnect,
        Bogon::TestNet2,
        Bogon::TestNet3,
        Bogon::Multicast,
        Bogon::FutureUse,
        Bogon::NodeScopeUnspecified,
        Bogon::NodeScopeLoopback,
        Bogon::Ipv4Mapped,
        Bogon::Ipv4Compatible,
        Bogon::RemotelyTriggered,
        Bogon::Orchid,
        Bogon::DocumentationPrefix,
        Bogon::UniqueLocal,
        Bogon::LinkLocalUnicast,
        Bogon::SiteLocalUnicast,
        Bogon::MulticastV6,
    ]
}

/// The first range of `table`, from position `i` on, that holds the address.
pub open spec fn first_bogon_from(table: Seq<Bogon>, i: int, ip: IpAddress) -> Option<Bogon>
    decreases table.len() - i,
{
    if i < 0 || i >= table.len() {
        None
    } else if bogon_contains(table[i], ip) {
        Some(table[i])
    } else {
        first_bogon_from(table, i + 1, ip)
    }
}

/// The first range of the table that holds the address, if any.
pub open spec fn bogon_of(ip: IpAddress) -> Option<Bogon> {
    first_bogon_from(bogon_table(), 0, ip)
}

/// The text that describes a range.
pub open spec fn bogon_text(b: Bogon) -> Seq<char> {
    match b {
        Bogon::ThisNetwork => "\"this\" network"@,
        Bogon::PrivateUse10 | Bogon::PrivateUse172 | Bogon::PrivateUse192 => "private-use"@,
        Bogon::CarrierGrade => "carrier-grade NAT"@,
        Bogon::Loopback => "loopback"@,
        Bogon::LinkLocal => "link local"@,
        Bogon::IetfProtocol => "IETF protocol assignments"@,
        Bogon::TestNet1 => "TEST-NET-1"@,
        Bogon::NetworkInterconnect => "network interconnect device benchmark testing"@,
        Bogon::TestNet2 => "TEST-NET-2"@,
        Bogon::TestNet3 => "TEST-NET-3"@,
        Bogon::Multicast => "multicast"@,
        Bogon::FutureUse => "future use"@,
        Bogon::NodeScopeUnspecified => "node-scope unicast unspecified"@,
        Bogon::NodeScopeLoopback => "node-scope unicast loopback"@,
        Bogon::Ipv4Mapped => "IPv4-mapped"@,
        Bogon::Ipv4Compatible => "IPv4-compatible"@,
        Bogon::RemotelyTriggered => "remotely triggered black hole"@,
        Bogon::Orchid => "ORCHID"@,
        Bogon::DocumentationPrefix => "documentation prefix"@,
        Bogon::UniqueLocal => "ULA"@,
        Bogon::LinkLocalUnicast => "link-local unicast"@,
        Bogon::SiteLocalUnicast => "site-local unicast"@,
        Bogon::MulticastV6 => "multicast v6"@,
    }
}

impl Bogon {
    /// The range at position `i` of the search order.
    fn at(i: usize) -> (r: Bogon)
        requires
            i < bogon_table().len(),
        ensures
            r == bogon_table()[i as int],
    {
        match i {
            0 => Bogon::ThisNetwork,
            1 => Bogon::PrivateUse10,
            2 => Bogon::PrivateUse172,
            3 => Bogon::PrivateUse192,
            4 => Bogon::CarrierGrade,
            5 => Bogon::Loopback,
            6 => Bogon::LinkLocal,
            7 => Bogon::IetfProtocol,
            8 => Bogon::TestNet1,
            9 => Bogon::NetworkInterconnect,
            10 => Bogon::TestNet2,
            11 => Bogon::TestNet3,
            12 => Bogon::Multicast,
            13 => Bogon::FutureUse,
            14 => Bogon::NodeScopeUnspecified,
            15 => Bogon::NodeScopeLoopback,
            16 => Bogon::Ipv4Mapped,
            17 => Bogon::Ipv4Compatible,
            18 => Bogon::RemotelyTriggered,
            19 => Bogon::Orchid,
            20 => Bogon::DocumentationPrefix,
            21 => Bogon::UniqueLocal,
            22 => Bogon::LinkLocalUnicast,
            23 => Bogon::SiteLocalUnicast,
            _ => Bogon::MulticastV6,
        }
    }

    /// The first and last address of the range.
    fn bounds(&self) -> (r: (u128, u128))
        ensures
            r.0 as int == bogon_bounds(*self).0,
            r.1 as int == bogon_bounds(*self).1,
    {
        match *self {
            Bogon::ThisNetwork => (0x0000_0000, 0x00ff_ffff),
            Bogon::PrivateUse10 => (0x0a00_0000, 0x0aff_ffff),
            Bogon::PrivateUse172 => (0xac10_0000, 0xac1f_ffff),
            Bogon::PrivateUse192 => (0xc0a8_0000, 0xc0a8_ffff),
            Bogon::CarrierGrade => (0x6440_0000, 0x647f_ffff),
            Bogon::Loopback => (0x7f00_0000, 0x7fff_ffff),
            Bogon::LinkLocal => (0xa9fe_0000, 0xa9fe_ffff),
            Bogon::IetfProtocol => (0xc000_0000, 0xc000_00ff),
            Bogon::TestNet1 => (0xc000_0200, 0xc000_02ff),
            Bogon::NetworkInterconnect => (0xc612_0000, 0xc613_ffff),
            Bogon::TestNet2 => (0xc633_6400, 0xc633_64ff),
            Bogon::TestNet3 => (0xcb00_7100, 0xcb00_71ff),
            Bogon::Multicast => (0xe000_0000, 0xefff_ffff),
            Bogon::FutureUse => (0xf000_0000, 0xffff_ffff),
            Bogon::NodeScopeUnspecified => (0, 0),
            Bogon::NodeScopeLoopback => (1, 1),
            Bogon::Ipv4Mapped => (0xffff_0000_0000, 0xffff_ffff_ffff),
            Bogon::Ipv4Compatible => (0, 0xffff_ffff),
            Bogon::RemotelyTriggered => (
                0x0100_0000_0000_0000_0000_0000_0000_0000,
                0x0100_0000_0000_0000_ffff_ffff_ffff_ffff,
            ),
            Bogon::Orchid => (
                0x2001_0010_0000_0000_0000_0000_0000_0000,
                0x2001_001f_ffff_ffff_ffff_ffff_ffff_ffff,
            ),
            Bogon::DocumentationPrefix => (
                0x2001_0db8_0000_0000_0000_0000_0000_0000,
                0x2001_0db8_ffff_ffff_ffff_ffff_ffff_ffff,
            ),
            Bogon::UniqueLocal => (
                0xfc00_0000_0000_0000_0000_0000_0000_0000,
                0xfdff_ffff_ffff_ffff_ffff_ffff_ffff_ffff,
            ),
            Bogon::LinkLocalUnicast => (
                0xfe80_0000_0000_0000_0000_0000_0000_0000,
                0xfebf_ffff_ffff_ffff_ffff_ffff_ffff_ffff,
            ),
            Bogon::SiteLocalUnicast => (
                0xfec0_0000_0000_0000_0000_0000_0000_0000,
                0xfeff_ffff_ffff_ffff_ffff_ffff_ffff_ffff,
            ),
            Bogon::MulticastV6 => (
                0xff00_0000_0000_0000_0000_0000_0000_0000,
                0xffff_ffff_ffff_ffff_ffff_ffff_ffff_ffff,
            ),
        }
    }

    /// Whether the range is one of IPv6 addresses.
    fn is_v6(&self) -> (r: bool)
        ensures
            r == bogon_is_v6(*self),
    {
        match *self {
            Bogon::NodeScopeUnspecified | Bogon::NodeScopeLoopback | Bogon::Ipv4Mapped
            | Bogon::Ipv4Compatible | Bogon::RemotelyTriggered | Bogon::Orchid
            | Bogon::DocumentationPrefix | Bogon::UniqueLocal | Bogon::LinkLocalUnicast
            | Bogon::SiteLocalUnicast | Bogon::MulticastV6 => true,
            _ => false,
        }
    }

    /// Whether the range holds the address.
    pub fn contains(&self, ip: &IpAddress) -> (r: bool)
        ensures
            r == bogon_contains(*self, *ip),
    {
        let (lo, hi) = self.bounds();
        match *ip {
            IpAddress::V4(a) => !self.is_v6() && lo <= a as u128 && a as u128 <= hi,
            IpAddress::V6(a) => self.is_v6() && lo <= a && a <= hi,
        }
    }

    /// The text that describes the range.
    pub fn description(&self) -> (r: &'static str)
        ensures
            r@ == bogon_text(*self),
    {
        match *self {
            Bogon::ThisNetwork => "\"this\" network",
            Bogon::PrivateUse10 | Bogon::PrivateUse172 | Bogon::PrivateUse192 => "private-use",
            Bogon::CarrierGrade => "carrier-grade NAT",
            Bogon::Loopback => "loopback",
            Bogon::LinkLocal => "link local",
            Bogon::IetfProtocol => "IETF protocol assignments",
            Bogon::TestNet1 => "TEST-NET-1",
            Bogon::NetworkInterconnect => "network interconnect device benchmark testing",
            Bogon::TestNet2 => "TEST-NET-2",
            Bogon::TestNet3 => "TEST-NET-3",
            Bogon::Multicast => "multicast",
            Bogon::FutureUse => "future use",
            Bogon::NodeScopeUnspecified => "node-scope unicast unspecified",
            Bogon::NodeScopeLoopback => "node-scope unicast loopback",
            Bogon::Ipv4Mapped => "IPv4-mapped",
            Bogon::Ipv4Compatible => "IPv4-compatible",
            Bogon::RemotelyTriggered => "remotely triggered black hole",
            Bogon::Orchid => "ORCHID",
            Bogon::DocumentationPrefix => "documentation prefix",
            Bogon::UniqueLocal => "ULA",
            Bogon::LinkLocalUnicast => "link-local unicast",
            Bogon::SiteLocalUnicast => "site-local unicast",
            Bogon::MulticastV6 => "multicast v6",
        }
    }
}

/// The first reserved range that holds the address, if any.
pub fn bogon_range(ip: &IpAddress) -> (r: Option<Bogon>)
    ensures
        r == bogon_of(*ip),
{
    let mut i: usize = 0;
    while i < 25
        invariant
            i <= 25,
            bogon_table().len() == 25,
            bogon_of(*ip) == first_bogon_from(bogon_table(), i as int, *ip),
        decreases 25 - i,
    {
        let b = Bogon::at(i);
        if b.contains(ip) {
            return Some(b);
        }
        i = i + 1;
    }
    None
}

/// The description of the reserved range that holds the address, or `None` when the
/// address is an ordinary public one.
pub fn is_bogon(ip: &IpAddress) -> (r: Option<&'static str>)
    ensures
        r.is_some() == bogon_of(*ip).is_some(),
        r.is_some() ==> r.unwrap()@ == bogon_text(bogon_of(*ip).unwrap()),
{
    match bogon_range(ip) {
        Some(b) => Some(b.description()),
        None => None,
    }
}

} // verus!
