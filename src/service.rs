//! Upper-layer services: the port table and the choice between the two ports of a flow.

use vstd::prelude::*;
use vstd::string::{StrSliceExecFns, StringExecFns};
use crate::address::{InterfaceAddress, spec_is_multicast};
use crate::classify::{is_broadcast_address, spec_is_broadcast};
use crate::types::{AddressPortPair, Protocol, TrafficDirection};

verus! {

/// Upper-layer service of a flow.
#[derive(Clone, Debug)]
pub enum Service {
    /// One of the known services.
    Name(String),
    /// No known service on either port.
    Unknown,
    /// Ports do not apply (ICMP, ARP).
    NotApplicable,
}

/// A service with its name as a character sequence.
pub enum ServiceView {
    Name(Seq<char>),
    Unknown,
    NotApplicable,
}

impl View for Service {
    type V = ServiceView;

    open spec fn view(&self) -> ServiceView {
        match self {
            Service::Name(n) => ServiceView::Name(n@),
            Service::Unknown => ServiceView::Unknown,
            Service::NotApplicable => ServiceView::NotApplicable,
        }
    }
}

impl PartialEq for Service {
    fn eq(&self, other: &Service) -> (r: bool)
        ensures
            r == (self@ == other@),
    {
        match (self, other) {
            (Service::Name(a), Service::Name(b)) => a.eq(b),
            (Service::Unknown, Service::Unknown) => true,
            (Service::NotApplicable, Service::NotApplicable) => true,
            _ => false,
        }
    }
}

impl vstd::std_specs::cmp::PartialEqSpecImpl for Service {
    open spec fn obeys_eq_spec() -> bool {
        true
    }

    open spec fn eq_spec(&self, other: &Service) -> bool {
        self@ == other@
    }
}

impl Service {
    /// The service as shown to a user: its name, `?` when unknown, `-` when not applicable.
    pub fn to_display_string(&self) -> (r: String)
        ensures
            r@ == match self@ {
                ServiceView::Name(n) => n,
                ServiceView::Unknown => "?"@,
                ServiceView::NotApplicable => "-"@,
            },
    {
        match self {
            Service::Name(n) => n.clone(),
            Service::Unknown => String::from_str("?"),
            Service::NotApplicable => String::from_str("-"),
        }
    }

    /// The shown text, with a leading `=` for named and not-applicable services.
    pub fn to_string_with_equal_prefix(&self) -> (r: String)
        ensures
            r@ == match self@ {
                ServiceView::Name(n) => "="@ + n,
                ServiceView::Unknown => "?"@,
                ServiceView::NotApplicable => "="@ + "-"@,
            },
    {
        match self {
            Service::Unknown => self.to_display_string(),
            _ => {
                let mut s = String::from_str("=");
                let shown = self.to_display_string();
                s.append(shown.as_str());
                s
            },
        }
    }
}

/// One line of the service table.
#[derive(Clone, Debug)]
pub struct ServiceEntry {
    pub port: u16,
    pub protocol: Protocol,
    pub name: String,
}

/// Whether `c` is whitespace in a service name.
pub open spec fn is_name_space(c: char) -> bool {
    c == ' ' || c == '\t' || c == '\n' || c == '\r'
}

/// A name that the table accepts: not empty, not a placeholder (`unknown`, `-`), ASCII, and
/// without whitespace, `#` or `?`.
pub open spec fn valid_service_name(n: Seq<char>) -> bool {
    &&& n.len() > 0
    &&& n != "unknown"@
    &&& n != "-"@
    &&& forall|i: int|
        0 <= i < n.len() ==> (n[i] as int) < 128 && !is_name_space(n[i]) && n[i] != '#' && n[i]
            != '?'
}

/// The service of the first entry for the port and protocol, from position `i` on.
pub open spec fn lookup_from(entries: Seq<ServiceEntry>, i: int, port: u16, protocol: Protocol) -> ServiceView
    decreases entries.len() - i,
{
    if i < 0 || i >= entries.len() {
        ServiceView::Unknown
    } else if entries[i].port == port && entries[i].protocol == protocol {
        ServiceView::Name(entries[i].name@)
    } else {
        lookup_from(entries, i + 1, port, protocol)
    }
}

/// Table of known services by port and transport protocol (TCP or UDP).
pub struct ServiceTable {
    entries: Vec<ServiceEntry>,
}

impl ServiceTable {
    pub closed spec fn entries(&self) -> Seq<ServiceEntry> {
        self.entries@
    }

    /// The service that the table gives to a port and protocol.
    pub open spec fn spec_lookup(&self, port: u16, protocol: Protocol) -> ServiceView {
        lookup_from(self.entries(), 0, port, protocol)
    }

    /// The well-formedness of a table: every name valid, only TCP and UDP ports.
    pub open spec fn wf(&self) -> bool {
        forall|i: int|
            0 <= i < self.entries().len() ==> valid_service_name(#[trigger] self.entries()[i].name@)
                && (self.entries()[i].protocol == Protocol::TCP || self.entries()[i].protocol
                == Protocol::UDP)
    }

    /// A table with no services.
    pub fn new() -> (r: ServiceTable)
        ensures
            r.entries() == Seq::<ServiceEntry>::empty(),
            r.wf(),
    {
        ServiceTable { entries: Vec::new() }
    }

    /// Number of entries.
    pub fn len(&self) -> (r: usize)
        ensures
            r == self.entries().len(),
    {
        self.entries.len()
    }

    /// Adds a service; refused (`false`, table unchanged) where the name is not valid or the
    /// protocol is neither TCP nor UDP. An earlier entry for the same port and protocol keeps
    /// precedence.
    pub fn add(&mut self, name: &str, port: u16, protocol: Protocol) -> (r: bool)
        requires
            old(self).wf(),
        ensures
            final(self).wf(),
            r == (valid_service_name(name@) && (protocol == Protocol::TCP || protocol
                == Protocol::UDP)),
            r ==> final(self).entries() == old(self).entries().push(
                ServiceEntry { port, protocol, name: final(self).entries().last().name },
            ) && final(self).entries().last().name@ == name@,
            !r ==> final(self).entries() == old(self).entries(),
    {
        if !(protocol == Protocol::TCP || protocol == Protocol::UDP) || !is_valid_service_name(name) {
            return false;
        }
        let entry = ServiceEntry { port, protocol, name: String::from_str(name) };
        self.entries.push(entry);
        proof {
            assert(self.entries@.last().name@ == name@);
            assert forall|i: int| 0 <= i < self.entries().len() implies valid_service_name(
                #[trigger] self.entries()[i].name@,
            ) && (self.entries()[i].protocol == Protocol::TCP || self.entries()[i].protocol
                == Protocol::UDP) by {
                if i < old(self).entries().len() {
                    assert(self.entries()[i] == old(self).entries()[i]);
                    assert(valid_service_name(old(self).entries()[i].name@));
                } else {
                    assert(i == old(self).entries().len());
                    assert(self.entries()[i].name@ == name@);
                }
            }
        }
        true
    }

    /// The service of a port and protocol: the first entry for them, else `Unknown`.
    pub fn lookup(&self, port: u16, protocol: Protocol) -> (r: Service)
        ensures
            r@ == self.spec_lookup(port, protocol),
    {
        let mut i: usize = 0;
        while i < self.entries.len()
            invariant
                i <= self.entries@.len(),
                lookup_from(self.entries@, 0, port, protocol) == lookup_from(
                    self.entries@,
                    i as int,
                    port,
                    protocol,
                ),
            decreases self.entries@.len() - i,
        {
            let e = &self.entries[i];
            if e.port == port && e.protocol == protocol {
                return Service::Name(e.name.clone());
            }
            i = i + 1;
        }
        Service::Unknown
    }
}

fn is_valid_service_name(name: &str) -> (r: bool)
    ensures
        r == valid_service_name(name@),
{
    let n = name.unicode_len();
    if n == 0 {
        return false;
    }
    let unknown = "unknown";
    let dash = "-";
    proof {
        reveal_strlit("unknown");
        reveal_strlit("-");
    }
    if n == 7 {
        let mut same = true;
        proof {
            assert(name@.take(0) =~= unknown@.take(0));
        }
        let mut k: usize = 0;
        while k < 7
            invariant
                k <= 7,
                name@.len() == 7,
                unknown@ == "unknown"@,
                unknown@.len() == 7,
                same == (name@.take(k as int) == unknown@.take(k as int)),
            decreases 7 - k,
        {
            if name.get_char(k) != unknown.get_char(k) {
                same = false;
            }
            proof {
                assert(name@.take(k as int + 1) == name@.take(k as int).push(name@[k as int]));
                assert(unknown@.take(k as int + 1) == unknown@.take(k as int).push(unknown@[k as int]));
                if name@.take(k as int + 1) == unknown@.take(k as int + 1) {
                    assert(name@.take(k as int + 1)[k as int] == name@[k as int]);
                    assert(name@.take(k as int) =~= name@.take(k as int + 1).take(k as int));
                    assert(unknown@.take(k as int) =~= unknown@.take(k as int + 1).take(k as int));
                }
            }
            k = k + 1;
        }
        proof {
            assert(name@.take(7) =~= name@);
            assert(unknown@.take(7) =~= unknown@);
        }
        if same {
            return false;
        }
    }
    if n == 1 && name.get_char(0) == dash.get_char(0) {
        proof {
            assert(name@ =~= "-"@);
        }
        return false;
    }
    proof {
        if n == 1 {
            assert(name@ != "-"@) by {
                if name@ == "-"@ {
                    assert(name@[0] == dash@[0]);
                }
            }
        }
    }
    let mut i: usize = 0;
    while i < n
        invariant
            i <= n,
            n == name@.len(),
            forall|j: int|
                0 <= j < i ==> (name@[j] as int) < 128 && !is_name_space(name@[j]) && name@[j]
                    != '#' && name@[j] != '?',
        decreases n - i,
    {
        let c = name.get_char(i);
        if (c as u32) >= 128 || c == ' ' || c == '\t' || c == '\n' || c == '\r' || c == '#' || c
            == '?' {
            return false;
        }
        i = i + 1;
    }
    true
}

/// Score of a candidate service: zero when unnamed, otherwise 3 for a well-known port
/// (below 1024) or 1 for another, plus 1 for the side that gets the direction bonus.
pub open spec fn service_score(s: ServiceView, port: u16, bonus: bool) -> int {
    match s {
        ServiceView::Name(_) => (if port < 1024 { 3int } else { 1int }) + (if bonus { 1int } else { 0int }),
        _ => 0,
    }
}

/// Whether the destination port of a flow gets the bonus: outgoing traffic, or a multicast
/// or broadcast destination.
pub open spec fn destination_bonus(
    key: AddressPortPair,
    direction: TrafficDirection,
    addrs: Seq<InterfaceAddress>,
) -> bool {
    direction == TrafficDirection::Outgoing || spec_is_multicast(key.address2) || spec_is_broadcast(
        key.address2,
        addrs,
    )
}

/// The service of a flow: not applicable to ICMP, ARP or a missing port; otherwise the
/// better scored of the two ports' services, the destination's on a tie.
pub open spec fn spec_get_service(
    key: AddressPortPair,
    direction: TrafficDirection,
    addrs: Seq<InterfaceAddress>,
    table: ServiceTable,
) -> ServiceView {
    if key.protocol == Protocol::ICMP || key.protocol == Protocol::ARP || key.port1.is_none()
        || key.port2.is_none() {
        ServiceView::NotApplicable
    } else {
        let p1 = key.port1.unwrap();
        let p2 = key.port2.unwrap();
        let s1 = table.spec_lookup(p1, key.protocol);
        let s2 = table.spec_lookup(p2, key.protocol);
        let bonus_dest = destination_bonus(key, direction, addrs);
        if service_score(s1, p1, !bonus_dest) > service_score(s2, p2, bonus_dest) {
            s1
        } else {
            s2
        }
    }
}

fn compute_service_score(service: &Service, port: u16, bonus_direction: bool) -> (r: u8)
    ensures
        r as int == service_score(service@, port, bonus_direction),
{
    let service_is_some: u8 = match service {
        Service::Name(_) => 1,
        _ => 0,
    };
    let port_is_well_known: u8 = if port < 1024 { 3 } else { 1 };
    let bonus: u8 = if bonus_direction { 1 } else { 0 };
    service_is_some * (port_is_well_known + bonus)
}

/// Identifies the upper-layer service of a flow.
pub fn get_service(
    key: &AddressPortPair,
    traffic_direction: TrafficDirection,
    my_interface_addresses: &[InterfaceAddress],
    services: &ServiceTable,
) -> (r: Service)
    ensures
        r@ == spec_get_service(*key, traffic_direction, my_interface_addresses@, *services),
{
    if key.protocol == Protocol::ICMP || key.protocol == Protocol::ARP {
        return Service::NotApplicable;
    }
    let port1 = match key.port1 {
        Some(p) => p,
        None => return Service::NotApplicable,
    };
    let port2 = match key.port2 {
        Some(p) => p,
        None => return Service::NotApplicable,
    };
    let service1 = services.lookup(port1, key.protocol);
    let service2 = services.lookup(port2, key.protocol);
    let dest_ip = key.address2;
    let bonus_dest = traffic_direction == TrafficDirection::Outgoing || dest_ip.is_multicast()
        || is_broadcast_address(&dest_ip, my_interface_addresses);
    let score1 = compute_service_score(&service1, port1, !bonus_dest);
    let score2 = compute_service_score(&service2, port2, bonus_dest);
    if score1 > score2 {
        service1
    } else {
        service2
    }
}

} // verus!
