//! Remote hosts: resolved name, autonomous system and country, with their traffic.

use vstd::prelude::*;
use crate::data_info::DataInfo;
use crate::types::TrafficType;

verus! {

/// An autonomous system.
#[derive(Clone, Debug)]
pub struct Asn {
    /// Autonomous system number.
    pub code: String,
    /// Autonomous system name.
    pub name: String,
}

/// A remote host.
#[derive(Clone, Debug)]
pub struct Host {
    /// Reverse-DNS name, or the address in text where there is none.
    pub domain: String,
    pub asn: Asn,
    /// Country code, empty where unknown.
    pub country: String,
}

/// A host with its texts as character sequences.
pub struct HostView {
    pub domain: Seq<char>,
    pub asn_code: Seq<char>,
    pub asn_name: Seq<char>,
    pub country: Seq<char>,
}

impl View for Host {
    type V = HostView;

    open spec fn view(&self) -> HostView {
        HostView {
            domain: self.domain@,
            asn_code: self.asn.code@,
            asn_name: self.asn.name@,
            country: self.country@,
        }
    }
}

impl PartialEq for Host {
    fn eq(&self, other: &Host) -> (r: bool)
        ensures
            r == (self@ == other@),
    {
        self.domain.eq(&other.domain) && self.asn.code.eq(&other.asn.code) && self.asn.name.eq(
            &other.asn.name,
        ) && self.country.eq(&other.country)
    }
}

impl vstd::std_specs::cmp::PartialEqSpecImpl for Host {
    open spec fn obeys_eq_spec() -> bool {
        true
    }

    open spec fn eq_spec(&self, other: &Host) -> bool {
        self@ == other@
    }
}

impl Host {
    /// A copy whose texts are equal to this host's.
    pub fn duplicate(&self) -> (r: Host)
        ensures
            r@ == self@,
    {
        Host {
            domain: self.domain.clone(),
            asn: Asn { code: self.asn.code.clone(), name: self.asn.name.clone() },
            country: self.country.clone(),
        }
    }
}

/// Traffic of a host, with facts about it that are fixed when it is first seen.
#[derive(Clone, Copy, Debug, PartialEq, Eq, Structural)]
pub struct DataInfoHost {
    pub data_info: DataInfo,
    pub is_favorite: bool,
    pub is_loopback: bool,
    pub is_local: bool,
    pub is_bogon: bool,
    pub traffic_type: TrafficType,
}

} // verus!
