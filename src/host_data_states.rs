//! The distinct domains, autonomous systems and countries of the hosts seen so far.

use vstd::prelude::*;
use vstd::string::StrSliceExecFns;
use crate::host::Host;

verus! {

/// The texts of a list of strings.
pub open spec fn texts(v: Seq<String>) -> Seq<Seq<char>> {
    v.map_values(|s: String| s@)
}

/// `after` is `before` with `s` added at the end where it was not there yet; `r` says whether
/// it was added.
pub open spec fn set_inserted(before: Seq<String>, after: Seq<String>, s: Seq<char>, r: bool) -> bool {
    if texts(before).contains(s) {
        !r && after == before
    } else {
        r && texts(after) == texts(before).push(s)
    }
}

/// Adds a copy of `s` unless an equal string is there; says whether it was added.
fn insert_unique(v: &mut Vec<String>, s: &String) -> (r: bool)
    ensures
        set_inserted(old(v)@, final(v)@, s@, r),
{
    let mut i: usize = 0;
    while i < v.len()
        invariant
            i <= v@.len(),
            v@ == old(v)@,
            forall|j: int| 0 <= j < i ==> v@[j]@ != s@,
        decreases v@.len() - i,
    {
        if v[i].eq(s) {
            proof {
                assert(texts(v@)[i as int] == s@);
            }
            return false;
        }
        i = i + 1;
    }
    proof {
        assert(!texts(v@).contains(s@)) by {
            if texts(v@).contains(s@) {
                let j = choose|j: int| 0 <= j < texts(v@).len() && texts(v@)[j] == s@;
                assert(v@[j]@ == s@);
            }
        }
    }
    v.push(s.clone());
    proof {
        assert(texts(v@) =~= texts(old(v)@).push(s@));
    }
    true
}

/// Distinct values, in order of first appearance, each with a flag that is set when a new
/// value arrives.
pub struct HostData {
    pub domains: (Vec<String>, bool),
    pub asns: (Vec<String>, bool),
    pub countries: (Vec<String>, bool),
}

/// The sets of data related to the hosts seen.
pub struct HostDataStates {
    pub data: HostData,
}

impl HostData {
    pub fn new() -> (r: HostData)
        ensures
            r.domains.0@.len() == 0 && !r.domains.1,
            r.asns.0@.len() == 0 && !r.asns.1,
            r.countries.0@.len() == 0 && !r.countries.1,
    {
        HostData {
            domains: (Vec::new(), false),
            asns: (Vec::new(), false),
            countries: (Vec::new(), false),
        }
    }

    /// Adds the domain (unless it is empty or just the address in text, as the caller
    /// says), the autonomous system name (unless empty) and the country code (unless
    /// empty) of a host.
    pub fn update(&mut self, host: &Host, domain_is_address: bool)
        ensures
            (host.domain@.len() > 0 && !domain_is_address) ==> {
                let added = !texts(old(self).domains.0@).contains(host.domain@);
                &&& set_inserted(old(self).domains.0@, final(self).domains.0@, host.domain@, added)
                &&& final(self).domains.1 == (added || old(self).domains.1)
            },
            !(host.domain@.len() > 0 && !domain_is_address) ==> final(self).domains
                == old(self).domains,
            host.asn.name@.len() > 0 ==> {
                let added = !texts(old(self).asns.0@).contains(host.asn.name@);
                &&& set_inserted(old(self).asns.0@, final(self).asns.0@, host.asn.name@, added)
                &&& final(self).asns.1 == (added || old(self).asns.1)
            },
            host.asn.name@.len() == 0 ==> final(self).asns == old(self).asns,
            host.country@.len() > 0 ==> {
                let added = !texts(old(self).countries.0@).contains(host.country@);
                &&& set_inserted(old(self).countries.0@, final(self).countries.0@, host.country@, added)
                &&& final(self).countries.1 == (added || old(self).countries.1)
            },
            host.country@.len() == 0 ==> final(self).countries == old(self).countries,
    {
        if host.domain.as_str().unicode_len() > 0 && !domain_is_address {
            let added = insert_unique(&mut self.domains.0, &host.domain);
            self.domains.1 = added || self.domains.1;
        }
        if host.asn.name.as_str().unicode_len() > 0 {
            let added = insert_unique(&mut self.asns.0, &host.asn.name);
            self.asns.1 = added || self.asns.1;
        }
        if host.country.as_str().unicode_len() > 0 {
            let added = insert_unique(&mut self.countries.0, &host.country);
            self.countries.1 = added || self.countries.1;
        }
    }
}

impl HostDataStates {
    pub fn new() -> (r: HostDataStates)
        ensures
            r.data.domains.0@.len() == 0 && !r.data.domains.1,
            r.data.asns.0@.len() == 0 && !r.data.asns.1,
            r.data.countries.0@.len() == 0 && !r.data.countries.1,
    {
        HostDataStates { data: HostData::new() }
    }
}

} // verus!
