//! The resolution ledger: which remote addresses wait for a host lookup and which are
//! resolved, so that each address is looked up at most once.

use vstd::prelude::*;
use crate::address::IpAddress;
use crate::assoc::{
    assoc_map, lemma_assoc_domain, lemma_assoc_push, lemma_assoc_remove, lemma_assoc_update,
    lemma_assoc_value, unique_keys,
};
use crate::data_info::{DataInfo, spec_add_packet, spec_first_packet};
use crate::host::Host;
use crate::types::{Timestamp, TrafficDirection};

verus! {

/// What the ledger knows: traffic gathered for each address that waits for a lookup, and
/// the host of each resolved address.
pub struct LedgerModel {
    pub waiting: Map<IpAddress, DataInfo>,
    pub resolved: Map<IpAddress, Host>,
}

/// An address is in at most one of the two maps.
pub open spec fn ledger_ok(m: LedgerModel) -> bool {
    forall|a: IpAddress| !(#[trigger] m.waiting.contains_key(a) && m.resolved.contains_key(a))
}

/// What a packet asks of the resolution machinery.
#[derive(Clone, Copy, Debug, PartialEq, Eq, Structural)]
pub enum LookupStep {
    /// First packet for the address: a lookup must be started.
    Dispatch,
    /// A lookup is already under way; the packet was added to the waiting traffic.
    Pending,
    /// The address is resolved; the packet belongs to the host's traffic.
    Resolved,
}

/// The step a packet for `a` takes.
pub open spec fn spec_lookup_step(m: LedgerModel, a: IpAddress) -> LookupStep {
    if m.resolved.contains_key(a) {
        LookupStep::Resolved
    } else if m.waiting.contains_key(a) {
        LookupStep::Pending
    } else {
        LookupStep::Dispatch
    }
}

/// The ledger after a packet of `bytes` bytes for `a`.
pub open spec fn spec_register(
    m: LedgerModel,
    a: IpAddress,
    bytes: u128,
    dir: TrafficDirection,
    ts: Timestamp,
) -> LedgerModel {
    match spec_lookup_step(m, a) {
        LookupStep::Resolved => m,
        LookupStep::Pending => LedgerModel {
            waiting: m.waiting.insert(a, spec_add_packet(m.waiting[a], bytes, dir, ts)),
            resolved: m.resolved,
        },
        LookupStep::Dispatch => LedgerModel {
            waiting: m.waiting.insert(a, spec_first_packet(bytes, dir, ts)),
            resolved: m.resolved,
        },
    }
}

/// The ledger after the lookup of `a` found host `h`.
pub open spec fn spec_complete(m: LedgerModel, a: IpAddress, h: Host) -> LedgerModel {
    LedgerModel { waiting: m.waiting.remove(a), resolved: m.resolved.insert(a, h) }
}

/// Something that happens to the ledger.
pub enum LedgerEvent {
    /// A packet for an address: bytes, direction, capture time.
    Packet(IpAddress, u128, TrafficDirection, Timestamp),
    /// The lookup of an address ended with a host.
    Resolution(IpAddress, Host),
}

pub open spec fn spec_apply(m: LedgerModel, e: LedgerEvent) -> LedgerModel {
    match e {
        LedgerEvent::Packet(a, bytes, dir, ts) => spec_register(m, a, bytes, dir, ts),
        LedgerEvent::Resolution(a, h) => spec_complete(m, a, h),
    }
}

/// The ledger after the events, in order.
pub open spec fn ledger_after(m: LedgerModel, events: Seq<LedgerEvent>) -> LedgerModel
    decreases events.len(),
{
    if events.len() == 0 {
        m
    } else {
        spec_apply(ledger_after(m, events.drop_last()), events.last())
    }
}

/// How many lookups of `a` the events start.
pub open spec fn dispatches(m: LedgerModel, events: Seq<LedgerEvent>, a: IpAddress) -> nat
    decreases events.len(),
{
    if events.len() == 0 {
        0
    } else {
        let before = ledger_after(m, events.drop_last());
        dispatches(m, events.drop_last(), a) + match events.last() {
            LedgerEvent::Packet(b, _, _, _) => if b == a && spec_lookup_step(before, a)
                == LookupStep::Dispatch {
                1nat
            } else {
                0nat
            },
            _ => 0nat,
        }
    }
}

proof fn lemma_apply_keeps_known(m: LedgerModel, e: LedgerEvent, a: IpAddress)
    requires
        ledger_ok(m),
    ensures
        ledger_ok(spec_apply(m, e)),
        (m.waiting.contains_key(a) || m.resolved.contains_key(a)) ==> (spec_apply(
            m,
            e,
        ).waiting.contains_key(a) || spec_apply(m, e).resolved.contains_key(a)),
        m.resolved.contains_key(a) ==> spec_apply(m, e).resolved.contains_key(a),
{
    let n = spec_apply(m, e);
    assert forall|b: IpAddress| !(#[trigger] n.waiting.contains_key(b) && n.resolved.contains_key(b)) by {
        assert(!(m.waiting.contains_key(b) && m.resolved.contains_key(b)));
    }
}

proof fn lemma_after_keeps_known(m: LedgerModel, events: Seq<LedgerEvent>, a: IpAddress)
    requires
        ledger_ok(m),
    ensures
        ledger_ok(ledger_after(m, events)),
        (m.waiting.contains_key(a) || m.resolved.contains_key(a)) ==> (ledger_after(
            m,
            events,
        ).waiting.contains_key(a) || ledger_after(m, events).resolved.contains_key(a)),
        m.resolved.contains_key(a) ==> ledger_after(m, events).resolved.contains_key(a),
    decreases events.len(),
{
    if events.len() > 0 {
        lemma_after_keeps_known(m, events.drop_last(), a);
        lemma_apply_keeps_known(ledger_after(m, events.drop_last()), events.last(), a);
    }
}

/// Once an address is resolved it stays resolved, and never waits for a lookup again,
/// whatever packets and lookup results follow.
pub proof fn lemma_resolved_is_final(m: LedgerModel, events: Seq<LedgerEvent>, a: IpAddress)
    requires
        ledger_ok(m),
        m.resolved.contains_key(a),
    ensures
        ledger_after(m, events).resolved.contains_key(a),
        !ledger_after(m, events).waiting.contains_key(a),
{
    lemma_after_keeps_known(m, events, a);
}

proof fn lemma_known_no_dispatch(m: LedgerModel, events: Seq<LedgerEvent>, a: IpAddress)
    requires
        ledger_ok(m),
        m.waiting.contains_key(a) || m.resolved.contains_key(a),
    ensures
        dispatches(m, events, a) == 0,
    decreases events.len(),
{
    if events.len() > 0 {
        lemma_known_no_dispatch(m, events.drop_last(), a);
        lemma_after_keeps_known(m, events.drop_last(), a);
    }
}

/// Whatever the order of packets and lookup results, at most one lookup of an address is
/// started; none where the address already waits or is resolved.
pub proof fn lemma_at_most_one_dispatch(m: LedgerModel, events: Seq<LedgerEvent>, a: IpAddress)
    requires
        ledger_ok(m),
    ensures
        dispatches(m, events, a) <= 1,
        (m.waiting.contains_key(a) || m.resolved.contains_key(a)) ==> dispatches(m, events, a) == 0,
    decreases events.len(),
{
    if m.waiting.contains_key(a) || m.resolved.contains_key(a) {
        lemma_known_no_dispatch(m, events, a);
    } else if events.len() > 0 {
        let prefix = events.drop_last();
        lemma_at_most_one_dispatch(m, prefix, a);
        if dispatches(m, prefix, a) == 1 {
            // the first lookup left `a` known, so no later packet starts another
            lemma_dispatch_makes_known(m, prefix, a);
        }
    }
}

proof fn lemma_dispatch_makes_known(m: LedgerModel, events: Seq<LedgerEvent>, a: IpAddress)
    requires
        ledger_ok(m),
        dispatches(m, events, a) > 0,
    ensures
        ledger_after(m, events).waiting.contains_key(a) || ledger_after(m, events).resolved.contains_key(a),
    decreases events.len(),
{
    let prefix = events.drop_last();
    let before = ledger_after(m, prefix);
    lemma_after_keeps_known(m, prefix, a);
    if dispatches(m, prefix, a) > 0 {
        lemma_dispatch_makes_known(m, prefix, a);
    }
    lemma_apply_keeps_known(before, events.last(), a);
}

/// The resolution ledger shared by the capture and the lookups.
pub struct AddressesResolutionState {
    addresses_waiting_resolution: Vec<(IpAddress, DataInfo)>,
    addresses_resolved: Vec<(IpAddress, Host)>,
}

impl AddressesResolutionState {
    pub closed spec fn model(&self) -> LedgerModel {
        LedgerModel {
            waiting: assoc_map(self.addresses_waiting_resolution@),
            resolved: assoc_map(self.addresses_resolved@),
        }
    }

    pub closed spec fn wf(&self) -> bool {
        &&& unique_keys(self.addresses_waiting_resolution@)
        &&& unique_keys(self.addresses_resolved@)
        &&& ledger_ok(self.model())
    }

    /// An empty ledger.
    pub fn new() -> (r: AddressesResolutionState)
        ensures
            r.wf(),
            r.model().waiting == Map::<IpAddress, DataInfo>::empty(),
            r.model().resolved == Map::<IpAddress, Host>::empty(),
    {
        let r = AddressesResolutionState {
            addresses_waiting_resolution: Vec::new(),
            addresses_resolved: Vec::new(),
        };
        proof {
            assert(r.model().waiting =~= Map::<IpAddress, DataInfo>::empty());
            assert(r.model().resolved =~= Map::<IpAddress, Host>::empty());
        }
        r
    }

    fn waiting_index(&self, a: &IpAddress) -> (r: Option<usize>)
        ensures
            r.is_some() ==> r.unwrap() < self.addresses_waiting_resolution@.len()
                && self.addresses_waiting_resolution@[r.unwrap() as int].0 == *a,
            r.is_none() ==> forall|j: int|
                0 <= j < self.addresses_waiting_resolution@.len()
                    ==> self.addresses_waiting_resolution@[j].0 != *a,
    {
        let mut i: usize = 0;
        while i < self.addresses_waiting_resolution.len()
            invariant
                i <= self.addresses_waiting_resolution@.len(),
                forall|j: int| 0 <= j < i ==> self.addresses_waiting_resolution@[j].0 != *a,
            decreases self.addresses_waiting_resolution@.len() - i,
        {
            if self.addresses_waiting_resolution[i].0 == *a {
                return Some(i);
            }
            i = i + 1;
        }
        None
    }

    fn resolved_index(&self, a: &IpAddress) -> (r: Option<usize>)
        ensures
            r.is_some() ==> r.unwrap() < self.addresses_resolved@.len()
                && self.addresses_resolved@[r.unwrap() as int].0 == *a,
            r.is_none() ==> forall|j: int|
                0 <= j < self.addresses_resolved@.len() ==> self.addresses_resolved@[j].0 != *a,
    {
        let mut i: usize = 0;
        while i < self.addresses_resolved.len()
            invariant
                i <= self.addresses_resolved@.len(),
                forall|j: int| 0 <= j < i ==> self.addresses_resolved@[j].0 != *a,
            decreases self.addresses_resolved@.len() - i,
        {
            if self.addresses_resolved[i].0 == *a {
                return Some(i);
            }
            i = i + 1;
        }
        None
    }

    /// The host of a resolved address.
    pub fn resolved_host(&self, a: &IpAddress) -> (r: Option<Host>)
        requires
            self.wf(),
        ensures
            r.is_some() == self.model().resolved.contains_key(*a),
            r.is_some() ==> r.unwrap()@ == self.model().resolved[*a]@,
    {
        proof {
            lemma_assoc_domain(self.addresses_resolved@, *a);
        }
        match self.resolved_index(a) {
            Some(i) => {
                proof {
                    lemma_assoc_value(self.addresses_resolved@, i as int);
                }
                Some(self.addresses_resolved[i].1.duplicate())
            },
            None => None,
        }
    }

    /// Whether a lookup of the address is under way.
    pub fn is_waiting(&self, a: &IpAddress) -> (r: bool)
        ensures
            r == self.model().waiting.contains_key(*a),
    {
        proof {
            lemma_assoc_domain(self.addresses_waiting_resolution@, *a);
        }
        self.waiting_index(a).is_some()
    }

    /// Records a packet for the address whose host it belongs to, and says what the
    /// packet asks: a new lookup (the address now waits, with this packet's traffic), nothing
    /// (a lookup is under way and the traffic was added to what waits), or the resolved
    /// host, whose traffic the caller updates.
    pub fn register_packet(
        &mut self,
        a: IpAddress,
        bytes: u128,
        dir: TrafficDirection,
        ts: Timestamp,
    ) -> (r: (LookupStep, Option<Host>))
        requires
            old(self).wf(),
        ensures
            final(self).wf(),
            final(self).model() == spec_register(old(self).model(), a, bytes, dir, ts),
            r.0 == spec_lookup_step(old(self).model(), a),
            r.1.is_some() == (r.0 == LookupStep::Resolved),
            r.1.is_some() ==> r.1.unwrap()@ == old(self).model().resolved[a]@,
    {
        proof {
            lemma_assoc_domain(self.addresses_resolved@, a);
            lemma_assoc_domain(self.addresses_waiting_resolution@, a);
        }
        if let Some(h) = self.resolved_host(&a) {
            return (LookupStep::Resolved, Some(h));
        }
        let ghost before = self.addresses_waiting_resolution@;
        match self.waiting_index(&a) {
            Some(i) => {
                proof {
                    lemma_assoc_value(before, i as int);
                }
                self.addresses_waiting_resolution[i].1.add_packet(bytes, dir, ts);
                proof {
                    let after = self.addresses_waiting_resolution@;
                    assert(after =~= before.update(i as int, (a, after[i as int].1)));
                    lemma_assoc_update(before, i as int, after[i as int].1);
                    assert(unique_keys(after)) by {
                        assert forall|x: int, y: int| 0 <= x < y < after.len() implies after[x].0
                            != after[y].0 by {
                            assert(after[x].0 == before[x].0);
                            assert(after[y].0 == before[y].0);
                        }
                    }
                    assert(self.model().waiting =~= spec_register(old(self).model(), a, bytes, dir, ts).waiting);
                    assert(forall|b: IpAddress| #[trigger] self.model().waiting.contains_key(b)
                        ==> old(self).model().waiting.contains_key(b) || b == a);
                }
                (LookupStep::Pending, None)
            },
            None => {
                self.addresses_waiting_resolution.push(
                    (a, DataInfo::new_with_first_packet(bytes, dir, ts)),
                );
                proof {
                    let after = self.addresses_waiting_resolution@;
                    assert(after == before.push((a, spec_first_packet(bytes, dir, ts))));
                    lemma_assoc_push(before, (a, spec_first_packet(bytes, dir, ts)));
                    assert(unique_keys(after)) by {
                        assert forall|x: int, y: int| 0 <= x < y < after.len() implies after[x].0
                            != after[y].0 by {
                            if y == before.len() {
                                assert(after[x] == before[x]);
                            } else {
                                assert(after[x] == before[x]);
                                assert(after[y] == before[y]);
                            }
                        }
                    }
                    assert(forall|b: IpAddress| #[trigger] self.model().waiting.contains_key(b)
                        ==> old(self).model().waiting.contains_key(b) || b == a);
                }
                (LookupStep::Dispatch, None)
            },
        }
    }

    /// Records that the lookup of `a` found `host`: hands back the traffic that waited for
    /// it (none where nothing waited) and marks the address resolved.
    pub fn complete_resolution(&mut self, a: IpAddress, host: Host) -> (r: DataInfo)
        requires
            old(self).wf(),
        ensures
            final(self).wf(),
            final(self).model().waiting == old(self).model().waiting.remove(a),
            final(self).model().resolved.dom() == old(self).model().resolved.dom().insert(a),
            final(self).model().resolved.remove(a) == old(self).model().resolved.remove(a),
            final(self).model().resolved[a]@ == host@,
            final(self).model() == spec_complete(old(self).model(), a, final(self).model().resolved[a]),
            r == if old(self).model().waiting.contains_key(a) {
                old(self).model().waiting[a]
            } else {
                DataInfo::spec_zero()
            },
    {
        let ghost w0 = self.addresses_waiting_resolution@;
        let ghost r0 = self.addresses_resolved@;
        proof {
            lemma_assoc_domain(w0, a);
            lemma_assoc_domain(r0, a);
        }
        let other_data = match self.waiting_index(&a) {
            Some(i) => {
                proof {
                    lemma_assoc_value(w0, i as int);
                    lemma_assoc_remove(w0, i as int);
                }
                let e = self.addresses_waiting_resolution.remove(i);
                e.1
            },
            None => {
                proof {
                    assert(assoc_map(w0).remove(a) =~= assoc_map(w0));
                }
                DataInfo::default()
            },
        };
        let ghost host_view = host@;
        match self.resolved_index(&a) {
            Some(j) => {
                self.addresses_resolved.set(j, (a, host));
                proof {
                    lemma_assoc_update(r0, j as int, self.addresses_resolved@[j as int].1);
                    assert(self.addresses_resolved@ =~= r0.update(j as int, (a, self.addresses_resolved@[j as int].1)));
                    let after = self.addresses_resolved@;
                    assert(unique_keys(after)) by {
                        assert forall|x: int, y: int| 0 <= x < y < after.len() implies after[x].0
                            != after[y].0 by {
                            assert(after[x].0 == r0[x].0);
                            assert(after[y].0 == r0[y].0);
                        }
                    }
                }
            },
            None => {
                self.addresses_resolved.push((a, host));
                proof {
                    let after = self.addresses_resolved@;
                    lemma_assoc_push(r0, after.last());
                    assert(after == r0.push(after.last()));
                    assert(unique_keys(after)) by {
                        assert forall|x: int, y: int| 0 <= x < y < after.len() implies after[x].0
                            != after[y].0 by {
                            assert(after[x] == r0[x]);
                            if y < r0.len() {
                                assert(after[y] == r0[y]);
                            }
                        }
                    }
                }
            },
        }
        proof {
            assert(self.model().resolved.dom() =~= old(self).model().resolved.dom().insert(a));
            assert(self.model().resolved.remove(a) =~= old(self).model().resolved.remove(a));
            assert(self.model().resolved =~= old(self).model().resolved.insert(a, self.model().resolved[a]));
            assert forall|b: IpAddress| !(#[trigger] self.model().waiting.contains_key(b)
                && self.model().resolved.contains_key(b)) by {
                assert(!(old(self).model().waiting.contains_key(b) && old(self).model().resolved.contains_key(b)));
            }
        }
        other_data
    }
}

} // verus!
