//! Small histograms: a count for each ICMP message type or ARP operation seen in a flow.

use vstd::prelude::*;
use crate::types::{ArpType, IcmpType};

verus! {

/// `a`, or `usize::MAX` where it does not fit.
pub open spec fn sat_usize(a: int) -> usize {
    if a > usize::MAX {
        usize::MAX
    } else {
        a as usize
    }
}

/// Position of the first entry for `k`, from position `i` on; -1 where there is none.
pub open spec fn count_index<K>(h: Seq<(K, usize)>, k: K, i: int) -> int
    decreases h.len() - i,
{
    if i < 0 || i >= h.len() {
        -1
    } else if h[i].0 == k {
        i
    } else {
        count_index(h, k, i + 1)
    }
}

/// The histogram with `c` more counted for `k`: added to its entry, or a new last entry.
pub open spec fn add_count<K>(h: Seq<(K, usize)>, k: K, c: usize) -> Seq<(K, usize)> {
    let i = count_index(h, k, 0);
    if i >= 0 {
        h.update(i, (k, sat_usize(h[i].1 + c)))
    } else {
        h.push((k, c))
    }
}

/// The histogram with every entry of `other` added, in order.
pub open spec fn merge_counts<K>(h: Seq<(K, usize)>, other: Seq<(K, usize)>) -> Seq<(K, usize)>
    decreases other.len(),
{
    if other.len() == 0 {
        h
    } else {
        add_count(merge_counts(h, other.drop_last()), other.last().0, other.last().1)
    }
}

proof fn lemma_count_index_range<K>(h: Seq<(K, usize)>, k: K, i: int)
    requires
        0 <= i,
    ensures
        count_index(h, k, i) == -1 || (i <= count_index(h, k, i) < h.len() && h[count_index(
            h,
            k,
            i,
        )].0 == k),
    decreases h.len() - i,
{
    if i < h.len() && h[i].0 != k {
        lemma_count_index_range(h, k, i + 1);
    }
}

/// Counts `c` more ICMP messages of type `k`.
pub fn add_icmp_count(h: &mut Vec<(IcmpType, usize)>, k: IcmpType, c: usize)
    ensures
        final(h)@ == add_count(old(h)@, k, c),
{
    let mut i: usize = 0;
    while i < h.len()
        invariant
            i <= h@.len(),
            h@ == old(h)@,
            count_index(h@, k, 0) == count_index(h@, k, i as int),
        decreases h@.len() - i,
    {
        if h[i].0 == k {
            proof {
                lemma_count_index_range(h@, k, 0);
            }
            let n = h[i].1;
            let v = if n > usize::MAX - c { usize::MAX } else { n + c };
            h.set(i, (k, v));
            return;
        }
        i = i + 1;
    }
    h.push((k, c));
}

/// Counts `c` more ARP packets of operation `k`.
pub fn add_arp_count(h: &mut Vec<(ArpType, usize)>, k: ArpType, c: usize)
    ensures
        final(h)@ == add_count(old(h)@, k, c),
{
    let mut i: usize = 0;
    while i < h.len()
        invariant
            i <= h@.len(),
            h@ == old(h)@,
            count_index(h@, k, 0) == count_index(h@, k, i as int),
        decreases h@.len() - i,
    {
        if h[i].0 == k {
            proof {
                lemma_count_index_range(h@, k, 0);
            }
            let n = h[i].1;
            let v = if n > usize::MAX - c { usize::MAX } else { n + c };
            h.set(i, (k, v));
            return;
        }
        i = i + 1;
    }
    h.push((k, c));
}

/// Adds every ICMP count of `other`.
pub fn merge_icmp_counts(h: &mut Vec<(IcmpType, usize)>, other: &Vec<(IcmpType, usize)>)
    ensures
        final(h)@ == merge_counts(old(h)@, other@),
{
    let mut i: usize = 0;
    while i < other.len()
        invariant
            i <= other@.len(),
            h@ == merge_counts(old(h)@, other@.take(i as int)),
        decreases other@.len() - i,
    {
        proof {
            assert(other@.take(i as int + 1).drop_last() =~= other@.take(i as int));
        }
        add_icmp_count(h, other[i].0, other[i].1);
        i = i + 1;
    }
    proof {
        assert(other@.take(i as int) =~= other@);
    }
}

/// Adds every ARP count of `other`.
pub fn merge_arp_counts(h: &mut Vec<(ArpType, usize)>, other: &Vec<(ArpType, usize)>)
    ensures
        final(h)@ == merge_counts(old(h)@, other@),
{
    let mut i: usize = 0;
    while i < other.len()
        invariant
            i <= other@.len(),
            h@ == merge_counts(old(h)@, other@.take(i as int)),
        decreases other@.len() - i,
    {
        proof {
            assert(other@.take(i as int + 1).drop_last() =~= other@.take(i as int));
        }
        add_arp_count(h, other[i].0, other[i].1);
        i = i + 1;
    }
    proof {
        assert(other@.take(i as int) =~= other@);
    }
}

} // verus!
