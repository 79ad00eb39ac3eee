//! Directional packet and byte counters, and their human-readable display.

use vstd::prelude::*;
use vstd::string::StringExecFns;
use crate::text::{append_decimal, dec_text, digit_str, hex_char};
use core::cmp::Ordering;
use crate::types::{Timestamp, TrafficDirection};

verus! {

/// `a + b`, or `u128::MAX` where the sum does not fit.
pub open spec fn sat_add(a: u128, b: u128) -> u128 {
    if a + b > u128::MAX {
        u128::MAX
    } else {
        (a + b) as u128
    }
}

/// `a * 8`, or `u128::MAX` where the product does not fit.
pub open spec fn sat_bits(a: u128) -> u128 {
    if a * 8 > u128::MAX {
        u128::MAX
    } else {
        (a * 8) as u128
    }
}

/// The number of bits in `bytes` bytes, saturating.
fn bits_of(bytes: u128) -> (r: u128)
    ensures
        r == sat_bits(bytes),
{
    if bytes > u128::MAX / 8 {
        u128::MAX
    } else {
        bytes * 8
    }
}

/// The unit in which traffic is counted.
#[derive(Clone, Copy, Debug, PartialEq, Eq, Hash, Structural)]
pub enum DataRepr {
    Packets,
    Bytes,
    Bits,
}

/// Incoming and outgoing packets and bytes, with the capture time of the latest packet.
///
/// Counters saturate at `u128::MAX` instead of wrapping.
#[derive(Clone, Copy, Debug, PartialEq, Eq, Structural)]
pub struct DataInfo {
    pub incoming_packets: u128,
    pub outgoing_packets: u128,
    pub incoming_bytes: u128,
    pub outgoing_bytes: u128,
    pub final_timestamp: Timestamp,
}

/// `d` after one more packet of `bytes` bytes in direction `dir`, captured at `ts`.
pub open spec fn spec_add_packet(d: DataInfo, bytes: u128, dir: TrafficDirection, ts: Timestamp) -> DataInfo {
    if dir == TrafficDirection::Outgoing {
        DataInfo {
            outgoing_packets: sat_add(d.outgoing_packets, 1),
            outgoing_bytes: sat_add(d.outgoing_bytes, bytes),
            final_timestamp: ts,
            ..d
        }
    } else {
        DataInfo {
            incoming_packets: sat_add(d.incoming_packets, 1),
            incoming_bytes: sat_add(d.incoming_bytes, bytes),
            final_timestamp: ts,
            ..d
        }
    }
}

/// Counters of one packet.
pub open spec fn spec_first_packet(bytes: u128, dir: TrafficDirection, ts: Timestamp) -> DataInfo {
    spec_add_packet(DataInfo {
        incoming_packets: 0,
        outgoing_packets: 0,
        incoming_bytes: 0,
        outgoing_bytes: 0,
        final_timestamp: ts,
    }, bytes, dir, ts)
}

pub open spec fn spec_incoming(d: DataInfo, repr: DataRepr) -> u128 {
    match repr {
        DataRepr::Packets => d.incoming_packets,
        DataRepr::Bytes => d.incoming_bytes,
        DataRepr::Bits => sat_bits(d.incoming_bytes),
    }
}

pub open spec fn spec_outgoing(d: DataInfo, repr: DataRepr) -> u128 {
    match repr {
        DataRepr::Packets => d.outgoing_packets,
        DataRepr::Bytes => d.outgoing_bytes,
        DataRepr::Bits => sat_bits(d.outgoing_bytes),
    }
}

impl DataInfo {
    /// No traffic, last updated at `ts`.
    pub fn empty(ts: Timestamp) -> (r: DataInfo)
        ensures
            r == (DataInfo {
                incoming_packets: 0,
                outgoing_packets: 0,
                incoming_bytes: 0,
                outgoing_bytes: 0,
                final_timestamp: ts,
            }),
    {
        DataInfo {
            incoming_packets: 0,
            outgoing_packets: 0,
            incoming_bytes: 0,
            outgoing_bytes: 0,
            final_timestamp: ts,
        }
    }

    /// Counters with the given values, last updated at `ts`.
    pub fn from_counts(
        incoming_packets: u128,
        outgoing_packets: u128,
        incoming_bytes: u128,
        outgoing_bytes: u128,
        ts: Timestamp,
    ) -> (r: DataInfo)
        ensures
            r == (DataInfo {
                incoming_packets,
                outgoing_packets,
                incoming_bytes,
                outgoing_bytes,
                final_timestamp: ts,
            }),
    {
        DataInfo { incoming_packets, outgoing_packets, incoming_bytes, outgoing_bytes, final_timestamp: ts }
    }

    pub fn incoming_data(&self, data_repr: DataRepr) -> (r: u128)
        ensures
            r == spec_incoming(*self, data_repr),
    {
        match data_repr {
            DataRepr::Packets => self.incoming_packets,
            DataRepr::Bytes => self.incoming_bytes,
            DataRepr::Bits => bits_of(self.incoming_bytes),
        }
    }

    pub fn outgoing_data(&self, data_repr: DataRepr) -> (r: u128)
        ensures
            r == spec_outgoing(*self, data_repr),
    {
        match data_repr {
            DataRepr::Packets => self.outgoing_packets,
            DataRepr::Bytes => self.outgoing_bytes,
            DataRepr::Bits => bits_of(self.outgoing_bytes),
        }
    }

    /// Incoming plus outgoing traffic in the given unit.
    pub fn tot_data(&self, data_repr: DataRepr) -> (r: u128)
        ensures
            r == sat_add(spec_incoming(*self, data_repr), spec_outgoing(*self, data_repr)),
    {
        self.incoming_data(data_repr).saturating_add(self.outgoing_data(data_repr))
    }

    /// Counts one more packet of `bytes` bytes in the given direction.
    pub fn add_packet(&mut self, bytes: u128, traffic_direction: TrafficDirection, ts: Timestamp)
        ensures
            *final(self) == spec_add_packet(*old(self), bytes, traffic_direction, ts),
    {
        if traffic_direction == TrafficDirection::Outgoing {
            self.outgoing_packets = self.outgoing_packets.saturating_add(1);
            self.outgoing_bytes = self.outgoing_bytes.saturating_add(bytes);
        } else {
            self.incoming_packets = self.incoming_packets.saturating_add(1);
            self.incoming_bytes = self.incoming_bytes.saturating_add(bytes);
        }
        self.final_timestamp = ts;
    }

    /// Counts `packets` more packets of `bytes` bytes in all, in the given direction.
    pub fn add_packets(&mut self, packets: u128, bytes: u128, traffic_direction: TrafficDirection)
        ensures
            traffic_direction == TrafficDirection::Outgoing ==> *final(self) == (DataInfo {
                outgoing_packets: sat_add(old(self).outgoing_packets, packets),
                outgoing_bytes: sat_add(old(self).outgoing_bytes, bytes),
                ..*old(self)
            }),
            traffic_direction == TrafficDirection::Incoming ==> *final(self) == (DataInfo {
                incoming_packets: sat_add(old(self).incoming_packets, packets),
                incoming_bytes: sat_add(old(self).incoming_bytes, bytes),
                ..*old(self)
            }),
    {
        if traffic_direction == TrafficDirection::Outgoing {
            self.outgoing_packets = self.outgoing_packets.saturating_add(packets);
            self.outgoing_bytes = self.outgoing_bytes.saturating_add(bytes);
        } else {
            self.incoming_packets = self.incoming_packets.saturating_add(packets);
            self.incoming_bytes = self.incoming_bytes.saturating_add(bytes);
        }
    }

    /// Counters of a first packet.
    pub fn new_with_first_packet(bytes: u128, traffic_direction: TrafficDirection, ts: Timestamp) -> (r:
        DataInfo)
        ensures
            r == spec_first_packet(bytes, traffic_direction, ts),
    {
        let mut d = DataInfo::empty(ts);
        d.add_packet(bytes, traffic_direction, ts);
        d
    }

    /// Adds the counters of `rhs` and takes its last-update time.
    pub fn refresh(&mut self, rhs: DataInfo)
        ensures
            *final(self) == (DataInfo {
                incoming_packets: sat_add(old(self).incoming_packets, rhs.incoming_packets),
                outgoing_packets: sat_add(old(self).outgoing_packets, rhs.outgoing_packets),
                incoming_bytes: sat_add(old(self).incoming_bytes, rhs.incoming_bytes),
                outgoing_bytes: sat_add(old(self).outgoing_bytes, rhs.outgoing_bytes),
                final_timestamp: rhs.final_timestamp,
            }),
    {
        self.incoming_packets = self.incoming_packets.saturating_add(rhs.incoming_packets);
        self.outgoing_packets = self.outgoing_packets.saturating_add(rhs.outgoing_packets);
        self.incoming_bytes = self.incoming_bytes.saturating_add(rhs.incoming_bytes);
        self.outgoing_bytes = self.outgoing_bytes.saturating_add(rhs.outgoing_bytes);
        self.final_timestamp = rhs.final_timestamp;
    }
}

/// Order in which traffic entries are listed.
#[derive(Clone, Copy, Debug, PartialEq, Eq, Structural)]
pub enum SortType {
    /// Least traffic first.
    Ascending,
    /// Most traffic first.
    Descending,
    /// Most recently updated first.
    Neutral,
}

/// How `a` compares with `b`.
pub open spec fn spec_cmp(a: int, b: int) -> Ordering {
    if a < b {
        Ordering::Less
    } else if a == b {
        Ordering::Equal
    } else {
        Ordering::Greater
    }
}

/// How capture time `a` compares with `b`: by seconds, then microseconds.
pub open spec fn spec_cmp_time(a: Timestamp, b: Timestamp) -> Ordering {
    if a.secs == b.secs {
        spec_cmp(a.usecs as int, b.usecs as int)
    } else {
        spec_cmp(a.secs as int, b.secs as int)
    }
}

fn cmp_u128(a: u128, b: u128) -> (r: Ordering)
    ensures
        r == spec_cmp(a as int, b as int),
{
    if a < b {
        Ordering::Less
    } else if a == b {
        Ordering::Equal
    } else {
        Ordering::Greater
    }
}

fn cmp_time(a: Timestamp, b: Timestamp) -> (r: Ordering)
    ensures
        r == spec_cmp_time(a, b),
{
    if a.secs < b.secs {
        Ordering::Less
    } else if a.secs > b.secs {
        Ordering::Greater
    } else if a.usecs < b.usecs {
        Ordering::Less
    } else if a.usecs == b.usecs {
        Ordering::Equal
    } else {
        Ordering::Greater
    }
}

impl DataInfo {
    /// Where `self` goes relative to `other` in a listing sorted by `sort_type`, with
    /// totals in the given unit.
    pub fn compare(&self, other: &DataInfo, sort_type: SortType, data_repr: DataRepr) -> (r: Ordering)
        ensures
            r == match sort_type {
                SortType::Ascending => spec_cmp(
                    sat_add(spec_incoming(*self, data_repr), spec_outgoing(*self, data_repr)) as int,
                    sat_add(spec_incoming(*other, data_repr), spec_outgoing(*other, data_repr)) as int,
                ),
                SortType::Descending => spec_cmp(
                    sat_add(spec_incoming(*other, data_repr), spec_outgoing(*other, data_repr)) as int,
                    sat_add(spec_incoming(*self, data_repr), spec_outgoing(*self, data_repr)) as int,
                ),
                SortType::Neutral => spec_cmp_time(other.final_timestamp, self.final_timestamp),
            },
    {
        match sort_type {
            SortType::Ascending => cmp_u128(self.tot_data(data_repr), other.tot_data(data_repr)),
            SortType::Descending => cmp_u128(other.tot_data(data_repr), self.tot_data(data_repr)),
            SortType::Neutral => cmp_time(other.final_timestamp, self.final_timestamp),
        }
    }
}

impl Default for DataInfo {
    fn default() -> (r: DataInfo)
        ensures
            r == DataInfo::spec_zero(),
    {
        DataInfo::empty(Timestamp { secs: 0, usecs: 0 })
    }
}

impl DataInfo {
    pub open spec fn spec_zero() -> DataInfo {
        DataInfo {
            incoming_packets: 0,
            outgoing_packets: 0,
            incoming_bytes: 0,
            outgoing_bytes: 0,
            final_timestamp: Timestamp { secs: 0, usecs: 0 },
        }
    }
}

/// A decimal multiple of a byte or bit.
#[derive(Clone, Copy, Debug, PartialEq, Eq, Structural)]
pub enum ByteMultiple {
    B,
    KB,
    MB,
    GB,
    TB,
    PB,
}

pub open spec fn spec_multiplier(m: ByteMultiple) -> u128 {
    match m {
        ByteMultiple::B => 1,
        ByteMultiple::KB => 1_000,
        ByteMultiple::MB => 1_000_000,
        ByteMultiple::GB => 1_000_000_000,
        ByteMultiple::TB => 1_000_000_000_000,
        ByteMultiple::PB => 1_000_000_000_000_000,
    }
}

/// The largest multiple that does not exceed the amount (bytes below 1000 stay bytes).
pub open spec fn spec_multiple_of(amount: u128) -> ByteMultiple {
    if amount < 1_000 {
        ByteMultiple::B
    } else if amount < 1_000_000 {
        ByteMultiple::KB
    } else if amount < 1_000_000_000 {
        ByteMultiple::MB
    } else if amount < 1_000_000_000_000 {
        ByteMultiple::GB
    } else if amount < 1_000_000_000_000_000 {
        ByteMultiple::TB
    } else {
        ByteMultiple::PB
    }
}

/// The prefix letter of a multiple ("" for plain bytes).
pub open spec fn spec_prefix(m: ByteMultiple) -> Seq<char> {
    match m {
        ByteMultiple::B => seq![],
        ByteMultiple::KB => seq!['K'],
        ByteMultiple::MB => seq!['M'],
        ByteMultiple::GB => seq!['G'],
        ByteMultiple::TB => seq!['T'],
        ByteMultiple::PB => seq!['P'],
    }
}

/// The unit text of a multiple: prefix then `B` for bytes, `b` for bits.
pub open spec fn spec_unit(m: ByteMultiple, repr: DataRepr) -> Seq<char> {
    match repr {
        DataRepr::Packets => seq![],
        DataRepr::Bytes => spec_prefix(m) + seq!['B'],
        DataRepr::Bits => spec_prefix(m) + seq!['b'],
    }
}

/// The number shown for `amount` in multiple `m`, truncated to three significant digits:
/// `1.50`, `12.3`, `999`; plain bytes in full. Below petabytes the whole part is shown as
/// at most 999.
pub open spec fn spec_scaled_number(amount: u128, m: ByteMultiple) -> Seq<char> {
    let mult = spec_multiplier(m) as nat;
    let whole = amount as nat / mult;
    let rem = amount as nat % mult;
    if m == ByteMultiple::B {
        dec_text(amount as nat)
    } else if whole >= 100 {
        dec_text(if m != ByteMultiple::PB && whole > 999 { 999 } else { whole })
    } else if whole >= 10 {
        dec_text(whole) + seq!['.', hex_char(rem * 10 / mult)]
    } else {
        let h = rem * 100 / mult;
        dec_text(whole) + seq!['.', hex_char(h / 10), hex_char(h % 10)]
    }
}

/// The text shown for an amount of traffic.
pub open spec fn spec_formatted(repr: DataRepr, amount: u128) -> Seq<char> {
    if repr == DataRepr::Packets {
        dec_text(amount as nat)
    } else {
        let m = spec_multiple_of(amount);
        spec_scaled_number(amount, m) + seq![' '] + spec_unit(m, repr)
    }
}

impl ByteMultiple {
    pub fn multiplier(self) -> (r: u128)
        ensures
            r == spec_multiplier(self),
    {
        match self {
            ByteMultiple::B => 1,
            ByteMultiple::KB => 1_000,
            ByteMultiple::MB => 1_000_000,
            ByteMultiple::GB => 1_000_000_000,
            ByteMultiple::TB => 1_000_000_000_000,
            ByteMultiple::PB => 1_000_000_000_000_000,
        }
    }

    pub fn from_amount(bytes: u128) -> (r: ByteMultiple)
        ensures
            r == spec_multiple_of(bytes),
    {
        if bytes < 1_000 {
            ByteMultiple::B
        } else if bytes < 1_000_000 {
            ByteMultiple::KB
        } else if bytes < 1_000_000_000 {
            ByteMultiple::MB
        } else if bytes < 1_000_000_000_000 {
            ByteMultiple::GB
        } else if bytes < 1_000_000_000_000_000 {
            ByteMultiple::TB
        } else {
            ByteMultiple::PB
        }
    }

    /// The prefix letter ("" for plain bytes).
    pub fn get_char(self) -> (r: String)
        ensures
            r@ == spec_prefix(self),
    {
        let s = match self {
            ByteMultiple::B => "",
            ByteMultiple::KB => "K",
            ByteMultiple::MB => "M",
            ByteMultiple::GB => "G",
            ByteMultiple::TB => "T",
            ByteMultiple::PB => "P",
        };
        proof {
            reveal_strlit("");
            reveal_strlit("K");
            reveal_strlit("M");
            reveal_strlit("G");
            reveal_strlit("T");
            reveal_strlit("P");
        }
        String::from_str(s)
    }

    /// The multiple named by a prefix letter, in either case; plain bytes for any other.
    pub fn from_char(ch: char) -> (r: ByteMultiple)
        ensures
            (ch == 'K' || ch == 'k') ==> r == ByteMultiple::KB,
            (ch == 'M' || ch == 'm') ==> r == ByteMultiple::MB,
            (ch == 'G' || ch == 'g') ==> r == ByteMultiple::GB,
            (ch == 'T' || ch == 't') ==> r == ByteMultiple::TB,
            (ch == 'P' || ch == 'p') ==> r == ByteMultiple::PB,
            !(ch == 'K' || ch == 'k' || ch == 'M' || ch == 'm' || ch == 'G' || ch == 'g' || ch
                == 'T' || ch == 't' || ch == 'P' || ch == 'p') ==> r == ByteMultiple::B,
    {
        match ch {
            'K' | 'k' => ByteMultiple::KB,
            'M' | 'm' => ByteMultiple::MB,
            'G' | 'g' => ByteMultiple::GB,
            'T' | 't' => ByteMultiple::TB,
            'P' | 'p' => ByteMultiple::PB,
            _ => ByteMultiple::B,
        }
    }

    /// The unit text: prefix then `B` for bytes or `b` for bits; empty for packets.
    pub fn pretty_print(self, repr: DataRepr) -> (r: String)
        ensures
            r@ == spec_unit(self, repr),
    {
        let mut s = String::new();
        if repr != DataRepr::Packets {
            s = self.get_char();
            if repr == DataRepr::Bytes {
                proof {
                    reveal_strlit("B");
                }
                s.append("B");
            } else {
                proof {
                    reveal_strlit("b");
                }
                s.append("b");
            }
        }
        s
    }
}

impl DataRepr {
    /// An amount of traffic in text: packets as a plain number; bytes and bits with the
    /// largest fitting decimal multiple and three significant digits, e.g. `999 KB` for
    /// 999 999 bytes and `1.50 GB` for 1 500 000 000 bytes.
    pub fn formatted_string(self, amount: u128) -> (r: String)
        ensures
            r@ == spec_formatted(self, amount),
    {
        let mut s = String::new();
        if self == DataRepr::Packets {
            append_decimal(&mut s, amount);
            return s;
        }
        let m = ByteMultiple::from_amount(amount);
        let mult = m.multiplier();
        let whole = amount / mult;
        let rem = amount % mult;
        proof {
            reveal_strlit(".");
            reveal_strlit(" ");
        }
        if m == ByteMultiple::B {
            append_decimal(&mut s, amount);
        } else if whole >= 100 {
            let shown = if m != ByteMultiple::PB && whole > 999 { 999 } else { whole };
            append_decimal(&mut s, shown);
        } else if whole >= 10 {
            append_decimal(&mut s, whole);
            s.append(".");
            assert((rem as int) * 10 / (mult as int) < 10) by (nonlinear_arith)
                requires
                    rem < mult,
                    mult > 0,
            ;
            s.append(digit_str((rem * 10 / mult) as u8));
        } else {
            append_decimal(&mut s, whole);
            s.append(".");
            let h = rem * 100 / mult;
            assert((rem as int) * 100 / (mult as int) < 100) by (nonlinear_arith)
                requires
                    rem < mult,
                    mult > 0,
            ;
            s.append(digit_str((h / 10) as u8));
            s.append(digit_str((h % 10) as u8));
        }
        s.append(" ");
        let unit = m.pretty_print(self);
        s.append(unit.as_str());
        proof {
            assert(s@ =~= spec_formatted(self, amount));
        }
        s
    }
}

} // verus!
