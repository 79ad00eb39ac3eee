//! IP addresses as plain integers, and the interface addresses of a capture device.

use vstd::prelude::*;

verus! {

/// An IP address: the 32 or 128 bits of the address read in network (big-endian) order.
#[derive(Clone, Copy, Debug, PartialEq, Eq, Hash, Structural)]
pub enum IpAddress {
    V4(u32),
    V6(u128),
}

/// One address of a capture interface, with its netmask and broadcast address when known.
#[derive(Clone, Copy, Debug, PartialEq, Eq, Structural)]
pub struct InterfaceAddress {
    pub addr: IpAddress,
    pub netmask: Option<IpAddress>,
    pub broadcast_addr: Option<IpAddress>,
}

/// The unsigned number that a big-endian byte sequence denotes.
pub open spec fn be_value(b: Seq<u8>) -> nat
    decreases b.len(),
{
    if b.len() == 0 {
        0
    } else {
        be_value(b.drop_last()) * 256 + b.last() as nat
    }
}

/// 256 to the power `n`.
pub open spec fn pow256(n: nat) -> nat
    decreases n,
{
    if n == 0 {
        1
    } else {
        256 * pow256((n - 1) as nat)
    }
}

proof fn lemma_be_value_bound(b: Seq<u8>)
    ensures
        be_value(b) < pow256(b.len()),
    decreases b.len(),
{
    if b.len() > 0 {
        lemma_be_value_bound(b.drop_last());
        let p = pow256((b.len() - 1) as nat);
        let v = be_value(b.drop_last());
        let l = b.last() as nat;
        assert(v * 256 + l < 256 * p) by (nonlinear_arith)
            requires
                v < p,
                l < 256,
        ;
    }
}

pub open spec fn spec_is_loopback(ip: IpAddress) -> bool {
    match ip {
        IpAddress::V4(a) => 0x7f00_0000 <= a <= 0x7fff_ffff,
        IpAddress::V6(a) => a == 1,
    }
}

pub open spec fn spec_is_multicast(ip: IpAddress) -> bool {
    match ip {
        IpAddress::V4(a) => 0xe000_0000 <= a <= 0xefff_ffff,
        IpAddress::V6(a) => a >= 0xff00_0000_0000_0000_0000_0000_0000_0000,
    }
}

pub open spec fn spec_is_unspecified(ip: IpAddress) -> bool {
    match ip {
        IpAddress::V4(a) => a == 0,
        IpAddress::V6(a) => a == 0,
    }
}

/// IPv4 169.254.0.0/16, or IPv6 unicast link-local fe80::/10.
pub open spec fn spec_is_link_local(ip: IpAddress) -> bool {
    match ip {
        IpAddress::V4(a) => 0xa9fe_0000 <= a <= 0xa9fe_ffff,
        IpAddress::V6(a) => 0xfe80_0000_0000_0000_0000_0000_0000_0000 <= a
            <= 0xfebf_ffff_ffff_ffff_ffff_ffff_ffff_ffff,
    }
}

/// The IPv4 limited broadcast address 255.255.255.255.
pub open spec fn limited_broadcast() -> IpAddress {
    IpAddress::V4(0xffff_ffff)
}

impl IpAddress {
    /// The IPv4 address with the four given octets, most significant first.
    pub fn from_v4_octets(o: [u8; 4]) -> (r: IpAddress)
        ensures
            r == IpAddress::V4(be_value(o@) as u32),
    {
        let a = ((o[0] as u32) * 0x100_0000) + ((o[1] as u32) * 0x1_0000) + ((o[2] as u32) * 0x100)
            + (o[3] as u32);
        proof {
            assert(o@.drop_last().drop_last().drop_last().drop_last() =~= Seq::<u8>::empty());
            assert(be_value(o@) == ((o[0] as nat * 256 + o[1] as nat) * 256 + o[2] as nat) * 256
                + o[3] as nat) by {
                assert(o@.drop_last().last() == o[2]);
                assert(o@.drop_last().drop_last().last() == o[1]);
                assert(o@.drop_last().drop_last().drop_last().last() == o[0]);
                reveal_with_fuel(be_value, 5);
            }
        }
        IpAddress::V4(a)
    }

    /// Reads an address from the bytes of a protocol address field: exactly 4 bytes give
    /// an IPv4 address, exactly 16 bytes an IPv6 one, and any other length nothing.
    pub fn from_bytes(b: &[u8]) -> (r: Option<IpAddress>)
        ensures
            b@.len() == 4 ==> r == Some(IpAddress::V4(be_value(b@) as u32)),
            b@.len() == 16 ==> r == Some(IpAddress::V6(be_value(b@) as u128)),
            b@.len() != 4 && b@.len() != 16 ==> r.is_none(),
    {
        if b.len() != 4 && b.len() != 16 {
            return None;
        }
        let mut acc: u128 = 0;
        let mut i: usize = 0;
        proof {
            assert(b@.take(0) =~= Seq::<u8>::empty());
            reveal_with_fuel(pow256, 17);
            assert(pow256(16) == 0x1_0000_0000_0000_0000_0000_0000_0000_0000);
        }
        while i < b.len()
            invariant
                i <= b@.len() <= 16,
                acc as nat == be_value(b@.take(i as int)),
                pow256(16) == 0x1_0000_0000_0000_0000_0000_0000_0000_0000,
            decreases b@.len() - i,
        {
            proof {
                lemma_be_value_bound(b@.take(i as int + 1));
                lemma_pow256_mono((i + 1) as nat, 16);
                assert(b@.take(i as int + 1).drop_last() =~= b@.take(i as int));
            }
            acc = acc * 256 + (b[i] as u128);
            i = i + 1;
        }
        proof {
            assert(b@.take(i as int) =~= b@);
        }
        if b.len() == 4 {
            proof {
                lemma_be_value_bound(b@);
                reveal_with_fuel(pow256, 5);
                assert(pow256(4) == 0x1_0000_0000);
            }
            Some(IpAddress::V4(acc as u32))
        } else {
            Some(IpAddress::V6(acc))
        }
    }

    pub fn is_loopback(&self) -> (r: bool)
        ensures
            r == spec_is_loopback(*self),
    {
        match *self {
            IpAddress::V4(a) => 0x7f00_0000 <= a && a <= 0x7fff_ffff,
            IpAddress::V6(a) => a == 1,
        }
    }

    pub fn is_multicast(&self) -> (r: bool)
        ensures
            r == spec_is_multicast(*self),
    {
        match *self {
            IpAddress::V4(a) => 0xe000_0000 <= a && a <= 0xefff_ffff,
            IpAddress::V6(a) => a >= 0xff00_0000_0000_0000_0000_0000_0000_0000,
        }
    }

    pub fn is_unspecified(&self) -> (r: bool)
        ensures
            r == spec_is_unspecified(*self),
    {
        match *self {
            IpAddress::V4(a) => a == 0,
            IpAddress::V6(a) => a == 0,
        }
    }

    pub fn is_link_local(&self) -> (r: bool)
        ensures
            r == spec_is_link_local(*self),
    {
        match *self {
            IpAddress::V4(a) => 0xa9fe_0000 <= a && a <= 0xa9fe_ffff,
            IpAddress::V6(a) => 0xfe80_0000_0000_0000_0000_0000_0000_0000 <= a && a
                <= 0xfebf_ffff_ffff_ffff_ffff_ffff_ffff_ffff,
        }
    }
}

proof fn lemma_pow256_mono(a: nat, b: nat)
    requires
        a <= b,
    ensures
        pow256(a) <= pow256(b),
    decreases b,
{
    if a < b {
        lemma_pow256_mono(a, (b - 1) as nat);
    }
}

} // verus!
