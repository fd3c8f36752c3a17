//! Network addresses as plain values, and the classes of IPv4 addresses
//! that matter for multicast.

use vstd::prelude::*;

verus! {

/// An IP address by its bits: the 32 bits of an IPv4 address or the 128
/// bits of an IPv6 address, the first octet in the highest place.
#[derive(Clone, Copy, Debug, PartialEq, Eq, Structural)]
pub enum IpAddress {
    V4(u32),
    V6(u128),
}

/// The mDNS multicast group, 224.0.0.251.
pub const MULTICAST_GROUP: u32 = 0xE00000FB;

/// The first octet of an IPv4 address.
pub open spec fn first_octet(bits: u32) -> int {
    bits as int / 0x1000000
}

/// The first two octets of an IPv4 address.
pub open spec fn first_two_octets(bits: u32) -> int {
    bits as int / 0x10000
}

/// 127.0.0.0/8.
pub open spec fn v4_is_loopback(bits: u32) -> bool {
    first_octet(bits) == 127
}

/// 169.254.0.0/16.
pub open spec fn v4_is_link_local(bits: u32) -> bool {
    first_two_octets(bits) == 0xA9FE
}

/// 224.0.0.0/4.
pub open spec fn v4_is_multicast(bits: u32) -> bool {
    224 <= first_octet(bits) <= 239
}

/// 255.255.255.255.
pub open spec fn v4_is_broadcast(bits: u32) -> bool {
    bits == 0xFFFFFFFF
}

impl IpAddress {
    /// The address a.b.c.d.
    pub fn v4(a: u8, b: u8, c: u8, d: u8) -> (ip: IpAddress)
        ensures
            ip == IpAddress::V4((a as int * 0x1000000 + b as int * 0x10000 + c as int * 0x100 + d as int) as u32),
            ip is V4,
            first_octet(ip->V4_0) == a,
            first_two_octets(ip->V4_0) == a * 256 + b,
    {
        let bits: u32 = (a as u32) * 0x1000000 + (b as u32) * 0x10000 + (c as u32) * 0x100 + (
        d as u32);
        IpAddress::V4(bits)
    }

    /// An IPv4 address in the loopback range.
    pub open spec fn spec_is_loopback(self) -> bool {
        self matches IpAddress::V4(bits) && v4_is_loopback(bits)
    }

    /// An IPv4 address in the link-local range.
    pub open spec fn spec_is_link_local(self) -> bool {
        self matches IpAddress::V4(bits) && v4_is_link_local(bits)
    }

    /// An IPv4 address in the multicast range.
    pub open spec fn spec_is_multicast(self) -> bool {
        self matches IpAddress::V4(bits) && v4_is_multicast(bits)
    }

    /// The IPv4 broadcast address.
    pub open spec fn spec_is_broadcast(self) -> bool {
        self matches IpAddress::V4(bits) && v4_is_broadcast(bits)
    }

    pub fn is_loopback(&self) -> (yes: bool)
        ensures
            yes == self.spec_is_loopback(),
    {
        match self {
            IpAddress::V4(bits) => *bits / 0x1000000 == 127,
            IpAddress::V6(_) => false,
        }
    }

    pub fn is_link_local(&self) -> (yes: bool)
        ensures
            yes == self.spec_is_link_local(),
    {
        match self {
            IpAddress::V4(bits) => *bits / 0x10000 == 0xA9FE,
            IpAddress::V6(_) => false,
        }
    }

    pub fn is_multicast(&self) -> (yes: bool)
        ensures
            yes == self.spec_is_multicast(),
    {
        match self {
            IpAddress::V4(bits) => 224 <= *bits / 0x1000000 && *bits / 0x1000000 <= 239,
            IpAddress::V6(_) => false,
        }
    }

    pub fn is_broadcast(&self) -> (yes: bool)
        ensures
            yes == self.spec_is_broadcast(),
    {
        match self {
            IpAddress::V4(bits) => *bits == 0xFFFFFFFF,
            IpAddress::V6(_) => false,
        }
    }
}

} // verus!
