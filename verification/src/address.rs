//! Public IP addresses as plain integers.

use vstd::prelude::*;

verus! {

/// An IPv4 or IPv6 address, held as the integer its octets spell in network
/// order. Two addresses are equal when they are of the same family and hold
/// the same integer; an IPv4 address never equals an IPv6 one.
#[derive(Clone, Copy, Debug, PartialEq, Eq, Structural)]
pub enum IpAddress {
    V4(u32),
    V6(u128),
}

impl IpAddress {
    /// The number that the four octets `a.b.c.d` spell.
    pub open spec fn v4_bits(a: u8, b: u8, c: u8, d: u8) -> int {
        a * 0x100_0000 + b * 0x1_0000 + c * 0x100 + d
    }

    /// The IPv4 address written `a.b.c.d`.
    pub fn v4(a: u8, b: u8, c: u8, d: u8) -> (ip: IpAddress)
        ensures
            ip == IpAddress::V4(Self::v4_bits(a, b, c, d) as u32),
            Self::v4_bits(a, b, c, d) <= u32::MAX,
    {
        let high: u32 = (a as u32) * 0x100_0000 + (b as u32) * 0x1_0000;
        let low: u32 = (c as u32) * 0x100 + (d as u32);
        IpAddress::V4(high + low)
    }
}

} // verus!
