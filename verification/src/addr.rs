use vstd::prelude::*;

verus! {

/// An IPv4 address: four octets in big-endian order.
#[derive(Clone, Copy, Debug, PartialEq, Eq)]
pub struct Ipv4Address {
    pub octets: [u8; 4],
}

impl Ipv4Address {
    pub fn new(a: u8, b: u8, c: u8, d: u8) -> (r: Self)
        ensures
            r.octets[0] == a,
            r.octets[1] == b,
            r.octets[2] == c,
            r.octets[3] == d,
    {
        Ipv4Address { octets: [a, b, c, d] }
    }
}

/// An IPv6 address: eight unsigned 16-bit segments in big-endian order.
#[derive(Clone, Copy, Debug, PartialEq, Eq)]
pub struct Ipv6Address {
    pub segments: [u16; 8],
}

impl Ipv6Address {
    pub fn new(s0: u16, s1: u16, s2: u16, s3: u16, s4: u16, s5: u16, s6: u16, s7: u16) -> (r: Self)
        ensures
            r.segments[0] == s0,
            r.segments[1] == s1,
            r.segments[2] == s2,
            r.segments[3] == s3,
            r.segments[4] == s4,
            r.segments[5] == s5,
            r.segments[6] == s6,
            r.segments[7] == s7,
    {
        Ipv6Address { segments: [s0, s1, s2, s3, s4, s5, s6, s7] }
    }
}

/// An address of either family.
#[derive(Clone, Copy, Debug, PartialEq, Eq)]
pub enum IpAddress {
    V4(Ipv4Address),
    V6(Ipv6Address),
}

} // verus!
