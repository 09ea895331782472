use vstd::prelude::*;
use crate::addr::Ipv4Address;

verus! {

/// RFC 1918 private space: 10.0.0.0/8, 172.16.0.0/12 and 192.168.0.0/16.
pub open spec fn is_private_v4(a: Ipv4Address) -> bool {
    ||| a.octets[0] == 10
    ||| a.octets[0] == 172 && 16 <= a.octets[1] < 32
    ||| a.octets[0] == 192 && a.octets[1] == 168
}

/// Loopback block 127.0.0.0/8.
pub open spec fn is_loopback_v4(a: Ipv4Address) -> bool {
    a.octets[0] == 127
}

/// Link-local block 169.254.0.0/16.
pub open spec fn is_link_local_v4(a: Ipv4Address) -> bool {
    a.octets[0] == 169 && a.octets[1] == 254
}

/// The limited broadcast address 255.255.255.255.
pub open spec fn is_broadcast_v4(a: Ipv4Address) -> bool {
    a.octets[0] == 255 && a.octets[1] == 255 && a.octets[2] == 255 && a.octets[3] == 255
}

/// Documentation blocks 192.0.2.0/24, 198.51.100.0/24 and 203.0.113.0/24.
pub open spec fn is_documentation_v4(a: Ipv4Address) -> bool {
    ||| a.octets[0] == 192 && a.octets[1] == 0 && a.octets[2] == 2
    ||| a.octets[0] == 198 && a.octets[1] == 51 && a.octets[2] == 100
    ||| a.octets[0] == 203 && a.octets[1] == 0 && a.octets[2] == 113
}

/// Shared address space 100.64.0.0/10 (RFC 6598).
pub open spec fn is_shared_v4(a: Ipv4Address) -> bool {
    a.octets[0] == 100 && 64 <= a.octets[1] < 128
}

/// IETF protocol assignments block 192.0.0.0/24.
pub open spec fn is_ietf_protocol_assignment_v4(a: Ipv4Address) -> bool {
    a.octets[0] == 192 && a.octets[1] == 0 && a.octets[2] == 0
}

/// Reserved block 240.0.0.0/4, with the broadcast address carved out.
pub open spec fn is_reserved_v4(a: Ipv4Address) -> bool {
    a.octets[0] >= 240 && !is_broadcast_v4(a)
}

/// Benchmarking block 198.18.0.0/15 (RFC 2544).
pub open spec fn is_benchmarking_v4(a: Ipv4Address) -> bool {
    a.octets[0] == 198 && (a.octets[1] == 18 || a.octets[1] == 19)
}

/// 192.0.0.9 and 192.0.0.10: the only two globally routable addresses
/// inside the 192.0.0.0/24 protocol-assignments block.
pub open spec fn is_ietf_exception_v4(a: Ipv4Address) -> bool {
    a.octets[0] == 192 && a.octets[1] == 0 && a.octets[2] == 0 && (a.octets[3] == 9
        || a.octets[3] == 10)
}

/// An IPv4 address is globally routable iff it is one of the two exception
/// addresses, or lies in none of the special-use ranges (0.0.0.0/8 included).
pub open spec fn is_global_v4(a: Ipv4Address) -> bool {
    ||| is_ietf_exception_v4(a)
    ||| {
        &&& !is_private_v4(a)
        &&& !is_loopback_v4(a)
        &&& !is_link_local_v4(a)
        &&& !is_broadcast_v4(a)
        &&& !is_documentation_v4(a)
        &&& !is_shared_v4(a)
        &&& !is_ietf_protocol_assignment_v4(a)
        &&& !is_reserved_v4(a)
        &&& !is_benchmarking_v4(a)
        &&& a.octets[0] != 0
    }
}

/// The address as one 32-bit unsigned integer, big-endian.
pub open spec fn to_u32_v4(a: Ipv4Address) -> u32 {
    (a.octets[0] * 0x100_0000 + a.octets[1] * 0x1_0000 + a.octets[2] * 0x100
        + a.octets[3]) as u32
}

fn to_u32(addr: &Ipv4Address) -> (r: u32)
    ensures
        r == to_u32_v4(*addr),
{
    let a = addr.octets[0];
    let b = addr.octets[1];
    let c = addr.octets[2];
    let d = addr.octets[3];
    proof {
        assert(((a as u32) << 24 | (b as u32) << 16 | (c as u32) << 8 | (d as u32)) == (
        a * 0x100_0000 + b * 0x1_0000 + c * 0x100 + d) as u32) by (bit_vector);
    }
    (a as u32) << 24 | (b as u32) << 16 | (c as u32) << 8 | (d as u32)
}

fn private_v4(addr: &Ipv4Address) -> (r: bool)
    ensures
        r == is_private_v4(*addr),
{
    addr.octets[0] == 10 || (addr.octets[0] == 172 && addr.octets[1] >= 16 && addr.octets[1] < 32)
        || (addr.octets[0] == 192 && addr.octets[1] == 168)
}

fn loopback_v4(addr: &Ipv4Address) -> (r: bool)
    ensures
        r == is_loopback_v4(*addr),
{
    addr.octets[0] == 127
}

fn link_local_v4(addr: &Ipv4Address) -> (r: bool)
    ensures
        r == is_link_local_v4(*addr),
{
    addr.octets[0] == 169 && addr.octets[1] == 254
}

fn broadcast_v4(addr: &Ipv4Address) -> (r: bool)
    ensures
        r == is_broadcast_v4(*addr),
{
    addr.octets[0] == 255 && addr.octets[1] == 255 && addr.octets[2] == 255 && addr.octets[3]
        == 255
}

fn documentation_v4(addr: &Ipv4Address) -> (r: bool)
    ensures
        r == is_documentation_v4(*addr),
{
    (addr.octets[0] == 192 && addr.octets[1] == 0 && addr.octets[2] == 2) || (addr.octets[0] == 198
        && addr.octets[1] == 51 && addr.octets[2] == 100) || (addr.octets[0] == 203
        && addr.octets[1] == 0 && addr.octets[2] == 113)
}

fn shared_v4(addr: &Ipv4Address) -> (r: bool)
    ensures
        r == is_shared_v4(*addr),
{
    let b = addr.octets[1];
    proof {
        assert((b & 0b1100_0000 == 0b0100_0000) == (64 <= b < 128)) by (bit_vector);
    }
    addr.octets[0] == 100 && (b & 0b1100_0000 == 0b0100_0000)
}

fn ietf_protocol_assignment_v4(addr: &Ipv4Address) -> (r: bool)
    ensures
        r == is_ietf_protocol_assignment_v4(*addr),
{
    addr.octets[0] == 192 && addr.octets[1] == 0 && addr.octets[2] == 0
}

fn reserved_v4(addr: &Ipv4Address) -> (r: bool)
    ensures
        r == is_reserved_v4(*addr),
{
    let a = addr.octets[0];
    proof {
        assert((a & 240 == 240) == (a >= 240)) by (bit_vector);
    }
    a & 240 == 240 && !broadcast_v4(addr)
}

fn benchmarking_v4(addr: &Ipv4Address) -> (r: bool)
    ensures
        r == is_benchmarking_v4(*addr),
{
    let b = addr.octets[1];
    proof {
        assert((b & 0xfe == 18) == (b == 18 || b == 19)) by (bit_vector);
    }
    addr.octets[0] == 198 && (b & 0xfe) == 18
}

/// Whether an IPv4 address is globally routable.
pub fn global_v4(addr: &Ipv4Address) -> (r: bool)
    ensures
        r == is_global_v4(*addr),
{
    // 192.0.0.9 and 192.0.0.10 are the only two globally routable addresses
    // in the 192.0.0.0/24 range; they are checked before the exclusion chain.
    let u32_form = to_u32(addr);
    proof {
        let a = addr.octets[0];
        let b = addr.octets[1];
        let c = addr.octets[2];
        let d = addr.octets[3];
        assert(((a * 0x100_0000 + b * 0x1_0000 + c * 0x100 + d) as u32 == 0xc000_0009u32) == (a
            == 192 && b == 0 && c == 0 && d == 9)) by (bit_vector);
        assert(((a * 0x100_0000 + b * 0x1_0000 + c * 0x100 + d) as u32 == 0xc000_000au32) == (a
            == 192 && b == 0 && c == 0 && d == 10)) by (bit_vector);
    }
    if u32_form == 0xc000_0009 || u32_form == 0xc000_000a {
        return true;
    }
    !private_v4(addr) && !loopback_v4(addr) && !link_local_v4(addr) && !broadcast_v4(addr)
        && !documentation_v4(addr) && !shared_v4(addr) && !ietf_protocol_assignment_v4(addr)
        && !reserved_v4(addr) && !benchmarking_v4(addr) && addr.octets[0] != 0
}

/// Every IPv4 address in one of the special-use ranges is not global, with the
/// one exception that 192.0.0.9 and 192.0.0.10 are global even though they lie
/// inside the protocol-assignments block.
pub proof fn lemma_special_v4_not_global(a: Ipv4Address)
    ensures
        !is_ietf_exception_v4(a) && (is_private_v4(a) || is_loopback_v4(a) || is_link_local_v4(a)
            || is_broadcast_v4(a) || is_documentation_v4(a) || is_shared_v4(a)
            || is_ietf_protocol_assignment_v4(a) || is_reserved_v4(a) || is_benchmarking_v4(a)
            || a.octets[0] == 0) ==> !is_global_v4(a),
        is_ietf_exception_v4(a) ==> is_global_v4(a),
{
}

} // verus!
