use vstd::prelude::*;
use crate::addr::Ipv6Address;

verus! {

/// Multicast space ff00::/8: the high byte of the first segment is 0xff.
pub open spec fn is_multicast_v6(a: Ipv6Address) -> bool {
    a.segments[0] >= 0xff00
}

/// The multicast scope field: the low four bits of the first segment.
pub open spec fn multicast_scope_v6(a: Ipv6Address) -> u16 {
    a.segments[0] & 0x000f
}

/// The loopback address ::1.
pub open spec fn is_loopback_v6(a: Ipv6Address) -> bool {
    &&& a.segments[0] == 0
    &&& a.segments[1] == 0
    &&& a.segments[2] == 0
    &&& a.segments[3] == 0
    &&& a.segments[4] == 0
    &&& a.segments[5] == 0
    &&& a.segments[6] == 0
    &&& a.segments[7] == 1
}

/// The unspecified address ::.
pub open spec fn is_unspecified_v6(a: Ipv6Address) -> bool {
    &&& a.segments[0] == 0
    &&& a.segments[1] == 0
    &&& a.segments[2] == 0
    &&& a.segments[3] == 0
    &&& a.segments[4] == 0
    &&& a.segments[5] == 0
    &&& a.segments[6] == 0
    &&& a.segments[7] == 0
}

/// Unicast link-local space fe80::/10.
pub open spec fn is_unicast_link_local_v6(a: Ipv6Address) -> bool {
    0xfe80 <= a.segments[0] <= 0xfebf
}

/// Unique-local space fc00::/7 (RFC 4193).
pub open spec fn is_unique_local_v6(a: Ipv6Address) -> bool {
    0xfc00 <= a.segments[0] <= 0xfdff
}

/// Documentation block 2001:db8::/32 (RFC 3849).
pub open spec fn is_documentation_v6(a: Ipv6Address) -> bool {
    a.segments[0] == 0x2001 && a.segments[1] == 0x0db8
}

/// An IPv6 multicast address is globally routable iff its scope field is 14
/// (global scope); any other address is globally routable iff it is none of
/// loopback, unicast link-local, unique-local, unspecified and documentation.
pub open spec fn is_global_v6(a: Ipv6Address) -> bool {
    if is_multicast_v6(a) {
        multicast_scope_v6(a) == 14
    } else {
        &&& !is_loopback_v6(a)
        &&& !is_unicast_link_local_v6(a)
        &&& !is_unique_local_v6(a)
        &&& !is_unspecified_v6(a)
        &&& !is_documentation_v6(a)
    }
}

fn multicast_v6(addr: &Ipv6Address) -> (r: bool)
    ensures
        r == is_multicast_v6(*addr),
{
    let s0 = addr.segments[0];
    proof {
        assert((s0 & 0xff00 == 0xff00) == (s0 >= 0xff00)) by (bit_vector);
    }
    (s0 & 0xff00) == 0xff00
}

fn loopback_v6(addr: &Ipv6Address) -> (r: bool)
    ensures
        r == is_loopback_v6(*addr),
{
    addr.segments[0] == 0 && addr.segments[1] == 0 && addr.segments[2] == 0 && addr.segments[3]
        == 0 && addr.segments[4] == 0 && addr.segments[5] == 0 && addr.segments[6] == 0
        && addr.segments[7] == 1
}

fn unspecified_v6(addr: &Ipv6Address) -> (r: bool)
    ensures
        r == is_unspecified_v6(*addr),
{
    addr.segments[0] == 0 && addr.segments[1] == 0 && addr.segments[2] == 0 && addr.segments[3]
        == 0 && addr.segments[4] == 0 && addr.segments[5] == 0 && addr.segments[6] == 0
        && addr.segments[7] == 0
}

/// Whether an IPv6 address lies in the unicast link-local space fe80::/10.
pub fn unicast_link_local_v6(addr: &Ipv6Address) -> (r: bool)
    ensures
        r == is_unicast_link_local_v6(*addr),
{
    let s0 = addr.segments[0];
    proof {
        assert((s0 & 0xffc0 == 0xfe80) == (0xfe80 <= s0 <= 0xfebf)) by (bit_vector);
    }
    (s0 & 0xffc0) == 0xfe80
}

/// Whether an IPv6 address lies in the unique-local space fc00::/7.
pub fn unique_local_v6(addr: &Ipv6Address) -> (r: bool)
    ensures
        r == is_unique_local_v6(*addr),
{
    let s0 = addr.segments[0];
    proof {
        assert((s0 & 0xfe00 == 0xfc00) == (0xfc00 <= s0 <= 0xfdff)) by (bit_vector);
    }
    (s0 & 0xfe00) == 0xfc00
}

/// Whether an IPv6 address lies in the documentation block 2001:db8::/32.
pub fn documentation_v6(addr: &Ipv6Address) -> (r: bool)
    ensures
        r == is_documentation_v6(*addr),
{
    addr.segments[0] == 0x2001 && addr.segments[1] == 0x0db8
}

/// Whether an IPv6 address is globally routable.
pub fn global_v6(addr: &Ipv6Address) -> (r: bool)
    ensures
        r == is_global_v6(*addr),
{
    if multicast_v6(addr) {
        // A multicast address is classified by its scope field alone.
        match addr.segments[0] & 0x000f {
            14 => true,
            _ => false,
        }
    } else {
        !loopback_v6(addr) && !unicast_link_local_v6(addr) && !unique_local_v6(addr)
            && !unspecified_v6(addr) && !documentation_v6(addr)
    }
}

/// An IPv6 multicast address is globally routable iff the low nibble of its
/// first segment, the multicast scope field, is 0xe.
pub proof fn lemma_multicast_v6_scope(a: Ipv6Address)
    requires
        is_multicast_v6(a),
    ensures
        is_global_v6(a) <==> (a.segments[0] & 0x000f) == 0xe,
{
}

/// Loopback, unspecified, unique-local, unicast link-local and documentation
/// IPv6 addresses are never globally routable.
pub proof fn lemma_special_v6_not_global(a: Ipv6Address)
    ensures
        is_loopback_v6(a) ==> !is_global_v6(a),
        is_unspecified_v6(a) ==> !is_global_v6(a),
        is_unique_local_v6(a) ==> !is_global_v6(a),
        is_unicast_link_local_v6(a) ==> !is_global_v6(a),
        is_documentation_v6(a) ==> !is_global_v6(a),
{
}

} // verus!
