use vstd::prelude::*;

mod addr;
mod v4;
mod v6;

pub use addr::{IpAddress, Ipv4Address, Ipv6Address};
pub use v4::{
    global_v4, is_benchmarking_v4, is_broadcast_v4, is_documentation_v4, is_global_v4,
    is_ietf_exception_v4, is_ietf_protocol_assignment_v4, is_link_local_v4, is_loopback_v4,
    is_private_v4, is_reserved_v4, is_shared_v4, lemma_special_v4_not_global,
};
pub use v6::{
    documentation_v6, global_v6, is_documentation_v6, is_global_v6, is_loopback_v6,
    is_multicast_v6, is_unicast_link_local_v6, is_unique_local_v6, is_unspecified_v6,
    lemma_multicast_v6_scope, lemma_special_v6_not_global, multicast_scope_v6,
    unicast_link_local_v6, unique_local_v6,
};

verus! {

/// Whether an address of either family is globally routable.
pub open spec fn is_global(addr: IpAddress) -> bool {
    match addr {
        IpAddress::V4(ip) => v4::is_global_v4(ip),
        IpAddress::V6(ip) => v6::is_global_v6(ip),
    }
}

/// Whether an address of either family is globally routable: dispatches on
/// the address family and decides by that family's special-use range tables.
pub fn global(addr: &IpAddress) -> (r: bool)
    ensures
        r == is_global(*addr),
{
    match addr {
        IpAddress::V4(ip) => v4::global_v4(ip),
        IpAddress::V6(ip) => v6::global_v6(ip),
    }
}

} // verus!
