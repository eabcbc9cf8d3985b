//! Canonical rows: the durable, persistence-ready form of one observation.
//! Each address side is stored as an (IPv4, IPv6) pair whose unused slot
//! holds that family's unspecified address, so exactly one side is
//! meaningfully populated. A row is fully formed at construction and never
//! mutated afterwards.

use vstd::prelude::*;

use crate::classify::RoleAssignment;
use crate::flow::IpAddress;

verus! {

/// The unspecified IPv4 address, held by the unused IPv4 slot.
pub const UNSPECIFIED_V4: u32 = 0;

/// The unspecified IPv6 address, held by the unused IPv6 slot.
pub const UNSPECIFIED_V6: u128 = 0;

/// The IPv4 slot an address fills: the address itself for IPv4, the
/// unspecified value for IPv6.
pub open spec fn ip4_slot(a: IpAddress) -> u32 {
    match a {
        IpAddress::V4(x) => x,
        IpAddress::V6(_) => UNSPECIFIED_V4,
    }
}

/// The IPv6 slot an address fills: the address itself for IPv6, the
/// unspecified value for IPv4.
pub open spec fn ip6_slot(a: IpAddress) -> u128 {
    match a {
        IpAddress::V4(_) => UNSPECIFIED_V6,
        IpAddress::V6(x) => x,
    }
}

/// One observation in its durable form.
#[derive(Clone, Copy, PartialEq, Eq, Structural, Debug)]
pub struct CanonicalRow {
    pub insertion_time: i64,
    pub client_mac: u64,
    pub client_ipv4: u32,
    pub client_ipv6: u128,
    pub client_port: u16,
    pub server_ipv4: u32,
    pub server_ipv6: u128,
    pub server_port: u16,
    pub protocol: u8,
    pub packets: u32,
    pub bytes: u32,
    pub is_download: bool,
}

/// The row a classified observation persists as: insertion time is
/// processing time, the client's hardware address is the resolved one, and
/// each address fills exactly its family's slot.
pub open spec fn spec_row(
    now: i64,
    client_mac: u64,
    role: RoleAssignment,
    protocol: u8,
    packets: u32,
    bytes: u32,
) -> CanonicalRow {
    CanonicalRow {
        insertion_time: now,
        client_mac: client_mac,
        client_ipv4: ip4_slot(role.client_address),
        client_ipv6: ip6_slot(role.client_address),
        client_port: role.client_port,
        server_ipv4: ip4_slot(role.server_address),
        server_ipv6: ip6_slot(role.server_address),
        server_port: role.server_port,
        protocol: protocol,
        packets: packets,
        bytes: bytes,
        is_download: role.is_download,
    }
}

impl CanonicalRow {
    /// Builds the durable row for one classified observation. On each
    /// address side, exactly the slot of the address's family is
    /// populated; the other slot holds that family's unspecified value.
    pub fn new(
        now: i64,
        client_mac: u64,
        role: &RoleAssignment,
        protocol: u8,
        packets: u32,
        bytes: u32,
    ) -> (r: CanonicalRow)
        ensures
            r == spec_row(now, client_mac, *role, protocol, packets, bytes),
            r.client_ipv4 == UNSPECIFIED_V4 || r.client_ipv6 == UNSPECIFIED_V6,
            r.server_ipv4 == UNSPECIFIED_V4 || r.server_ipv6 == UNSPECIFIED_V6,
    {
        let (client_ipv4, client_ipv6) = match role.client_address {
            IpAddress::V4(x) => (x, UNSPECIFIED_V6),
            IpAddress::V6(x) => (UNSPECIFIED_V4, x),
        };
        let (server_ipv4, server_ipv6) = match role.server_address {
            IpAddress::V4(x) => (x, UNSPECIFIED_V6),
            IpAddress::V6(x) => (UNSPECIFIED_V4, x),
        };
        CanonicalRow {
            insertion_time: now,
            client_mac,
            client_ipv4,
            client_ipv6,
            client_port: role.client_port,
            server_ipv4,
            server_ipv6,
            server_port: role.server_port,
            protocol,
            packets,
            bytes,
            is_download: role.is_download,
        }
    }
}

/// Law: whatever the address, one of its two slots holds its family's
/// unspecified value, and the populated slot holds the address itself.
pub proof fn lemma_address_slots(a: IpAddress)
    ensures
        ip4_slot(a) == UNSPECIFIED_V4 || ip6_slot(a) == UNSPECIFIED_V6,
        a matches IpAddress::V4(x) ==> ip4_slot(a) == x && ip6_slot(a) == UNSPECIFIED_V6,
        a matches IpAddress::V6(x) ==> ip6_slot(a) == x && ip4_slot(a) == UNSPECIFIED_V4,
{
}

} // verus!
