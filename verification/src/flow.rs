//! Flow normalization: extracts the fixed set of required fields from a
//! record's field map into a canonical, protocol-agnostic observation. Each
//! field is read under its primary identity, falling back to the alternate
//! identity where one exists, and converted to its typed form. A record
//! missing a required field, or carrying one in a shape the extraction does
//! not accept, normalizes to `None` and is dropped by the caller.

use vstd::prelude::*;

use crate::fields::{FieldKey, FieldMap, FieldValue};
use crate::mac::{mac_of_text, parse_mac};

verus! {

/// An endpoint address, either IPv4 or IPv6, exactly one per side.
#[derive(Clone, Copy, PartialEq, Eq, Structural, Debug)]
pub enum IpAddress {
    V4(u32),
    V6(u128),
}

/// One record's traffic, normalized: addresses, ports, transport protocol,
/// this record's packet and byte deltas, the source-side hardware address in
/// its integer encoding, and the exporter-reported direction code.
#[derive(Clone, Copy, PartialEq, Eq, Structural, Debug)]
pub struct FlowObservation {
    pub source_address: IpAddress,
    pub destination_address: IpAddress,
    pub source_port: u16,
    pub destination_port: u16,
    pub source_mac: u64,
    pub protocol: u8,
    pub packets: u32,
    pub bytes: u32,
    pub direction: u8,
}

/// The value under `primary`, or under `secondary` when `primary` is absent.
pub open spec fn spec_first_of(m: FieldMap, primary: FieldKey, secondary: FieldKey) -> Option<
    FieldValue,
> {
    if m.spec_get(primary) is Some {
        m.spec_get(primary)
    } else {
        m.spec_get(secondary)
    }
}

/// The source hardware address: the text under the source identity (or its
/// post-translation alternate), parsed to its integer encoding.
pub open spec fn spec_mac_field(m: FieldMap) -> Option<u64> {
    match spec_first_of(m, FieldKey::SourceMacAddress, FieldKey::PostSourceMacAddress) {
        Some(FieldValue::Text(t)) => mac_of_text(t@),
        _ => None,
    }
}

/// An address value in its typed form.
pub open spec fn spec_addr_value(v: FieldValue) -> Option<IpAddress> {
    match v {
        FieldValue::V4(a) => Some(IpAddress::V4(a)),
        FieldValue::V6(a) => Some(IpAddress::V6(a)),
        _ => None,
    }
}

/// An address read under the IPv4 identity, falling back to the IPv6 one.
pub open spec fn spec_addr_field(m: FieldMap, v4: FieldKey, v6: FieldKey) -> Option<IpAddress> {
    match spec_first_of(m, v4, v6) {
        Some(v) => spec_addr_value(v),
        None => None,
    }
}

/// An 8-bit read: accepts only an 8-bit value.
pub open spec fn spec_u8_field(m: FieldMap, k: FieldKey) -> Option<u8> {
    match m.spec_get(k) {
        Some(FieldValue::Unsigned8(x)) => Some(x),
        _ => None,
    }
}

/// A 16-bit read: accepts only a 16-bit value.
pub open spec fn spec_u16_field(m: FieldMap, k: FieldKey) -> Option<u16> {
    match m.spec_get(k) {
        Some(FieldValue::Unsigned16(x)) => Some(x),
        _ => None,
    }
}

/// A 32-bit read: accepts a 32-bit or a 24-bit value.
pub open spec fn spec_u32_field(m: FieldMap, k: FieldKey) -> Option<u32> {
    match m.spec_get(k) {
        Some(FieldValue::Unsigned32(x)) => Some(x),
        Some(FieldValue::Unsigned24(x)) => Some(x),
        _ => None,
    }
}

/// The observation a field map normalizes to, or `None` when any required
/// field is absent under every identity or held in an unaccepted shape.
pub open spec fn spec_normalize(m: FieldMap) -> Option<FlowObservation> {
    let mac = spec_mac_field(m);
    let src = spec_addr_field(m, FieldKey::SourceIpv4Address, FieldKey::SourceIpv6Address);
    let dst = spec_addr_field(
        m,
        FieldKey::DestinationIpv4Address,
        FieldKey::DestinationIpv6Address,
    );
    let sport = spec_u16_field(m, FieldKey::SourceTransportPort);
    let dport = spec_u16_field(m, FieldKey::DestinationTransportPort);
    let proto = spec_u8_field(m, FieldKey::ProtocolIdentifier);
    let packets = spec_u32_field(m, FieldKey::PacketDeltaCount);
    let octets = spec_u32_field(m, FieldKey::OctetDeltaCount);
    let dir = spec_u8_field(m, FieldKey::FlowDirection);
    if mac is Some && src is Some && dst is Some && sport is Some && dport is Some && proto is Some
        && packets is Some && octets is Some && dir is Some {
        Some(
            FlowObservation {
                source_address: src.unwrap(),
                destination_address: dst.unwrap(),
                source_port: sport.unwrap(),
                destination_port: dport.unwrap(),
                source_mac: mac.unwrap(),
                protocol: proto.unwrap(),
                packets: packets.unwrap(),
                bytes: octets.unwrap(),
                direction: dir.unwrap(),
            },
        )
    } else {
        None
    }
}

/// The value under `primary`, or under `secondary` when `primary` is absent.
fn first_of<'a>(m: &'a FieldMap, primary: FieldKey, secondary: FieldKey) -> (r: &'a Option<
    FieldValue,
>)
    ensures
        *r == spec_first_of(*m, primary, secondary),
{
    let p = m.get(primary);
    if p.is_some() {
        p
    } else {
        m.get(secondary)
    }
}

/// Extracts and parses the source hardware address.
fn mac_field(m: &FieldMap) -> (r: Option<u64>)
    ensures
        r == spec_mac_field(*m),
{
    match first_of(m, FieldKey::SourceMacAddress, FieldKey::PostSourceMacAddress) {
        Some(FieldValue::Text(t)) => parse_mac(t.as_slice()),
        _ => None,
    }
}

/// Extracts an address under the IPv4 identity, falling back to the IPv6 one.
fn addr_field(m: &FieldMap, v4: FieldKey, v6: FieldKey) -> (r: Option<IpAddress>)
    ensures
        r == spec_addr_field(*m, v4, v6),
{
    match first_of(m, v4, v6) {
        Some(FieldValue::V4(a)) => Some(IpAddress::V4(*a)),
        Some(FieldValue::V6(a)) => Some(IpAddress::V6(*a)),
        _ => None,
    }
}

/// Extracts an 8-bit field.
fn u8_field(m: &FieldMap, k: FieldKey) -> (r: Option<u8>)
    ensures
        r == spec_u8_field(*m, k),
{
    match m.get(k) {
        Some(FieldValue::Unsigned8(x)) => Some(*x),
        _ => None,
    }
}

/// Extracts a 16-bit field.
fn u16_field(m: &FieldMap, k: FieldKey) -> (r: Option<u16>)
    ensures
        r == spec_u16_field(*m, k),
{
    match m.get(k) {
        Some(FieldValue::Unsigned16(x)) => Some(*x),
        _ => None,
    }
}

/// Extracts a 32-bit field, accepting a 24-bit value too.
fn u32_field(m: &FieldMap, k: FieldKey) -> (r: Option<u32>)
    ensures
        r == spec_u32_field(*m, k),
{
    match m.get(k) {
        Some(FieldValue::Unsigned32(x)) => Some(*x),
        Some(FieldValue::Unsigned24(x)) => Some(*x),
        _ => None,
    }
}

/// Normalizes one record's field map into a flow observation. Returns
/// `None` exactly when a required field is missing under every identity it
/// may arrive by, or is held in a shape its typed extraction rejects: such
/// a record is dropped by the caller, never a reason to halt ingestion.
pub fn normalize(m: &FieldMap) -> (r: Option<FlowObservation>)
    ensures
        r == spec_normalize(*m),
{
    let mac = match mac_field(m) {
        Some(x) => x,
        None => {
            return None;
        },
    };
    let src = match addr_field(m, FieldKey::SourceIpv4Address, FieldKey::SourceIpv6Address) {
        Some(x) => x,
        None => {
            return None;
        },
    };
    let dst = match addr_field(
        m,
        FieldKey::DestinationIpv4Address,
        FieldKey::DestinationIpv6Address,
    ) {
        Some(x) => x,
        None => {
            return None;
        },
    };
    let sport = match u16_field(m, FieldKey::SourceTransportPort) {
        Some(x) => x,
        None => {
            return None;
        },
    };
    let dport = match u16_field(m, FieldKey::DestinationTransportPort) {
        Some(x) => x,
        None => {
            return None;
        },
    };
    let proto = match u8_field(m, FieldKey::ProtocolIdentifier) {
        Some(x) => x,
        None => {
            return None;
        },
    };
    let packets = match u32_field(m, FieldKey::PacketDeltaCount) {
        Some(x) => x,
        None => {
            return None;
        },
    };
    let octets = match u32_field(m, FieldKey::OctetDeltaCount) {
        Some(x) => x,
        None => {
            return None;
        },
    };
    let dir = match u8_field(m, FieldKey::FlowDirection) {
        Some(x) => x,
        None => {
            return None;
        },
    };
    Some(
        FlowObservation {
            source_address: src,
            destination_address: dst,
            source_port: sport,
            destination_port: dport,
            source_mac: mac,
            protocol: proto,
            packets,
            bytes: octets,
            direction: dir,
        },
    )
}

} // verus!
