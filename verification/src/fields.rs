//! Field model for one decoded flow record: semantic field identities, the
//! plain value shapes the pipeline can read, and the lookup map built from a
//! record's raw field list (last write wins on duplicate identities).

use vstd::prelude::*;

verus! {

/// Semantic identity of a flow record field that the pipeline reads.
/// The same semantic field may arrive under a primary or an alternate
/// identity depending on the exporter protocol version.
#[derive(Clone, Copy, PartialEq, Eq, Structural, Debug)]
pub enum FieldKey {
    SourceMacAddress,
    PostSourceMacAddress,
    SourceIpv4Address,
    SourceIpv6Address,
    SourceTransportPort,
    DestinationIpv4Address,
    DestinationIpv6Address,
    DestinationTransportPort,
    ProtocolIdentifier,
    PacketDeltaCount,
    OctetDeltaCount,
    FlowDirection,
}

/// A decoded field value, reduced to the plain shapes the pipeline reads.
/// Widths are kept apart because a typed extraction accepts only the widths
/// the decoder would hand out for that field: an 8-bit read accepts only
/// `Unsigned8`, a 16-bit read only `Unsigned16`, and a 32-bit read either
/// `Unsigned32` or `Unsigned24`. `Text` carries hardware-address text as
/// bytes. `Other` stands for every value kind the pipeline has no use for.
#[derive(Debug)]
pub enum FieldValue {
    Unsigned8(u8),
    Unsigned16(u16),
    Unsigned24(u32),
    Unsigned32(u32),
    Text(Vec<u8>),
    V4(u32),
    V6(u128),
    Other,
}

/// The value held for key `k` by the raw pair list `s`: the value of the
/// last pair carrying `k`, or `None` when no pair carries `k`.
pub open spec fn last_value(s: Seq<(FieldKey, FieldValue)>, k: FieldKey) -> Option<FieldValue>
    decreases s.len(),
{
    if s.len() == 0 {
        None
    } else if s.last().0 == k {
        Some(s.last().1)
    } else {
        last_value(s.drop_last(), k)
    }
}

/// The lookup map a raw field list builds: every key holds the value of
/// the last pair that carried it.
pub open spec fn spec_field_map(pairs: Seq<(FieldKey, FieldValue)>) -> FieldMap {
    FieldMap {
        source_mac_address: last_value(pairs, FieldKey::SourceMacAddress),
        post_source_mac_address: last_value(pairs, FieldKey::PostSourceMacAddress),
        source_ipv4_address: last_value(pairs, FieldKey::SourceIpv4Address),
        source_ipv6_address: last_value(pairs, FieldKey::SourceIpv6Address),
        source_transport_port: last_value(pairs, FieldKey::SourceTransportPort),
        destination_ipv4_address: last_value(pairs, FieldKey::DestinationIpv4Address),
        destination_ipv6_address: last_value(pairs, FieldKey::DestinationIpv6Address),
        destination_transport_port: last_value(pairs, FieldKey::DestinationTransportPort),
        protocol_identifier: last_value(pairs, FieldKey::ProtocolIdentifier),
        packet_delta_count: last_value(pairs, FieldKey::PacketDeltaCount),
        octet_delta_count: last_value(pairs, FieldKey::OctetDeltaCount),
        flow_direction: last_value(pairs, FieldKey::FlowDirection),
    }
}

/// Lookup structure keyed by semantic field identity, one slot per key.
pub struct FieldMap {
    pub source_mac_address: Option<FieldValue>,
    pub post_source_mac_address: Option<FieldValue>,
    pub source_ipv4_address: Option<FieldValue>,
    pub source_ipv6_address: Option<FieldValue>,
    pub source_transport_port: Option<FieldValue>,
    pub destination_ipv4_address: Option<FieldValue>,
    pub destination_ipv6_address: Option<FieldValue>,
    pub destination_transport_port: Option<FieldValue>,
    pub protocol_identifier: Option<FieldValue>,
    pub packet_delta_count: Option<FieldValue>,
    pub octet_delta_count: Option<FieldValue>,
    pub flow_direction: Option<FieldValue>,
}

impl FieldMap {
    /// The value the map holds for key `k`.
    pub open spec fn spec_get(self, k: FieldKey) -> Option<FieldValue> {
        match k {
            FieldKey::SourceMacAddress => self.source_mac_address,
            FieldKey::PostSourceMacAddress => self.post_source_mac_address,
            FieldKey::SourceIpv4Address => self.source_ipv4_address,
            FieldKey::SourceIpv6Address => self.source_ipv6_address,
            FieldKey::SourceTransportPort => self.source_transport_port,
            FieldKey::DestinationIpv4Address => self.destination_ipv4_address,
            FieldKey::DestinationIpv6Address => self.destination_ipv6_address,
            FieldKey::DestinationTransportPort => self.destination_transport_port,
            FieldKey::ProtocolIdentifier => self.protocol_identifier,
            FieldKey::PacketDeltaCount => self.packet_delta_count,
            FieldKey::OctetDeltaCount => self.octet_delta_count,
            FieldKey::FlowDirection => self.flow_direction,
        }
    }

    /// An empty map: no key holds a value.
    pub fn empty() -> (m: FieldMap)
        ensures
            forall|k: FieldKey| m.spec_get(k) is None,
    {
        FieldMap {
            source_mac_address: None,
            post_source_mac_address: None,
            source_ipv4_address: None,
            source_ipv6_address: None,
            source_transport_port: None,
            destination_ipv4_address: None,
            destination_ipv6_address: None,
            destination_transport_port: None,
            protocol_identifier: None,
            packet_delta_count: None,
            octet_delta_count: None,
            flow_direction: None,
        }
    }

    /// Stores `v` under `k`, replacing any value held before.
    fn put(&mut self, k: FieldKey, v: FieldValue)
        ensures
            final(self).spec_get(k) == Some::<FieldValue>(v),
            forall|q: FieldKey| q != k ==> final(self).spec_get(q) == old(self).spec_get(q),
    {
        match k {
            FieldKey::SourceMacAddress => self.source_mac_address = Some(v),
            FieldKey::PostSourceMacAddress => self.post_source_mac_address = Some(v),
            FieldKey::SourceIpv4Address => self.source_ipv4_address = Some(v),
            FieldKey::SourceIpv6Address => self.source_ipv6_address = Some(v),
            FieldKey::SourceTransportPort => self.source_transport_port = Some(v),
            FieldKey::DestinationIpv4Address => self.destination_ipv4_address = Some(v),
            FieldKey::DestinationIpv6Address => self.destination_ipv6_address = Some(v),
            FieldKey::DestinationTransportPort => self.destination_transport_port = Some(v),
            FieldKey::ProtocolIdentifier => self.protocol_identifier = Some(v),
            FieldKey::PacketDeltaCount => self.packet_delta_count = Some(v),
            FieldKey::OctetDeltaCount => self.octet_delta_count = Some(v),
            FieldKey::FlowDirection => self.flow_direction = Some(v),
        }
    }

    /// Builds the lookup map from one record's raw field list: every key
    /// holds the value of the last pair that carried it. The list is walked
    /// from its end, so the first value seen for a key is the record's last.
    pub fn build(pairs: Vec<(FieldKey, FieldValue)>) -> (m: FieldMap)
        ensures
            forall|k: FieldKey| m.spec_get(k) == last_value(pairs@, k),
            m == spec_field_map(pairs@),
    {
        let ghost all = pairs@;
        let mut rest = pairs;
        let mut m = FieldMap::empty();
        proof {
            assert(all.take(all.len() as int) =~= all);
        }
        loop
            invariant
                rest@.len() <= all.len(),
                rest@ == all.take(rest@.len() as int),
                forall|k: FieldKey| last_value(all, k) == (match m.spec_get(k) {
                    Some(v) => Some(v),
                    None => last_value(rest@, k),
                }),
            ensures
                rest@.len() == 0,
            decreases rest@.len(),
        {
            let ghost rest_before = rest@;
            match rest.pop() {
                Some(p) => {
                    let (k, v) = p;
                    proof {
                        assert(rest_before.last() == (k, v));
                        assert(rest@ =~= all.take(rest@.len() as int));
                    }
                    if m.get(k).is_none() {
                        m.put(k, v);
                    }
                    proof {
                        assert forall|q: FieldKey| last_value(rest_before, q) == (
                        if q == k {
                            Some(v)
                        } else {
                            last_value(rest@, q)
                        }) by {
                            assert(rest_before.drop_last() =~= rest@);
                        }
                    }
                }
                None => {
                    break;
                }
            }
        }
        proof {
            assert(m.spec_get(FieldKey::SourceMacAddress) == last_value(all, FieldKey::SourceMacAddress));
            assert(m.spec_get(FieldKey::PostSourceMacAddress) == last_value(all, FieldKey::PostSourceMacAddress));
            assert(m.spec_get(FieldKey::SourceIpv4Address) == last_value(all, FieldKey::SourceIpv4Address));
            assert(m.spec_get(FieldKey::SourceIpv6Address) == last_value(all, FieldKey::SourceIpv6Address));
            assert(m.spec_get(FieldKey::SourceTransportPort) == last_value(all, FieldKey::SourceTransportPort));
            assert(m.spec_get(FieldKey::DestinationIpv4Address) == last_value(all, FieldKey::DestinationIpv4Address));
            assert(m.spec_get(FieldKey::DestinationIpv6Address) == last_value(all, FieldKey::DestinationIpv6Address));
            assert(m.spec_get(FieldKey::DestinationTransportPort) == last_value(all, FieldKey::DestinationTransportPort));
            assert(m.spec_get(FieldKey::ProtocolIdentifier) == last_value(all, FieldKey::ProtocolIdentifier));
            assert(m.spec_get(FieldKey::PacketDeltaCount) == last_value(all, FieldKey::PacketDeltaCount));
            assert(m.spec_get(FieldKey::OctetDeltaCount) == last_value(all, FieldKey::OctetDeltaCount));
            assert(m.spec_get(FieldKey::FlowDirection) == last_value(all, FieldKey::FlowDirection));
        }
        m
    }

    /// The value held for key `k`.
    pub fn get(&self, k: FieldKey) -> (r: &Option<FieldValue>)
        ensures
            *r == self.spec_get(k),
    {
        match k {
            FieldKey::SourceMacAddress => &self.source_mac_address,
            FieldKey::PostSourceMacAddress => &self.post_source_mac_address,
            FieldKey::SourceIpv4Address => &self.source_ipv4_address,
            FieldKey::SourceIpv6Address => &self.source_ipv6_address,
            FieldKey::SourceTransportPort => &self.source_transport_port,
            FieldKey::DestinationIpv4Address => &self.destination_ipv4_address,
            FieldKey::DestinationIpv6Address => &self.destination_ipv6_address,
            FieldKey::DestinationTransportPort => &self.destination_transport_port,
            FieldKey::ProtocolIdentifier => &self.protocol_identifier,
            FieldKey::PacketDeltaCount => &self.packet_delta_count,
            FieldKey::OctetDeltaCount => &self.octet_delta_count,
            FieldKey::FlowDirection => &self.flow_direction,
        }
    }
}

} // verus!
