use flowpipe::cache::EndpointCache;
use flowpipe::classify::classify;
use flowpipe::counters::TrafficCounters;
use flowpipe::fields::{FieldKey, FieldMap, FieldValue};
use flowpipe::flow::{normalize, FlowObservation, IpAddress};
use flowpipe::mac::parse_mac;
use flowpipe::row::CanonicalRow;
use flowpipe::sink::BatchedSink;

fn mac_text(s: &str) -> FieldValue {
    FieldValue::Text(s.as_bytes().to_vec())
}

fn full_record() -> Vec<(FieldKey, FieldValue)> {
    vec![
        (FieldKey::SourceMacAddress, mac_text("aa:bb:cc:dd:ee:ff")),
        (FieldKey::SourceIpv4Address, FieldValue::V4(0x0A000005)),
        (FieldKey::SourceTransportPort, FieldValue::Unsigned16(5000)),
        (FieldKey::DestinationIpv4Address, FieldValue::V4(0x5DB8D822)),
        (FieldKey::DestinationTransportPort, FieldValue::Unsigned16(443)),
        (FieldKey::ProtocolIdentifier, FieldValue::Unsigned8(6)),
        (FieldKey::PacketDeltaCount, FieldValue::Unsigned32(10)),
        (FieldKey::OctetDeltaCount, FieldValue::Unsigned32(500)),
        (FieldKey::FlowDirection, FieldValue::Unsigned8(1)),
    ]
}

#[test]
fn parse_mac_canonical() {
    assert_eq!(parse_mac(b"aa:bb:cc:dd:ee:ff"), Some(0xAABBCCDDEEFF));
    assert_eq!(parse_mac(b"00:00:00:00:00:00"), Some(0));
    assert_eq!(parse_mac(b"11:22:33:44:55:66"), Some(0x112233445566));
}

#[test]
fn parse_mac_other_shapes() {
    assert_eq!(parse_mac(b"AABBCCDDEEFF"), Some(0xAABBCCDDEEFF));
    assert_eq!(parse_mac(b"aAbBcCdDeEfF"), Some(0xAABBCCDDEEFF));
    assert_eq!(parse_mac(b"0"), Some(0));
    assert_eq!(parse_mac(b"ffffffffffffffff"), Some(u64::MAX));
}

#[test]
fn parse_mac_rejects() {
    assert_eq!(parse_mac(b""), None);
    assert_eq!(parse_mac(b"::"), None);
    assert_eq!(parse_mac(b"aa:bb:cc:dd:ee:fg"), None);
    assert_eq!(parse_mac(b"zz"), None);
    assert_eq!(parse_mac(b"aa bb"), None);
    assert_eq!(parse_mac(b"12345678901234567"), None);
}

#[test]
fn field_map_last_write_wins() {
    let m = FieldMap::build(vec![
        (FieldKey::FlowDirection, FieldValue::Unsigned8(1)),
        (FieldKey::FlowDirection, FieldValue::Unsigned8(0)),
    ]);
    match m.get(FieldKey::FlowDirection) {
        Some(FieldValue::Unsigned8(0)) => {}
        other => panic!("expected the later value, got {:?}", other),
    }
    assert!(m.get(FieldKey::SourceTransportPort).is_none());
}

#[test]
fn normalize_full_record() {
    let m = FieldMap::build(full_record());
    let obs = normalize(&m).expect("a complete record normalizes");
    assert_eq!(
        obs,
        FlowObservation {
            source_address: IpAddress::V4(0x0A000005),
            destination_address: IpAddress::V4(0x5DB8D822),
            source_port: 5000,
            destination_port: 443,
            source_mac: 0xAABBCCDDEEFF,
            protocol: 6,
            packets: 10,
            bytes: 500,
            direction: 1,
        }
    );
}

#[test]
fn normalize_uses_fallback_identities() {
    let mut pairs = full_record();
    pairs.retain(|(k, _)| *k != FieldKey::SourceMacAddress);
    pairs.push((FieldKey::PostSourceMacAddress, mac_text("11:22:33:44:55:66")));
    let m = FieldMap::build(pairs);
    let obs = normalize(&m).expect("the alternate identity serves");
    assert_eq!(obs.source_mac, 0x112233445566);

    let mut pairs = full_record();
    pairs.retain(|(k, _)| *k != FieldKey::SourceIpv4Address);
    pairs.push((FieldKey::SourceIpv6Address, FieldValue::V6(0x20010DB8_0000_0000_0000_0000_0000_0001)));
    let m = FieldMap::build(pairs);
    let obs = normalize(&m).expect("the IPv6 identity serves");
    assert_eq!(
        obs.source_address,
        IpAddress::V6(0x20010DB8_0000_0000_0000_0000_0000_0001)
    );
}

#[test]
fn normalize_accepts_narrow_counter_width() {
    let mut pairs = full_record();
    pairs.retain(|(k, _)| *k != FieldKey::OctetDeltaCount);
    pairs.push((FieldKey::OctetDeltaCount, FieldValue::Unsigned24(99)));
    let m = FieldMap::build(pairs);
    let obs = normalize(&m).expect("a 24-bit counter is accepted");
    assert_eq!(obs.bytes, 99);
}

#[test]
fn normalize_drops_on_each_missing_field() {
    let keep_one_of = [
        [FieldKey::SourceMacAddress, FieldKey::PostSourceMacAddress],
        [FieldKey::SourceIpv4Address, FieldKey::SourceIpv6Address],
        [FieldKey::SourceTransportPort, FieldKey::SourceTransportPort],
        [FieldKey::DestinationIpv4Address, FieldKey::DestinationIpv6Address],
        [FieldKey::DestinationTransportPort, FieldKey::DestinationTransportPort],
        [FieldKey::ProtocolIdentifier, FieldKey::ProtocolIdentifier],
        [FieldKey::PacketDeltaCount, FieldKey::PacketDeltaCount],
        [FieldKey::OctetDeltaCount, FieldKey::OctetDeltaCount],
        [FieldKey::FlowDirection, FieldKey::FlowDirection],
    ];
    for pair in keep_one_of.iter() {
        let mut pairs = full_record();
        pairs.retain(|(k, _)| *k != pair[0] && *k != pair[1]);
        let m = FieldMap::build(pairs);
        assert!(normalize(&m).is_none(), "missing {:?} must drop", pair[0]);
    }
}

#[test]
fn normalize_drops_on_wrong_shape() {
    let mut pairs = full_record();
    pairs.retain(|(k, _)| *k != FieldKey::SourceTransportPort);
    pairs.push((FieldKey::SourceTransportPort, FieldValue::Unsigned8(80)));
    let m = FieldMap::build(pairs);
    assert!(normalize(&m).is_none(), "a port must arrive 16 bits wide");

    let mut pairs = full_record();
    pairs.retain(|(k, _)| *k != FieldKey::SourceMacAddress);
    pairs.push((FieldKey::SourceMacAddress, mac_text("not hex")));
    let m = FieldMap::build(pairs);
    assert!(normalize(&m).is_none(), "unparseable hardware address text must drop");
}

#[test]
fn classifier_direction_roles() {
    let m = FieldMap::build(full_record());
    let upload = normalize(&m).unwrap();
    let role = classify(&upload);
    assert!(!role.is_download);
    assert_eq!(role.client_address, upload.source_address);
    assert_eq!(role.client_port, 5000);
    assert_eq!(role.server_address, upload.destination_address);
    assert_eq!(role.server_port, 443);

    let download = FlowObservation { direction: 0, ..upload };
    let role = classify(&download);
    assert!(role.is_download);
    assert_eq!(role.client_address, download.destination_address);
    assert_eq!(role.client_port, 443);
    assert_eq!(role.server_address, download.source_address);
    assert_eq!(role.server_port, 5000);

    let other = FlowObservation { direction: 255, ..upload };
    assert!(!classify(&other).is_download);
}

#[test]
fn cache_learns_from_upload_only() {
    let mut cache = EndpointCache::new();
    let a = IpAddress::V4(0x0A000005);

    // an unlearned client resolves to the sentinel, and stays unlearned
    assert_eq!(cache.resolve(a, true, 0x999999999999), 0);
    assert_eq!(cache.resolve(a, true, 0x999999999999), 0);

    // an upload teaches the table; a later download resolves to it
    assert_eq!(cache.resolve(a, false, 0xAABBCCDDEEFF), 0xAABBCCDDEEFF);
    assert_eq!(cache.resolve(a, true, 0x999999999999), 0xAABBCCDDEEFF);
}

#[test]
fn cache_overwrites_with_most_recent() {
    let mut cache = EndpointCache::new();
    let a = IpAddress::V4(0x0A000005);
    cache.resolve(a, false, 0x111111111111);
    cache.resolve(a, false, 0x222222222222);
    assert_eq!(cache.resolve(a, true, 0), 0x222222222222);
}

#[test]
fn cache_keys_are_independent() {
    let mut cache = EndpointCache::new();
    let a = IpAddress::V4(1);
    let b = IpAddress::V4(2);
    let c = IpAddress::V6(1);
    cache.resolve(a, false, 0xA);
    cache.resolve(c, false, 0xC);
    assert_eq!(cache.resolve(a, true, 0), 0xA);
    assert_eq!(cache.resolve(b, true, 0), 0);
    assert_eq!(cache.resolve(c, true, 0), 0xC);
}

#[test]
fn counters_add_exactly() {
    let mut counters = TrafficCounters::new();
    counters.increment(0xAABBCCDDEEFF, 1000);
    counters.increment(0xAABBCCDDEEFF, 24);
    counters.increment(0x112233445566, 7);
    let mut snap = counters.snapshot();
    snap.sort();
    assert_eq!(snap, vec![(0x112233445566, 7), (0xAABBCCDDEEFF, 1024)]);
}

#[test]
fn counters_saturate_at_cap() {
    let mut counters = TrafficCounters::new();
    counters.increment(5, u64::MAX - 1);
    counters.increment(5, 10);
    assert_eq!(counters.snapshot(), vec![(5, u64::MAX)]);
}

fn sample_row(tag: u32) -> CanonicalRow {
    let m = FieldMap::build(full_record());
    let obs = normalize(&m).unwrap();
    let role = classify(&obs);
    CanonicalRow::new(7, 0xAABBCCDDEEFF, &role, 6, tag, 500)
}

#[test]
fn row_populates_exactly_one_family_per_side() {
    let role = flowpipe::classify::RoleAssignment {
        client_address: IpAddress::V4(0x0A000005),
        client_port: 5000,
        server_address: IpAddress::V6(0xFE80_0000_0000_0000_0000_0000_0000_0001),
        server_port: 443,
        is_download: false,
    };
    let row = CanonicalRow::new(7, 1, &role, 6, 1, 1);
    assert_eq!(row.client_ipv4, 0x0A000005);
    assert_eq!(row.client_ipv6, 0);
    assert_eq!(row.server_ipv4, 0);
    assert_eq!(row.server_ipv6, 0xFE80_0000_0000_0000_0000_0000_0000_0001);
}

#[test]
fn sink_flushes_on_row_threshold() {
    let mut sink = BatchedSink::new(u64::MAX, 3, 1_000_000, 0);
    let r1 = sample_row(1);
    let r2 = sample_row(2);
    let r3 = sample_row(3);
    sink.write(r1);
    assert!(sink.flush_due(1).is_none());
    sink.write(r2);
    assert!(sink.flush_due(1).is_none());
    sink.write(r3);
    let batch = sink.flush_due(1).expect("three rows reach the row threshold");
    assert_eq!(batch, vec![r1, r2, r3]);
    assert!(sink.flush_due(1).is_none(), "one threshold crossing flushes once");
}

#[test]
fn sink_flushes_on_time_threshold() {
    let mut sink = BatchedSink::new(u64::MAX, 100, 5, 0);
    let r1 = sample_row(1);
    let r2 = sample_row(2);
    sink.write(r1);
    sink.write(r2);
    assert!(sink.flush_due(4).is_none());
    let batch = sink.flush_due(5).expect("the period has passed");
    assert_eq!(batch, vec![r1, r2]);
}

#[test]
fn sink_flushes_on_byte_threshold() {
    let mut sink = BatchedSink::new(140, 100, 1_000_000, 0);
    let r1 = sample_row(1);
    let r2 = sample_row(2);
    sink.write(r1);
    assert!(sink.flush_due(0).is_none(), "seventy bytes stay under the threshold");
    sink.write(r2);
    let batch = sink.flush_due(0).expect("two rows reach the byte threshold");
    assert_eq!(batch, vec![r1, r2]);
}

#[test]
fn sink_drain_returns_everything() {
    let mut sink = BatchedSink::new(u64::MAX, 100, 1_000_000, 0);
    let r1 = sample_row(1);
    sink.write(r1);
    assert_eq!(sink.drain(9), vec![r1]);
    assert_eq!(sink.drain(9), vec![]);
}
