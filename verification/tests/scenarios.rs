use flowpipe::fields::{FieldKey, FieldValue};
use flowpipe::pipeline::{Pipeline, RecordOutcome};

fn mac_text(s: &str) -> FieldValue {
    FieldValue::Text(s.as_bytes().to_vec())
}

/// protocol 6, 10.0.0.5:5000 -> 93.184.216.34:443, source hardware address
/// aa:bb:cc:dd:ee:ff, direction 1 (upload), 500 bytes
fn upload_record() -> Vec<(FieldKey, FieldValue)> {
    vec![
        (FieldKey::SourceMacAddress, mac_text("aa:bb:cc:dd:ee:ff")),
        (FieldKey::SourceIpv4Address, FieldValue::V4(0x0A000005)),
        (FieldKey::SourceTransportPort, FieldValue::Unsigned16(5000)),
        (FieldKey::DestinationIpv4Address, FieldValue::V4(0x5DB8D822)),
        (FieldKey::DestinationTransportPort, FieldValue::Unsigned16(443)),
        (FieldKey::ProtocolIdentifier, FieldValue::Unsigned8(6)),
        (FieldKey::PacketDeltaCount, FieldValue::Unsigned32(4)),
        (FieldKey::OctetDeltaCount, FieldValue::Unsigned32(500)),
        (FieldKey::FlowDirection, FieldValue::Unsigned8(1)),
    ]
}

/// the answering direction: 93.184.216.34:443 -> 10.0.0.5:5000,
/// direction 0 (download), 20000 bytes; the exporter reports the remote
/// side's hardware address, which teaches nothing
fn download_record() -> Vec<(FieldKey, FieldValue)> {
    vec![
        (FieldKey::SourceMacAddress, mac_text("11:22:33:44:55:66")),
        (FieldKey::SourceIpv4Address, FieldValue::V4(0x5DB8D822)),
        (FieldKey::SourceTransportPort, FieldValue::Unsigned16(443)),
        (FieldKey::DestinationIpv4Address, FieldValue::V4(0x0A000005)),
        (FieldKey::DestinationTransportPort, FieldValue::Unsigned16(5000)),
        (FieldKey::ProtocolIdentifier, FieldValue::Unsigned8(6)),
        (FieldKey::PacketDeltaCount, FieldValue::Unsigned32(40)),
        (FieldKey::OctetDeltaCount, FieldValue::Unsigned32(20000)),
        (FieldKey::FlowDirection, FieldValue::Unsigned8(0)),
    ]
}

fn quiet_pipeline() -> Pipeline {
    Pipeline::new(u64::MAX, 1000, 1_000_000, 0)
}

#[test]
fn upload_then_download_attributes_and_counts() {
    let mut p = quiet_pipeline();

    match p.process_record(upload_record(), 100) {
        RecordOutcome::Recorded { flushed } => assert!(flushed.is_none()),
        RecordOutcome::Dropped => panic!("the upload record is complete"),
    }
    match p.process_record(download_record(), 101) {
        RecordOutcome::Recorded { flushed } => assert!(flushed.is_none()),
        RecordOutcome::Dropped => panic!("the download record is complete"),
    }

    let rows = p.shutdown_flush(102);
    assert_eq!(rows.len(), 2);

    let first = &rows[0];
    assert_eq!(first.insertion_time, 100);
    assert_eq!(first.client_mac, 0xAABBCCDDEEFF);
    assert_eq!(first.client_ipv4, 0x0A000005);
    assert_eq!(first.client_ipv6, 0);
    assert_eq!(first.client_port, 5000);
    assert_eq!(first.server_ipv4, 0x5DB8D822);
    assert_eq!(first.server_ipv6, 0);
    assert_eq!(first.server_port, 443);
    assert_eq!(first.protocol, 6);
    assert_eq!(first.bytes, 500);
    assert!(!first.is_download);

    let second = &rows[1];
    assert_eq!(second.insertion_time, 101);
    assert_eq!(second.client_mac, 0xAABBCCDDEEFF, "the learned address attributes the download");
    assert_eq!(second.client_ipv4, 0x0A000005);
    assert_eq!(second.client_port, 5000);
    assert_eq!(second.server_ipv4, 0x5DB8D822);
    assert_eq!(second.server_port, 443);
    assert_eq!(second.bytes, 20000);
    assert!(second.is_download);

    // only the download moved a counter, and by exactly its byte count
    assert_eq!(p.counters.snapshot(), vec![(0xAABBCCDDEEFF, 20000)]);
}

#[test]
fn upload_never_increments_counters() {
    let mut p = quiet_pipeline();
    p.process_record(upload_record(), 1);
    p.process_record(upload_record(), 2);
    assert_eq!(p.counters.snapshot(), vec![]);
}

#[test]
fn download_before_any_upload_uses_sentinel() {
    let mut p = quiet_pipeline();
    p.process_record(download_record(), 1);
    let rows = p.shutdown_flush(2);
    assert_eq!(rows.len(), 1);
    assert_eq!(rows[0].client_mac, 0, "nothing learned: the all-zero sentinel");
    assert_eq!(p.counters.snapshot(), vec![(0, 20000)]);
}

#[test]
fn dropped_record_does_not_halt_ingestion() {
    let mut p = quiet_pipeline();

    let mut broken = upload_record();
    broken.retain(|(k, _)| *k != FieldKey::OctetDeltaCount);
    match p.process_record(broken, 1) {
        RecordOutcome::Dropped => {}
        RecordOutcome::Recorded { .. } => panic!("a record missing its byte count must drop"),
    }
    assert_eq!(p.dropped_records, 1);

    match p.process_record(upload_record(), 2) {
        RecordOutcome::Recorded { .. } => {}
        RecordOutcome::Dropped => panic!("the well-formed record must still land"),
    }
    assert_eq!(p.dropped_records, 1);
    assert_eq!(p.shutdown_flush(3).len(), 1);
}

#[test]
fn pipeline_flushes_batch_on_row_threshold() {
    let mut p = Pipeline::new(u64::MAX, 3, 1_000_000, 0);
    for i in 0..2u64 {
        match p.process_record(upload_record(), i) {
            RecordOutcome::Recorded { flushed } => assert!(flushed.is_none()),
            RecordOutcome::Dropped => panic!("complete record"),
        }
    }
    match p.process_record(upload_record(), 2) {
        RecordOutcome::Recorded { flushed } => {
            let batch = flushed.expect("the third row reaches the threshold");
            assert_eq!(batch.len(), 3);
            assert_eq!(batch[0].insertion_time, 0);
            assert_eq!(batch[1].insertion_time, 1);
            assert_eq!(batch[2].insertion_time, 2);
        }
        RecordOutcome::Dropped => panic!("complete record"),
    }
    assert_eq!(p.shutdown_flush(3).len(), 0);
}
