//! The ingestion pipeline for one decoded record: build the field map,
//! normalize, classify, resolve the client's hardware address against the
//! learning table, count download bytes, and buffer the canonical row,
//! flushing when a threshold is reached. A record that cannot be
//! normalized is dropped and counted, never a reason to halt ingestion.

use vstd::prelude::*;

use crate::cache::{spec_download_mac, EndpointCache, UNKNOWN_MAC};
use crate::classify::{classify, spec_classify, RoleAssignment};
use crate::counters::{spec_bump, TrafficCounters};
use crate::fields::{spec_field_map, FieldKey, FieldMap, FieldValue};
use crate::flow::{normalize, spec_normalize, FlowObservation};
use crate::row::{spec_row, CanonicalRow};
use crate::sink::{spec_due_with, BatchedSink};

verus! {

/// What one record led to: dropped for want of a required field, or
/// recorded, possibly with a batch the caller must now commit.
pub enum RecordOutcome {
    Dropped,
    Recorded { flushed: Option<Vec<CanonicalRow>> },
}

/// The observation a raw field list normalizes to, if any.
pub open spec fn spec_observation(pairs: Seq<(FieldKey, FieldValue)>) -> Option<FlowObservation> {
    spec_normalize(spec_field_map(pairs))
}

/// The hardware address one classified observation is attributed to: on
/// download the one learned for the client IP (or the sentinel), on upload
/// the observed source hardware address itself.
pub open spec fn spec_attributed_mac(
    learned: Map<crate::flow::IpAddress, u64>,
    role: RoleAssignment,
    obs: FlowObservation,
) -> u64 {
    if role.is_download {
        spec_download_mac(learned, role.client_address)
    } else {
        obs.source_mac
    }
}

/// The whole per-record state: the learning table, the counter family, the
/// batched sink, and the dropped-record diagnostic counter.
pub struct Pipeline {
    pub cache: EndpointCache,
    pub counters: TrafficCounters,
    pub sink: BatchedSink,
    pub dropped_records: u64,
}

impl Pipeline {
    /// Well-formed: both tables are.
    pub open spec fn inv(self) -> bool {
        self.cache.inv() && self.counters.inv()
    }

    /// A fresh pipeline: nothing learned, nothing counted, nothing
    /// buffered, nothing dropped.
    pub fn new(max_bytes: u64, max_rows: usize, period: u64, now: u64) -> (p: Pipeline)
        ensures
            p.inv(),
            p.cache@ == Map::<crate::flow::IpAddress, u64>::empty(),
            p.counters@ == Map::<u64, u64>::empty(),
            p.sink.rows@ =~= Seq::<CanonicalRow>::empty(),
            p.sink.max_bytes == max_bytes,
            p.sink.max_rows == max_rows,
            p.sink.period == period,
            p.sink.last_flush == now,
            p.dropped_records == 0,
    {
        Pipeline {
            cache: EndpointCache::new(),
            counters: TrafficCounters::new(),
            sink: BatchedSink::new(max_bytes, max_rows, period, now),
            dropped_records: 0,
        }
    }

    /// Processes one decoded record at time `now_secs` (seconds since
    /// epoch). When the record normalizes to no observation it is dropped:
    /// only the dropped-record counter moves. Otherwise the observation is
    /// classified; on upload the client's hardware address is learned, on
    /// download it is looked up and the byte counter for it grows by the
    /// record's byte count; the canonical row goes behind those already
    /// buffered, and the batch comes back when a threshold is reached.
    pub fn process_record(
        &mut self,
        fields_list: Vec<(FieldKey, FieldValue)>,
        now_secs: u64,
    ) -> (outcome: RecordOutcome)
        requires
            old(self).inv(),
            now_secs <= i64::MAX as u64,
        ensures
            final(self).inv(),
            final(self).sink.max_bytes == old(self).sink.max_bytes,
            final(self).sink.max_rows == old(self).sink.max_rows,
            final(self).sink.period == old(self).sink.period,
            spec_observation(fields_list@) is None ==> (outcome is Dropped
                && final(self).dropped_records == old(self).dropped_records.saturating_add(1)
                && final(self).cache@ == old(self).cache@ && final(self).counters@ == old(
                self,
            ).counters@ && final(self).sink.rows@ == old(self).sink.rows@
                && final(self).sink.last_flush == old(self).sink.last_flush),
            spec_observation(fields_list@) matches Some(obs) ==> ({
                let role = spec_classify(obs);
                let mac = spec_attributed_mac(old(self).cache@, role, obs);
                let row = spec_row(now_secs as i64, mac, role, obs.protocol, obs.packets, obs.bytes);
                let buffered = old(self).sink.rows@.push(row);
                let due = spec_due_with(old(self).sink, 1, now_secs);
                &&& final(self).dropped_records == old(self).dropped_records
                &&& final(self).cache@ == (if role.is_download {
                    old(self).cache@
                } else {
                    old(self).cache@.insert(role.client_address, obs.source_mac)
                })
                &&& final(self).counters@ == (if role.is_download {
                    spec_bump(old(self).counters@, mac, obs.bytes as u64)
                } else {
                    old(self).counters@
                })
                &&& outcome matches RecordOutcome::Recorded { flushed }
                &&& (due ==> (flushed matches Some(b) && b@ == buffered
                    && final(self).sink.rows@.len() == 0 && final(self).sink.last_flush
                    == now_secs))
                &&& (!due ==> (flushed is None && final(self).sink.rows@ == buffered
                    && final(self).sink.last_flush == old(self).sink.last_flush))
            }),
    {
        let map: FieldMap = FieldMap::build(fields_list);
        let obs: FlowObservation = match normalize(&map) {
            Some(o) => o,
            None => {
                self.dropped_records = self.dropped_records.saturating_add(1);
                return RecordOutcome::Dropped;
            },
        };
        let role: RoleAssignment = classify(&obs);
        let mac: u64 = self.cache.resolve(role.client_address, role.is_download, obs.source_mac);
        if role.is_download {
            self.counters.increment(mac, obs.bytes as u64);
        }
        let row = CanonicalRow::new(
            now_secs as i64,
            mac,
            &role,
            obs.protocol,
            obs.packets,
            obs.bytes,
        );
        self.sink.write(row);
        let flushed = self.sink.flush_due(now_secs);
        RecordOutcome::Recorded { flushed }
    }

    /// Forced flush, for shutdown: every buffered row, in write order.
    pub fn shutdown_flush(&mut self, now_secs: u64) -> (batch: Vec<CanonicalRow>)
        requires
            old(self).inv(),
        ensures
            final(self).inv(),
            batch@ == old(self).sink.rows@,
            final(self).sink.rows@.len() == 0,
            final(self).sink.last_flush == now_secs,
            final(self).sink.max_bytes == old(self).sink.max_bytes,
            final(self).sink.max_rows == old(self).sink.max_rows,
            final(self).sink.period == old(self).sink.period,
            final(self).cache@ == old(self).cache@,
            final(self).counters@ == old(self).counters@,
            final(self).dropped_records == old(self).dropped_records,
    {
        self.sink.drain(now_secs)
    }
}

/// Law: after an upload from client IP `client` carrying hardware
/// address `mac` has been processed, a download observation whose
/// client IP is `client` is attributed to exactly `mac`, whatever was
/// learned before.
pub proof fn lemma_learned_attribution(
    learned: Map<crate::flow::IpAddress, u64>,
    client: crate::flow::IpAddress,
    mac: u64,
    role: RoleAssignment,
    obs: FlowObservation,
)
    requires
        role.is_download,
        role.client_address == client,
    ensures
        spec_attributed_mac(learned.insert(client, mac), role, obs) == mac,
{
}

/// Law: a download observation whose client IP no upload ever taught
/// is attributed to the all-zero sentinel.
pub proof fn lemma_unlearned_attribution(
    learned: Map<crate::flow::IpAddress, u64>,
    role: RoleAssignment,
    obs: FlowObservation,
)
    requires
        role.is_download,
        !learned.dom().contains(role.client_address),
    ensures
        spec_attributed_mac(learned, role, obs) == UNKNOWN_MAC,
{
}

} // verus!
