//! Core of a flow-accounting pipeline: builds a field map from one decoded
//! flow record, normalizes it into a canonical observation, classifies the
//! client/server roles and the traffic direction, learns IP to hardware
//! address bindings from upload traffic, batches canonical rows for bulk
//! persistence, and aggregates per-endpoint byte counters.
//!
//! Datagram decoding, the durable store, and the metrics endpoint are
//! external collaborators: they hand this crate plain values and take plain
//! values back.

pub mod fields;
pub mod mac;
pub mod flow;
pub mod classify;
pub mod table;
pub mod cache;
pub mod counters;
pub mod row;
pub mod sink;
pub mod pipeline;
