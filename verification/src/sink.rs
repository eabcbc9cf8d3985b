//! Batched sink: accumulates canonical rows and hands them back as one
//! batch, in write order, when any of the byte-size, row-count or time
//! thresholds is reached. The caller commits the batch to the durable
//! store; a failed commit is the caller's to log and drop, so persistent
//! store outages never halt ingestion.

use vstd::prelude::*;

use crate::row::CanonicalRow;

verus! {

/// The serialized width of one row in the durable store's columnar layout:
/// the widths of its twelve columns added up.
pub const ROW_WIRE_BYTES: u64 = 70;

/// Rows waiting to be committed, with the flush thresholds and the time of
/// the last flush.
pub struct BatchedSink {
    pub rows: Vec<CanonicalRow>,
    pub max_bytes: u64,
    pub max_rows: usize,
    pub period: u64,
    pub last_flush: u64,
}

/// Whether a flush is due at time `now`: the buffer holds at least the row
/// threshold, its serialized size reaches the byte threshold, or at least
/// the period has passed since the last flush.
pub open spec fn spec_due(s: BatchedSink, now: u64) -> bool {
    ||| s.rows@.len() >= s.max_rows
    ||| s.rows@.len() * ROW_WIRE_BYTES >= s.max_bytes
    ||| now.saturating_sub(s.last_flush) >= s.period
}

/// Whether a flush would be due at time `now` once `extra` more rows stand
/// in the buffer: `spec_due` of the sink after that many writes.
pub open spec fn spec_due_with(s: BatchedSink, extra: nat, now: u64) -> bool {
    ||| s.rows@.len() + extra >= s.max_rows
    ||| (s.rows@.len() + extra) * ROW_WIRE_BYTES >= s.max_bytes
    ||| now.saturating_sub(s.last_flush) >= s.period
}

impl BatchedSink {
    /// A sink with nothing buffered, flushing when `max_bytes` of rows,
    /// `max_rows` rows, or `period` seconds since `now` accumulate.
    pub fn new(max_bytes: u64, max_rows: usize, period: u64, now: u64) -> (s: BatchedSink)
        ensures
            s.rows@ =~= Seq::<CanonicalRow>::empty(),
            s.max_bytes == max_bytes,
            s.max_rows == max_rows,
            s.period == period,
            s.last_flush == now,
    {
        BatchedSink { rows: Vec::new(), max_bytes, max_rows, period, last_flush: now }
    }

    /// Appends one fully formed row behind those already buffered. Never
    /// drops or reorders: the buffer is the rows written since the last
    /// flush, in write order.
    pub fn write(&mut self, row: CanonicalRow)
        ensures
            final(self).rows@ == old(self).rows@.push(row),
            final(self).max_bytes == old(self).max_bytes,
            final(self).max_rows == old(self).max_rows,
            final(self).period == old(self).period,
            final(self).last_flush == old(self).last_flush,
    {
        self.rows.push(row);
    }

    /// Whether a flush is due at time `now`.
    pub fn is_due(&self, now: u64) -> (r: bool)
        ensures
            r == spec_due(*self, now),
    {
        if self.rows.len() >= self.max_rows {
            return true;
        }
        let size: u128 = (self.rows.len() as u128) * (ROW_WIRE_BYTES as u128);
        if size >= self.max_bytes as u128 {
            return true;
        }
        now.saturating_sub(self.last_flush) >= self.period
    }

    /// Flushes if a threshold is reached at time `now`: returns every
    /// buffered row, in write order, leaves the buffer empty and restarts
    /// the period. With nothing buffered a due flush only restarts the
    /// period. Returns `None`, changing nothing, when no threshold is
    /// reached.
    pub fn flush_due(&mut self, now: u64) -> (batch: Option<Vec<CanonicalRow>>)
        ensures
            final(self).max_bytes == old(self).max_bytes,
            final(self).max_rows == old(self).max_rows,
            final(self).period == old(self).period,
            spec_due(*old(self), now) && old(self).rows@.len() > 0 ==> (batch matches Some(b)
                && b@ == old(self).rows@ && final(self).rows@.len() == 0
                && final(self).last_flush == now),
            spec_due(*old(self), now) && old(self).rows@.len() == 0 ==> (batch is None
                && final(self).rows@.len() == 0 && final(self).last_flush == now),
            !spec_due(*old(self), now) ==> (batch is None && *final(self) == *old(self)),
    {
        if !self.is_due(now) {
            return None;
        }
        self.last_flush = now;
        if self.rows.len() == 0 {
            return None;
        }
        let mut batch: Vec<CanonicalRow> = Vec::new();
        core::mem::swap(&mut batch, &mut self.rows);
        Some(batch)
    }

    /// Forced flush, for shutdown: returns every buffered row, in write
    /// order, whether or not a threshold is reached.
    pub fn drain(&mut self, now: u64) -> (batch: Vec<CanonicalRow>)
        ensures
            batch@ == old(self).rows@,
            final(self).rows@.len() == 0,
            final(self).last_flush == now,
            final(self).max_bytes == old(self).max_bytes,
            final(self).max_rows == old(self).max_rows,
            final(self).period == old(self).period,
    {
        self.last_flush = now;
        let mut batch: Vec<CanonicalRow> = Vec::new();
        core::mem::swap(&mut batch, &mut self.rows);
        batch
    }
}

/// Law: once the row threshold many rows are written, a flush is due,
/// whatever the clock says.
pub proof fn lemma_row_threshold_due(s: BatchedSink, now: u64)
    requires
        s.rows@.len() >= s.max_rows,
    ensures
        spec_due(s, now),
{
}

/// Law: once the buffered rows' serialized size reaches the byte
/// threshold, a flush is due, whatever the clock says.
pub proof fn lemma_byte_threshold_due(s: BatchedSink, now: u64)
    requires
        s.rows@.len() * ROW_WIRE_BYTES >= s.max_bytes,
    ensures
        spec_due(s, now),
{
}

/// Law: once the period has passed since the last flush, a flush is due,
/// however few rows are buffered.
pub proof fn lemma_period_due(s: BatchedSink, now: u64)
    requires
        now >= s.last_flush,
        now - s.last_flush >= s.period,
    ensures
        spec_due(s, now),
{
}

} // verus!
