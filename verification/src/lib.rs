//! Verified core of a telemetry event pipeline.
//!
//! Raw tracing events (logs, spans, metrics) are normalized into durable
//! records carrying time-ordered identifiers, encoded as JSON, and fanned out
//! to output sinks: a date-rotated file archive with age-based retention, and
//! a lazily-initialized metrics exporter that derives HTTP request metrics
//! from span records. The decision logic lives here, verified; the
//! surrounding I/O performs the actions this library computes.

use vstd::prelude::*;

pub mod dates;
pub mod event;
pub mod filesink;
pub mod ids;
pub mod metrics;
pub mod json;
pub mod pipeline;
pub mod record;
pub mod text;

verus! {

/// A key-value entry of a record's free-form attribute map.
pub struct FieldEntry {
    pub key: String,
    pub value: String,
}

} // verus!
