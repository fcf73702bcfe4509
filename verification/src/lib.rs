//! An industrial telemetry ingestion core.
//!
//! The library validates incoming machine-status records against structural,
//! field-level and cross-field constraints, buffers accepted records in a
//! bounded FIFO delivery queue with an explicit backpressure signal, decides
//! the ingestion outcome for each payload, and drives a per-record delivery
//! state machine with a bounded retry policy. All I/O (the HTTP surface and
//! the downstream sink) lives outside the library and hands it plain values.

pub mod record;
pub mod validate;
pub mod queue;
pub mod ingest;
pub mod dispatch;
