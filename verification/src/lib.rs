//! Telemetry contract for CME/FIX-style trading systems: the event model,
//! deterministic validation, a validating JSONL framer, and the KPI
//! accumulator used to read a trace back.

pub mod ieee;
pub mod enums;
pub mod ids;
pub mod timestamps;
pub mod events;
pub mod validate;
pub mod writer;
pub mod kpi;
pub mod telemetry;
pub mod config;
pub mod quant;
pub mod cache;

pub use events::{TelemetryEnvelope, SCHEMA_VERSION};
