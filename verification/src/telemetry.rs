//! Telemetry writers over a spool.

pub mod writer;
