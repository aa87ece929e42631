//! A durable, batched telemetry buffer: rows of observed events are collected
//! into columnar batches, and each finished batch is handed to a spool
//! directory from which a separate consumer picks it up.
//!
//! - [`traits`]: what a row builder offers to the batching writer.
//! - [`exec`]: the table of process executions and its builder.
//! - [`telemetry`]: the batching writer, which decides when a batch leaves.
//! - [`spool`]: the layout of the spool, the names of its files, and the
//!   estimate of the disk space it takes.
//! - [`bridge`]: the handle that a host process drives.
//!
//! Nothing here touches the disk. A batch that leaves comes back to the
//! caller as a [`spool::writer::Publication`], which says what to write and
//! where; a directory is measured from an [`spool::Entry`] that the caller
//! has read.

pub mod bridge;
pub mod exec;
pub mod spool;
pub mod telemetry;
pub mod traits;
