//! Core of a live-telemetry desktop monitor: a bounded sliding window for
//! trend samples, an immutable system snapshot shared across display pages,
//! a registry of pages with a single active entry, a bounded FIFO delivery
//! channel with backpressure, the snapshot-source state machine, and the
//! dispatcher that fans every event out to every registered page.

pub mod app;
pub mod channel;
pub mod config;
pub mod history;
pub mod page;
pub mod registry;
pub mod snapshot;
pub mod source;
