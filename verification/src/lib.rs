//! A periodic exporter of process metrics to a push gateway.
//!
//! The host application registers counters, gauges and histograms with the
//! process-wide metrics registry; this crate resolves the pusher's
//! configuration from environment-provided values, and drives an endless
//! cycle of collecting a snapshot, encoding it, delivering it over HTTP and
//! resting for the configured number of seconds.  The decisions of that
//! cycle — what to do with each collection or delivery outcome, what to log,
//! and how long to rest — are verified here; the host performs the actual
//! I/O and feeds the outcomes back in.

pub mod config;
pub mod decimal;
pub mod messages;
pub mod metrics;
pub mod pusher;

pub use pusher::MetricsPusher;
