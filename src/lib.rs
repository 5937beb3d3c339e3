//! A bridge from span lifecycles (create, enter, exit, close) to metrics:
//! a table of live spans keyed by small integer handles, a per-span state
//! machine that counts entries and measures active time, and the emissions
//! (counters, timings, values) that a metrics sink should receive.
pub mod bridge;
mod clock;
pub mod emit;
pub mod laws;
pub mod names;
pub mod table;
pub mod tracker;
pub mod workload;

pub use bridge::{Fault, Metrics};
pub use emit::{Emission, MetricKind};
pub use tracker::MetricData;
