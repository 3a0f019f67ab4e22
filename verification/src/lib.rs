//! An in-process metrics registry with a text exporter. The registry owns a
//! table of named instruments — histograms, gauges and gauge vectors — keeps
//! their names unique, and encodes a snapshot of all of them in the text
//! exposition format on every scrape. The instruments themselves come from
//! the prometheus crate; this library states and proves when building and
//! registering them succeeds, how the set of registered names evolves, and
//! that the observation helpers hand a wrapped operation's result back
//! unchanged.

pub mod gauge;
pub mod gauge_vec;
pub mod histogram;
pub mod names;
pub mod prom;
pub mod registry;

pub use gauge::Gauge;
pub use gauge_vec::GaugeVec;
pub use histogram::Histogram;
pub use registry::{Metrics, MetricsError, RegistryHandler};
