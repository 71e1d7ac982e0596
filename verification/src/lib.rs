//! Request metrics for an HTTP server: a count and a duration histogram per
//! (method, handler, status code), kept in a Prometheus registry and rendered
//! on a scrape endpoint.

pub mod backend;
pub mod collector;
pub mod history;
pub mod interceptor;
pub mod naming;
pub mod status;
pub mod tally;
pub mod text;

pub use collector::{BuildError, BuildStep, HttpMetricsCollector, HttpMetricsCollectorBuilder};
pub use status::StatusCode;
