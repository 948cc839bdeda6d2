//! Throughput counters for a micro-benchmark harness.
//!
//! A benchmark declares how much work one iteration performs — a number of
//! bytes, Unicode code points, or abstract items — by registering a counter.
//! Strongly-typed counter values are erased into a uniform tagged
//! representation so a reporting layer can hold whatever counters were
//! registered without knowing their concrete kind.

mod sealed;

pub mod config;
pub mod counter;
