//! Measurement engine of a terminal network speed test: probe results held as
//! exact integers, the aggregation of latency samples, and the state machine
//! that runs the latency, download and upload probes one after the other.

pub mod latency;
pub mod http_tester;
pub mod services;
pub mod servers;
