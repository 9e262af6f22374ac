//! A regression-testing harness for non-functional properties: it measures
//! heap-allocation behaviour and wall-clock latency of a closure, compares the
//! measurement against a stored baseline under configurable tolerance
//! policies, and reports which quantity regressed.

pub mod memory;
pub mod perf;
pub mod threshold;
