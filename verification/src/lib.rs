//! A small suite of throughput microbenchmarks: five fixed workloads, a
//! monotonic stopwatch around each, and a plain-text report of operations
//! per second and elapsed time.
//!
//! All arithmetic on measurements is exact integer arithmetic: elapsed time
//! is held in nanoseconds, throughput in hundredths of an operation per
//! second, and both are rounded to the nearest printed digit.

pub mod assumed;
pub mod bench;
pub mod clock;
pub mod decimal;
pub mod kernel;
pub mod measure;
pub mod report;
pub mod workload;
