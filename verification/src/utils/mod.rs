//! Utilities: clamping and profiling statistics.

pub mod math;
pub mod profiler;
