//! A host-metrics sampling library: periodic resource samples (CPU, memory,
//! swap, filesystems, network throughput, temperature) collected into a
//! bounded, insertion-ordered history that readers can snapshot.
//!
//! The library itself is free of I/O: callers probe the operating system,
//! hand the raw readings over as plain values, and the library derives one
//! sample per cycle, throttles the expensive sub-metrics, and maintains the
//! fixed-capacity history window.
//!
//! All percentage-like quantities are carried as integer tenths of a percent
//! (573 means 57.3%), so every computation is exact integer arithmetic with
//! defined results at the division edge cases.

pub mod config;
pub mod fmt;
pub mod history;
pub mod rates;
pub mod reading;
pub mod sampler;
pub mod stats;
pub mod throttle;
