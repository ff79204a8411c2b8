//! Raw readings handed in by the caller once per sampling cycle.
//!
//! The caller refreshes its operating-system probes and copies the values of
//! interest into these plain records; everything the library derives from
//! them is then exact integer arithmetic over what stands here.

use vstd::prelude::*;

verus! {

/// Space accounting of one mounted filesystem, in bytes.
pub struct DiskSpace {
    pub mount_point: String,
    pub total_space: u64,
    pub available_space: u64,
}

/// Cumulative traffic counters of one network interface, in bytes since the
/// interface (or its counters) came up.
pub struct IfaceCounters {
    pub name: String,
    pub received: u64,
    pub transmitted: u64,
}

/// One thermal sensor: its label and its temperature in whole degrees
/// Celsius.
pub struct SensorReading {
    pub label: String,
    pub temperature_c: i64,
}

/// Everything one sampling cycle reads from the host.
///
/// `cpu_loads` holds one entry per core, in tenths of a percent.
pub struct MetricsReading {
    pub cpu_loads: Vec<u64>,
    pub used_memory: u64,
    pub total_memory: u64,
    pub used_swap: u64,
    pub total_swap: u64,
    pub disks: Vec<DiskSpace>,
    pub networks: Vec<IfaceCounters>,
    pub components: Vec<SensorReading>,
}

} // verus!
