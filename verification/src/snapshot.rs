//! The immutable aggregate of the latest sensor readings. A snapshot
//! is replaced wholesale on each successful poll tick and never
//! partially mutated; frequencies are carried in hundredths of a GHz
//! and temperatures in whole degrees Celsius.

use vstd::prelude::*;

verus! {

/// Latest readings from the sensor source. `gpu_temp` is `None` when
/// no GPU is present.
#[derive(Clone, Debug)]
pub struct TelemetrySnapshot {
    /// Usage percentage per core, each in `0..=100`.
    pub per_core_usage: Vec<u8>,
    /// CPU package temperature in degrees Celsius.
    pub cpu_temp: u8,
    /// GPU temperature in degrees Celsius, absent without a GPU.
    pub gpu_temp: Option<u8>,
    /// Total memory in MiB.
    pub mem_total_mb: u64,
    /// Used memory in MiB.
    pub mem_used_mb: u64,
    /// Current CPU frequency in hundredths of a GHz.
    pub freq_cur_centi_ghz: u64,
    /// Maximum CPU frequency in hundredths of a GHz.
    pub freq_max_centi_ghz: u64,
    /// Speed per fan in RPM.
    pub fan_rpm: Vec<u16>,
}

impl TelemetrySnapshot {
    /// The all-zero snapshot shown before the first successful poll.
    pub fn new() -> (r: Self)
        ensures
            r.per_core_usage@ == Seq::<u8>::empty(),
            r.cpu_temp == 0,
            r.gpu_temp is None,
            r.mem_total_mb == 0,
            r.mem_used_mb == 0,
            r.freq_cur_centi_ghz == 0,
            r.freq_max_centi_ghz == 0,
            r.fan_rpm@ == Seq::<u16>::empty(),
    {
        Self {
            per_core_usage: Vec::new(),
            cpu_temp: 0,
            gpu_temp: None,
            mem_total_mb: 0,
            mem_used_mb: 0,
            freq_cur_centi_ghz: 0,
            freq_max_centi_ghz: 0,
            fan_rpm: Vec::new(),
        }
    }
}

} // verus!
