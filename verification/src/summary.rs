//! The aggregate host summary.
//!
//! Combines the second rate sample (CPU shares), the memory-status figures,
//! the monotonic uptime counter, descriptive host facts and the disk records
//! into one summary. Boot time is derived as now minus uptime, accepting the
//! small error of the two non-atomic reads. Memory accounting keeps
//! `used = total - free`, clamped at zero.

use vstd::prelude::*;

use crate::disk::{spec_used, DiskInfo};
use crate::rate::RateMetrics;
use crate::sanitize::{decode_if_encoded, decode_spec};
use crate::textfmt::{
    format_percent_tenths, format_uptime, spec_percent_tenths, spec_uptime_text,
};

verus! {

/// The aggregate host facts of one snapshot.
pub struct SystemInfo {
    /// Average CPU share over all cores, formatted with one decimal place.
    pub cpu_total: String,
    /// Per-core CPU shares in hundredths of a percent, all drawn from the
    /// same two-sample window as the total.
    pub cpu_per_core: Vec<u32>,
    pub memory_total_mb: u64,
    pub memory_used_mb: u64,
    pub memory_free_mb: u64,
    /// Used share of memory, formatted with one decimal place.
    pub memory_percent: String,
    /// Uptime rendered as hours and minutes.
    pub uptime: String,
    pub uptime_secs: u64,
    pub process_count: usize,
    pub cpu_base_speed_mhz: u64,
    pub cpu_logical_processors: u32,
    pub cpu_vendor: String,
    pub cpu_brand: String,
    pub cpu_physical_cores: u32,
    pub disks: Vec<DiskInfo>,
    pub os_name: String,
    pub os_version: String,
    pub os_build: String,
    pub hostname: String,
    /// Seconds since the epoch, derived as now minus uptime.
    pub boot_time: u64,
}

/// The raw facts the summary is built from, as the queries report them.
pub struct SummaryInputs {
    /// Rates derived from the two-sample window.
    pub rates: RateMetrics,
    /// Physical memory in bytes.
    pub memory_total: u64,
    /// Free physical memory in bytes.
    pub memory_free: u64,
    /// Uptime of the host in milliseconds, from the monotonic tick counter.
    pub uptime_ms: u64,
    /// Seconds since the epoch at (about) the time of the query.
    pub now_secs: u64,
    pub process_count: usize,
    pub cpu_base_speed_mhz: u64,
    pub cpu_logical_processors: u32,
    pub cpu_vendor: String,
    pub cpu_brand: String,
    pub cpu_physical_cores: u32,
    pub disks: Vec<DiskInfo>,
    pub os_name: String,
    pub os_version: String,
    pub os_build: String,
    pub hostname: String,
}

/// The used share of memory in tenths of a percent (floor; zero where the
/// total is zero).
pub open spec fn spec_mem_percent_tenths(used_mb: u64, total_mb: u64) -> int {
    if total_mb == 0 {
        0
    } else {
        used_mb * 1000 / (total_mb as int)
    }
}

/// Builds the host summary from the raw query results. Memory is conserved:
/// used plus free equals total (within clamping at zero, for the case of a
/// free figure exceeding the total between two non-atomic reads). Every
/// free-text field passes through the text sanitizer before the summary is
/// final.
pub fn get_system_info(inp: SummaryInputs) -> (s: SystemInfo)
    ensures
        s.cpu_total@ == spec_percent_tenths((inp.rates.total_hundredths / 10) as int),
        s.cpu_per_core == inp.rates.per_core_hundredths,
        s.memory_total_mb == inp.memory_total / 1024 / 1024,
        s.memory_free_mb == inp.memory_free / 1024 / 1024,
        s.memory_used_mb == spec_used(s.memory_total_mb, s.memory_free_mb),
        s.memory_free_mb <= s.memory_total_mb ==> s.memory_used_mb + s.memory_free_mb
            == s.memory_total_mb,
        s.memory_percent@ == spec_percent_tenths(
            spec_mem_percent_tenths(s.memory_used_mb, s.memory_total_mb),
        ),
        s.uptime_secs == inp.uptime_ms / 1000,
        s.uptime@ == spec_uptime_text(
            (s.uptime_secs / 3600) as int,
            ((s.uptime_secs % 3600) / 60) as int,
        ),
        s.boot_time == (if inp.now_secs >= s.uptime_secs {
            (inp.now_secs - s.uptime_secs) as u64
        } else {
            0u64
        }),
        s.process_count == inp.process_count,
        s.cpu_base_speed_mhz == inp.cpu_base_speed_mhz,
        s.cpu_logical_processors == inp.cpu_logical_processors,
        s.cpu_vendor@ == decode_spec(inp.cpu_vendor@),
        s.cpu_brand@ == decode_spec(inp.cpu_brand@),
        s.cpu_physical_cores == inp.cpu_physical_cores,
        s.disks == inp.disks,
        s.os_name@ == decode_spec(inp.os_name@),
        s.os_version@ == decode_spec(inp.os_version@),
        s.os_build@ == decode_spec(inp.os_build@),
        s.hostname@ == decode_spec(inp.hostname@),
{
    let memory_total_mb = inp.memory_total / 1024 / 1024;
    let memory_free_mb = inp.memory_free / 1024 / 1024;
    let memory_used_mb = if memory_free_mb <= memory_total_mb {
        memory_total_mb - memory_free_mb
    } else {
        0
    };
    let mem_tenths: u64 = if memory_total_mb == 0 {
        0
    } else {
        (((memory_used_mb as u128) * 1000) / (memory_total_mb as u128)) as u64
    };
    proof {
        if memory_total_mb != 0 {
            assert((memory_used_mb as int) * 1000 / (memory_total_mb as int) <= 1000)
                by (nonlinear_arith)
                requires
                    0 <= memory_used_mb <= memory_total_mb,
                    0 < memory_total_mb,
            ;
        }
    }
    let memory_percent = format_percent_tenths(mem_tenths);
    let uptime_secs = inp.uptime_ms / 1000;
    let uptime = format_uptime(uptime_secs / 3600, (uptime_secs % 3600) / 60);
    let boot_time = if inp.now_secs >= uptime_secs {
        inp.now_secs - uptime_secs
    } else {
        0
    };
    let cpu_total = format_percent_tenths((inp.rates.total_hundredths / 10) as u64);
    let cpu_vendor = decode_if_encoded(inp.cpu_vendor.as_str());
    let cpu_brand = decode_if_encoded(inp.cpu_brand.as_str());
    let os_name = decode_if_encoded(inp.os_name.as_str());
    let os_version = decode_if_encoded(inp.os_version.as_str());
    let os_build = decode_if_encoded(inp.os_build.as_str());
    let hostname = decode_if_encoded(inp.hostname.as_str());
    SystemInfo {
        cpu_total,
        cpu_per_core: inp.rates.per_core_hundredths,
        memory_total_mb,
        memory_used_mb,
        memory_free_mb,
        memory_percent,
        uptime,
        uptime_secs,
        process_count: inp.process_count,
        cpu_base_speed_mhz: inp.cpu_base_speed_mhz,
        cpu_logical_processors: inp.cpu_logical_processors,
        cpu_vendor,
        cpu_brand,
        cpu_physical_cores: inp.cpu_physical_cores,
        disks: inp.disks,
        os_name,
        os_version,
        os_build,
        hostname,
        boot_time,
    }
}

} // verus!
