//! The system snapshot: memory and swap in megabytes, operating system,
//! architecture and processor count.

use vstd::prelude::*;
use crate::helpers::bytes_to_megabytes;
use crate::helpers::megabytes_of;

verus! {

/// What the operating system reports about the host, sizes in bytes.
#[derive(Clone, Debug, PartialEq, Eq)]
pub struct SystemCounters {
    pub total_memory_bytes: u64,
    pub used_memory_bytes: u64,
    pub total_swap_bytes: u64,
    pub used_swap_bytes: u64,
    pub arch: Option<String>,
    pub os: String,
    pub os_version: Option<String>,
    pub cpu_count: usize,
}

/// The system snapshot of a report, sizes in megabytes.
#[derive(Clone, Debug, PartialEq, Eq)]
pub struct CpuInfo {
    pub total_memory: u64,
    pub used_memory: u64,
    pub total_swap: u64,
    pub used_swap: u64,
    pub arch: Option<String>,
    pub os: String,
    pub os_version: Option<String>,
    pub cpu_count: usize,
}

/// The snapshot that belongs to a set of counters: every size converted to
/// megabytes, everything else as it was reported.
pub open spec fn cpu_info_of(counters: SystemCounters) -> CpuInfo {
    CpuInfo {
        total_memory: megabytes_of(counters.total_memory_bytes as nat) as u64,
        used_memory: megabytes_of(counters.used_memory_bytes as nat) as u64,
        total_swap: megabytes_of(counters.total_swap_bytes as nat) as u64,
        used_swap: megabytes_of(counters.used_swap_bytes as nat) as u64,
        arch: counters.arch,
        os: counters.os,
        os_version: counters.os_version,
        cpu_count: counters.cpu_count,
    }
}

/// Builds the system snapshot from the counters of the operating system.
pub fn get_cpu_info(counters: SystemCounters) -> (info: CpuInfo)
    ensures
        info == cpu_info_of(counters),
{
    CpuInfo {
        total_memory: bytes_to_megabytes(counters.total_memory_bytes),
        used_memory: bytes_to_megabytes(counters.used_memory_bytes),
        total_swap: bytes_to_megabytes(counters.total_swap_bytes),
        used_swap: bytes_to_megabytes(counters.used_swap_bytes),
        arch: counters.arch,
        os: counters.os,
        os_version: counters.os_version,
        cpu_count: counters.cpu_count,
    }
}

} // verus!
