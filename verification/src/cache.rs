//! The snapshot cache: one handle type per independent provider resource.
//!
//! Each handle owns its provider resource outright, and each snapshot
//! operation takes the handle by `&mut`, so one whole refresh-then-read
//! sequence holds exclusive access to that resource and two sequences on one
//! handle can never interleave.  The two handle types are independent: a
//! caller of one never contends with a caller of the other.  A caller that
//! needs to share a handle across concurrent tasks wraps it in the
//! mutual-exclusion primitive of its runtime and holds the guard for exactly
//! one call.

use vstd::prelude::*;

use crate::provider;
use crate::provider::cpu_usage_bits;
use crate::provider::disk_probes;
use crate::snapshot::CPUUsage;
use crate::snapshot::DiskInfo;
use crate::snapshot::MetricsError;
use crate::snapshot::collect_spec;
use crate::snapshot::cpu_result;
use crate::snapshot::disk_result;

verus! {

/// The process-wide CPU telemetry handle.
pub struct CpuHandle {
    sys: sysinfo::System,
}

/// The process-wide disk telemetry handle, independent of the CPU handle.
pub struct DiskHandle {
    disks: sysinfo::Disks,
}

impl CpuHandle {
    /// The provider resource this handle owns.
    pub closed spec fn sys(self) -> sysinfo::System {
        self.sys
    }

    /// Creates the one CPU handle of the process.
    pub fn new() -> (h: CpuHandle) {
        CpuHandle { sys: provider::system_new_all() }
    }

    /// Refreshes the CPU usage and reads uptime and per-core usage within
    /// the same exclusive borrow, so no other refresh of this handle can
    /// interleave between the refresh and the read.  The provider's refresh
    /// primitive cannot signal failure, so a snapshot is always owed: its
    /// per-core sequence is exactly what the refreshed handle holds, never a
    /// stale or zeroed substitute.
    pub fn get_cpu_snapshot(&mut self) -> (r: Result<CPUUsage, MetricsError>)
        ensures
            r is Ok,
            r->Ok_0.cpu_usage@ == cpu_usage_bits(final(self).sys()),
    {
        provider::system_refresh_cpu(&mut self.sys);
        let uptime = provider::system_uptime();
        let bits = provider::system_cpu_usage_bits(&self.sys);
        cpu_result(true, uptime, bits)
    }
}

impl DiskHandle {
    /// The provider resource this handle owns.
    pub closed spec fn disks(self) -> sysinfo::Disks {
        self.disks
    }

    /// Creates the one disk handle of the process.
    pub fn new() -> (h: DiskHandle) {
        DiskHandle { disks: provider::disks_new_refreshed() }
    }

    /// Re-enumerates the disks and reads the list within the same exclusive
    /// borrow, under the same discipline as the CPU path.  The provider's
    /// refresh primitive cannot signal failure, so a snapshot is always
    /// owed: exactly the admissible records of the refreshed handle,
    /// converted, in enumeration order — an empty enumeration is a valid,
    /// empty snapshot, not an error.
    pub fn get_disk_snapshot(&mut self) -> (r: Result<Vec<DiskInfo>, MetricsError>)
        ensures
            r is Ok,
            r->Ok_0@ == collect_spec(disk_probes(final(self).disks())),
    {
        provider::disks_refresh(&mut self.disks);
        let probes = provider::disks_read_probes(&self.disks);
        disk_result(true, probes)
    }
}

} // verus!
