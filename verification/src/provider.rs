//! The OS metrics provider: trusted declarations of the `sysinfo` handles the
//! library owns, and thin wrappers around the provider calls it makes.
//!
//! Every reading depends on the state of the machine at the moment of the
//! call, so no wrapper promises anything about the values themselves; the
//! two `uninterp` names below only tie what a read hands out to what the
//! handle holds, so that a snapshot can be pinned to the handle it was read
//! from.

use vstd::prelude::*;

use crate::snapshot::DiskProbe;

verus! {

#[verifier::external_type_specification]
#[verifier::external_body]
pub struct ExSystem(sysinfo::System);

#[verifier::external_type_specification]
#[verifier::external_body]
pub struct ExDisks(sysinfo::Disks);

#[verifier::external_type_specification]
#[verifier::external_body]
pub struct ExDisk(sysinfo::Disk);

/// What a `sysinfo::System` handle holds per logical core, in stable core
/// order: the last refreshed usage percentage, as its raw bit pattern.
pub uninterp spec fn cpu_usage_bits(sys: sysinfo::System) -> Seq<u32>;

/// What a `sysinfo::Disks` handle holds, in enumeration order: one probe per
/// listed disk, its textual fields decoded where possible.
pub uninterp spec fn disk_probes(disks: sysinfo::Disks) -> Seq<DiskProbe>;

/// Relies on `sysinfo::System::new_all`: a fresh handle with every metric
/// category loaded once.
#[verifier::external_body]
pub(crate) fn system_new_all() -> sysinfo::System {
    sysinfo::System::new_all()
}

/// Relies on `sysinfo::System::refresh_cpu_usage`: re-samples the per-core
/// usage in place.  What the handle holds afterwards depends on the machine,
/// so nothing is promised of it.
#[verifier::external_body]
pub(crate) fn system_refresh_cpu(sys: &mut sysinfo::System) {
    sys.refresh_cpu_usage();
}

/// Relies on `sysinfo::System::cpus` and `sysinfo::Cpu::cpu_usage`: hands out
/// exactly the per-core usage the handle holds, in core order, each reading
/// converted to its raw bit pattern.
#[verifier::external_body]
pub(crate) fn system_cpu_usage_bits(sys: &sysinfo::System) -> (r: Vec<u32>)
    ensures
        r@ == cpu_usage_bits(*sys),
{
    sys.cpus().iter().map(|c| c.cpu_usage().to_bits()).collect()
}

/// Relies on `sysinfo::System::uptime`: seconds since boot, computed from the
/// OS clock at every call, so nothing is promised of the value.
#[verifier::external_body]
pub(crate) fn system_uptime() -> (r: u64) {
    sysinfo::System::uptime()
}

/// Relies on `sysinfo::Disks::new_with_refreshed_list`: a fresh handle whose
/// disk list has been enumerated once.
#[verifier::external_body]
pub(crate) fn disks_new_refreshed() -> sysinfo::Disks {
    sysinfo::Disks::new_with_refreshed_list()
}

/// Relies on `sysinfo::Disks::refresh`: re-enumerates the mounted disks in
/// place, dropping devices that are no longer listed.  The resulting list
/// depends on the machine, so nothing is promised of it.
#[verifier::external_body]
pub(crate) fn disks_refresh(disks: &mut sysinfo::Disks) {
    disks.refresh(true);
}

/// Relies on `sysinfo::Disks::list` and the `sysinfo::Disk` getters `name`,
/// `mount_point`, `total_space` and `available_space`: hands out exactly the
/// records the handle holds, in enumeration order; a name or mount point
/// whose bytes are not valid UTF-8 becomes `None`.
#[verifier::external_body]
pub(crate) fn disks_read_probes(disks: &sysinfo::Disks) -> (r: Vec<DiskProbe>)
    ensures
        r@ == disk_probes(*disks),
{
    disks.list().iter().map(
        |d| DiskProbe {
            name: d.name().to_str().map(|s| s.to_string()),
            mount_point: d.mount_point().to_str().map(|s| s.to_string()),
            total_space: d.total_space(),
            available_space: d.available_space(),
        },
    ).collect()
}

} // verus!
