//! Snapshot value types and the decision logic that turns raw provider
//! readings into snapshots or errors.

use vstd::prelude::*;

verus! {

/// One CPU snapshot: uptime plus the per-core usage percentages read in the
/// same refresh window.  Each percentage is carried as the raw bit pattern of
/// the provider's 32-bit reading, so the value crosses the library unchanged.
#[derive(Debug, Clone, PartialEq)]
pub struct CPUUsage {
    /// Seconds since boot at the time of the read.
    pub uptime_seconds: u64,
    /// Per-core usage, one entry per logical core, in stable core order.
    pub cpu_usage: Vec<u32>,
}

/// One disk record of a snapshot, fully converted to plain values.
#[derive(Debug, Clone, PartialEq)]
pub struct DiskInfo {
    pub name: String,
    pub mount_point: String,
    pub total_space: u64,
    pub available_space: u64,
}

/// One raw disk reading as the provider hands it out: a field whose bytes
/// could not be decoded into a string is `None`.
#[derive(Debug, Clone, PartialEq)]
pub struct DiskProbe {
    pub name: Option<String>,
    pub mount_point: Option<String>,
    pub total_space: u64,
    pub available_space: u64,
}

/// Why a snapshot, or a single record of one, could not be produced.
#[derive(Debug, Clone, Copy, PartialEq, Eq, Structural)]
pub enum MetricsError {
    /// The provider's refresh primitive signalled failure; no stale or
    /// zeroed data is substituted.
    ProviderUnavailable,
    /// A single provider record could not be converted to plain values;
    /// the record is skipped, the snapshot as a whole survives.
    MalformedDeviceData,
}

/// Turns one CPU reading into the snapshot owed to the caller.
///
/// `refresh_ok` is the outcome the provider's refresh primitive reported;
/// the reading is taken as a snapshot only when the refresh succeeded, and
/// is never replaced by stale or zeroed values otherwise.
pub fn cpu_result(refresh_ok: bool, uptime: u64, usage_bits: Vec<u32>) -> (r: Result<
    CPUUsage,
    MetricsError,
>)
    ensures
        refresh_ok ==> r is Ok && r->Ok_0.uptime_seconds == uptime && r->Ok_0.cpu_usage@
            == usage_bits@,
        !refresh_ok ==> r is Err && r->Err_0 == MetricsError::ProviderUnavailable,
{
    if refresh_ok {
        Ok(CPUUsage { uptime_seconds: uptime, cpu_usage: usage_bits })
    } else {
        Err(MetricsError::ProviderUnavailable)
    }
}

/// A probe is admissible when both of its textual fields decoded.
pub open spec fn probe_admissible(p: DiskProbe) -> bool {
    p.name is Some && p.mount_point is Some
}

/// The record an admissible probe converts to.
pub open spec fn probe_record(p: DiskProbe) -> DiskInfo {
    DiskInfo {
        name: p.name->Some_0,
        mount_point: p.mount_point->Some_0,
        total_space: p.total_space,
        available_space: p.available_space,
    }
}

/// The disk snapshot a sequence of probes yields: every admissible probe,
/// converted, in enumeration order; inadmissible probes are skipped.
pub open spec fn collect_spec(probes: Seq<DiskProbe>) -> Seq<DiskInfo>
    decreases probes.len(),
{
    if probes.len() == 0 {
        Seq::empty()
    } else {
        let init = collect_spec(probes.drop_last());
        if probe_admissible(probes.last()) {
            init.push(probe_record(probes.last()))
        } else {
            init
        }
    }
}

/// Converts one probe, or says exactly why it cannot be converted.
pub fn convert_disk_record(probe: DiskProbe) -> (r: Result<DiskInfo, MetricsError>)
    ensures
        probe_admissible(probe) <==> r is Ok,
        r is Ok ==> r->Ok_0 == probe_record(probe),
        r is Err ==> r->Err_0 == MetricsError::MalformedDeviceData,
{
    match (probe.name, probe.mount_point) {
        (Some(name), Some(mount_point)) => Ok(
            DiskInfo {
                name,
                mount_point,
                total_space: probe.total_space,
                available_space: probe.available_space,
            },
        ),
        _ => Err(MetricsError::MalformedDeviceData),
    }
}

/// Converts a whole enumeration of probes, skipping exactly the
/// inadmissible records and keeping the provider's order.
pub fn collect_disk_records(probes: Vec<DiskProbe>) -> (out: Vec<DiskInfo>)
    ensures
        out@ == collect_spec(probes@),
{
    let ghost all = probes@;
    let mut probes = probes;
    let mut out: Vec<DiskInfo> = Vec::new();
    let ghost mut done: int = 0;
    while probes.len() > 0
        invariant
            0 <= done <= all.len(),
            probes@ == all.skip(done),
            out@ == collect_spec(all.take(done)),
        decreases probes@.len(),
    {
        let probe = probes.remove(0);
        proof {
            assert(probe == all[done]);
            assert(probes@ =~= all.skip(done + 1));
            assert(all.take(done + 1).drop_last() =~= all.take(done));
            assert(all.take(done + 1).last() == all[done]);
        }
        match convert_disk_record(probe) {
            Ok(record) => {
                out.push(record);
            },
            Err(_) => {},
        }
        proof {
            done = done + 1;
        }
    }
    proof {
        assert(all.take(done) =~= all);
    }
    out
}

/// Turns one disk enumeration into the snapshot owed to the caller, under
/// the same refresh-outcome discipline as the CPU path: a successful refresh
/// yields the converted records (an empty enumeration is a valid, empty
/// snapshot), a failed refresh yields `ProviderUnavailable`.
pub fn disk_result(refresh_ok: bool, probes: Vec<DiskProbe>) -> (r: Result<
    Vec<DiskInfo>,
    MetricsError,
>)
    ensures
        refresh_ok ==> r is Ok && r->Ok_0@ == collect_spec(probes@),
        !refresh_ok ==> r is Err && r->Err_0 == MetricsError::ProviderUnavailable,
{
    if refresh_ok {
        Ok(collect_disk_records(probes))
    } else {
        Err(MetricsError::ProviderUnavailable)
    }
}

/// A provider with zero disks yields an empty snapshot — together with the
/// contract of `disk_result`, a success, never an error.
pub proof fn lemma_zero_disks(probes: Seq<DiskProbe>)
    requires
        probes.len() == 0,
    ensures
        collect_spec(probes).len() == 0,
{
}

/// No admissible record is ever dropped and no record is ever invented: when
/// every probe decodes, the snapshot is exactly the converted enumeration.
pub proof fn lemma_all_admissible(probes: Seq<DiskProbe>)
    requires
        forall|i: int| 0 <= i < probes.len() ==> probe_admissible(probes[i]),
    ensures
        collect_spec(probes) == probes.map_values(|p: DiskProbe| probe_record(p)),
    decreases probes.len(),
{
    let m = probes.map_values(|p: DiskProbe| probe_record(p));
    if probes.len() == 0 {
        assert(collect_spec(probes) =~= m);
    } else {
        lemma_all_admissible(probes.drop_last());
        assert(probes.drop_last().map_values(|p: DiskProbe| probe_record(p)) =~= m.drop_last());
        assert(collect_spec(probes) =~= m);
    }
}

} // verus!
