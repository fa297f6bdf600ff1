//! Host-metrics snapshot library.
//!
//! The crate owns two independent provider handles (one for CPU telemetry,
//! one for the disk list), each of which must be refreshed and read under
//! exclusive access, and turns the raw readings into immutable snapshot
//! values.  All decision logic — when a reading becomes a snapshot, when it
//! becomes an error, and which disk records survive conversion — is verified.

pub mod cache;
pub mod provider;
pub mod snapshot;

pub use cache::CpuHandle;
pub use cache::DiskHandle;

pub use snapshot::CPUUsage;
pub use snapshot::DiskInfo;
pub use snapshot::DiskProbe;
pub use snapshot::MetricsError;
pub use snapshot::cpu_result;
pub use snapshot::disk_result;
pub use snapshot::convert_disk_record;
pub use snapshot::collect_disk_records;
