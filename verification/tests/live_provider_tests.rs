//! Tests against the real OS provider: these exercise the trusted wrappers.

use host_metrics::CpuHandle;
use host_metrics::DiskHandle;

#[test]
fn live_cpu_uptime_is_non_decreasing_across_calls() {
    let mut handle = CpuHandle::new();
    let first = handle.get_cpu_snapshot().expect("cpu snapshot owed");
    let second = handle.get_cpu_snapshot().expect("cpu snapshot owed");
    assert!(first.uptime_seconds <= second.uptime_seconds);
}

#[test]
fn live_cpu_snapshot_has_one_entry_per_core() {
    let mut handle = CpuHandle::new();
    let snap = handle.get_cpu_snapshot().expect("cpu snapshot owed");
    assert!(!snap.cpu_usage.is_empty());
}

#[test]
fn hundred_concurrent_cpu_requests_each_get_a_snapshot() {
    // One guarded refresh+read sequence per caller, never coalesced: all 100
    // concurrent callers of the one shared handle complete with a snapshot.
    let rt = tokio::runtime::Builder::new_multi_thread()
        .worker_threads(4)
        .enable_all()
        .build()
        .unwrap();
    rt.block_on(async {
        let handle = std::sync::Arc::new(tokio::sync::Mutex::new(CpuHandle::new()));
        let mut joins = Vec::new();
        for _ in 0..100 {
            let shared = handle.clone();
            joins.push(tokio::spawn(async move {
                let mut guard = shared.lock().await;
                guard.get_cpu_snapshot().expect("cpu snapshot owed")
            }));
        }
        let mut completed: u32 = 0;
        for join in joins {
            let snapshot = join.await.unwrap();
            assert!(snapshot.uptime_seconds > 0);
            completed += 1;
        }
        assert_eq!(completed, 100);
    });
}

#[test]
fn concurrent_cpu_and_disk_requests_are_independent() {
    // The two handles are guarded independently: interleaved callers of both
    // all complete, neither category waiting on the other's guard.
    let rt = tokio::runtime::Builder::new_multi_thread()
        .worker_threads(4)
        .enable_all()
        .build()
        .unwrap();
    rt.block_on(async {
        let cpu = std::sync::Arc::new(tokio::sync::Mutex::new(CpuHandle::new()));
        let disks = std::sync::Arc::new(tokio::sync::Mutex::new(DiskHandle::new()));
        let mut cpu_joins = Vec::new();
        let mut disk_joins = Vec::new();
        for _ in 0..25 {
            let shared_cpu = cpu.clone();
            cpu_joins.push(tokio::spawn(async move {
                let mut guard = shared_cpu.lock().await;
                guard.get_cpu_snapshot().expect("cpu snapshot owed")
            }));
            let shared_disks = disks.clone();
            disk_joins.push(tokio::spawn(async move {
                let mut guard = shared_disks.lock().await;
                guard.get_disk_snapshot().expect("disk snapshot owed")
            }));
        }
        for join in cpu_joins {
            join.await.unwrap();
        }
        for join in disk_joins {
            join.await.unwrap();
        }
    });
}

#[test]
fn live_disk_snapshot_is_a_success() {
    let mut handle = DiskHandle::new();
    // A valid empty enumeration is as much a success as a populated one.
    let snap = handle.get_disk_snapshot().expect("disk snapshot owed");
    for record in snap {
        assert!(!record.mount_point.is_empty());
    }
}
