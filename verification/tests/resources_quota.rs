use cognyx_runtime::resources::{ResourceError, ResourceManager, ResourceQuota, ResourceReservation};

fn reservation(id: &str, cpus: u32, memory_mb: u64) -> ResourceReservation {
    ResourceReservation {
        reservation_id: id.to_string(),
        runtime_id: format!("rt-{id}"),
        cpus,
        memory_mb,
        storage_gb: 10,
        gpus: 0,
    }
}

#[test]
fn test_resource_quota_enforcement() {
    let mut manager = ResourceManager::new(ResourceQuota {
        max_cpus: 4,
        max_memory_mb: 8192,
        max_storage_gb: 100,
        max_gpus: 1,
        max_vms: 2,
        max_containers: 5,
    });

    let res1 = ResourceReservation {
        reservation_id: "res-1".to_string(),
        runtime_id: "win-vm-1".to_string(),
        cpus: 4,
        memory_mb: 4096,
        storage_gb: 40,
        gpus: 0,
    };
    assert!(manager.reserve(res1).is_ok());

    let res2 = ResourceReservation {
        reservation_id: "res-2".to_string(),
        runtime_id: "win-vm-2".to_string(),
        cpus: 2,
        memory_mb: 2048,
        storage_gb: 20,
        gpus: 0,
    };
    let err = manager.reserve(res2);
    assert!(err.is_err());
}

#[test]
fn refusals_name_what_was_asked_and_what_is_left() {
    let mut manager = ResourceManager::new(ResourceQuota {
        max_cpus: 8,
        max_memory_mb: 1000,
        max_storage_gb: 100,
        max_gpus: 0,
        max_vms: 4,
        max_containers: 4,
    });
    manager.reserve(reservation("a", 3, 600)).unwrap();
    let err = manager.reserve(reservation("b", 6, 100)).unwrap_err();
    assert_eq!(err, ResourceError::QuotaExceeded("6 CPUs".into(), "5 CPUs left".into()));
    let err = manager.reserve(reservation("b", 2, 500)).unwrap_err();
    assert_eq!(err, ResourceError::QuotaExceeded("500 MB RAM".into(), "400 MB RAM left".into()));
    assert_eq!(err.message(), "Resource quota exceeded: requested 500 MB RAM, available 400 MB RAM left");
}

#[test]
fn usage_sums_reservations_and_release_gives_back() {
    let mut manager = ResourceManager::default();
    manager.reserve(reservation("a", 2, 1024)).unwrap();
    manager.reserve(reservation("b", 3, 2048)).unwrap();
    let usage = manager.get_current_usage();
    assert_eq!(usage.allocated_cpus, 5);
    assert_eq!(usage.allocated_memory_mb, 3072);
    assert_eq!(usage.allocated_storage_gb, 20);
    assert_eq!(usage.active_vms, 2);
    assert_eq!(usage.active_containers, 0);
    manager.release("a").unwrap();
    let usage = manager.get_current_usage();
    assert_eq!(usage.allocated_cpus, 3);
    assert_eq!(usage.active_vms, 1);
    let err = manager.release("a").unwrap_err();
    assert_eq!(err, ResourceError::NotFound("a".into()));
    assert_eq!(err.message(), "Reservation not found: a");
}

#[test]
fn reserving_an_existing_identity_replaces_it() {
    let mut manager = ResourceManager::default();
    manager.reserve(reservation("a", 10, 1024)).unwrap();
    assert!(manager.reserve(reservation("a", 12, 1024)).is_err());
    manager.reserve(reservation("a", 6, 1024)).unwrap();
    let usage = manager.get_current_usage();
    assert_eq!(usage.allocated_cpus, 6);
    assert_eq!(usage.active_vms, 1);
}

#[test]
fn default_quota_values() {
    let q = ResourceQuota::default();
    assert_eq!((q.max_cpus, q.max_memory_mb, q.max_storage_gb), (16, 32768, 500));
    assert_eq!((q.max_gpus, q.max_vms, q.max_containers), (2, 5, 20));
}
