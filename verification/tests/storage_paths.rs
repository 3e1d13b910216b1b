use cognyx_runtime::storage::{StorageError, VMStorageManager};

#[test]
fn test_storage_paths_and_disk_creation() {
    let mgr = VMStorageManager::new(String::from("/tmp/cognyx-test-storage"));
    assert_eq!(mgr.disks_dir, String::from("/tmp/cognyx-test-storage/disks"));

    let meta = mgr.create_virtual_disk("win11-disk", "qcow2", 60).unwrap();
    assert_eq!(meta.disk_id, "win11-disk");
    assert_eq!(meta.size_gb, 60);

    let clone = mgr.clone_cow_disk("win11-disk", "win11-clone-1").unwrap();
    assert_eq!(clone.parent_snapshot_id, Some("win11-disk".to_string()));
}

#[test]
fn disk_files_live_in_the_disks_folder() {
    let mgr = VMStorageManager::new(String::from("/data/"));
    assert_eq!(mgr.images_dir, "/data/images");
    assert_eq!(mgr.snapshots_dir, "/data/snapshots");
    let meta = mgr.create_virtual_disk("d1", "raw", 10).unwrap();
    assert_eq!(meta.path, "/data/disks/d1.raw");
    assert_eq!(meta.format, "raw");
    assert!(meta.parent_snapshot_id.is_none());
    let clone = mgr.clone_cow_disk("d1", "d2").unwrap();
    assert_eq!(clone.path, "/data/disks/d2.qcow2");
    assert_eq!(clone.size_gb, 40);
    assert_eq!(clone.format, "qcow2");
    assert!(mgr.resize_disk("d1", 80).is_ok());
}

#[test]
fn unconfigured_storage_uses_the_system_folder() {
    let mgr = VMStorageManager::from_configured(None);
    assert_eq!(mgr.disks_dir, "/var/lib/cognyxos/disks");
    let mgr = VMStorageManager::from_configured(Some(String::from("/srv")));
    assert_eq!(mgr.images_dir, "/srv/images");
}

#[test]
fn storage_errors_render_their_messages() {
    assert_eq!(StorageError::InvalidPath("x".into()).message(), "Storage directory invalid: x");
    assert_eq!(StorageError::NotFound("d".into()).message(), "Disk image not found: d");
    assert_eq!(StorageError::Io("boom".into()).message(), "IO error: boom");
}
