//! Where virtual machine disks live, and the metadata of the disks created
//! there. Paths are `/`-separated text.
use vstd::prelude::*;
use crate::capability::adapters::{join_path, joined_path};
use crate::text::{chars_of, concat2, concat3};

verus! {

/// Why a storage operation failed.
#[derive(Debug, Clone, PartialEq, Eq)]
pub enum StorageError {
    InvalidPath(String),
    NotFound(String),
    Io(String),
}

impl StorageError {
    /// The human-readable message of the error.
    pub fn message(&self) -> (r: String)
        ensures
            match self {
                StorageError::InvalidPath(p) => r@ == "Storage directory invalid: "@ + p@,
                StorageError::NotFound(p) => r@ == "Disk image not found: "@ + p@,
                StorageError::Io(m) => r@ == "IO error: "@ + m@,
            },
    {
        match self {
            StorageError::InvalidPath(p) => concat2("Storage directory invalid: ", p.as_str()),
            StorageError::NotFound(p) => concat2("Disk image not found: ", p.as_str()),
            StorageError::Io(m) => concat2("IO error: ", m.as_str()),
        }
    }
}

/// A virtual disk image.
#[derive(Clone, Debug)]
pub struct VmDiskMetadata {
    pub disk_id: String,
    pub name: String,
    pub format: String,
    pub size_gb: u64,
    pub path: String,
    pub parent_snapshot_id: Option<String>,
}

/// The storage folders: base images, disks and snapshots.
#[derive(Clone, Debug)]
pub struct VMStorageManager {
    pub images_dir: String,
    pub disks_dir: String,
    pub snapshots_dir: String,
}

/// A path joined onto a base: an absolute path stands alone, a relative one
/// goes under the base.
pub open spec fn path_join(base: Seq<char>, p: Seq<char>) -> Seq<char> {
    if p.len() > 0 && p[0] == '/' {
        p
    } else {
        joined_path(base, p)
    }
}

/// A path joined onto a base.
pub fn path_join_exec(base: &str, p: &str) -> (r: String)
    ensures
        r@ == path_join(base@, p@),
{
    let v = chars_of(p);
    if v.len() > 0 && v[0] == '/' {
        String::from_str(p)
    } else {
        join_path(base, p)
    }
}

/// The default storage folder when none is configured.
pub open spec fn default_storage_dir() -> Seq<char> {
    "/var/lib/cognyxos"@
}

impl VMStorageManager {
    /// The folders `images`, `disks` and `snapshots` under the base folder.
    pub fn new(base_dir: String) -> (r: Self)
        ensures
            r.images_dir@ == path_join(base_dir@, "images"@),
            r.disks_dir@ == path_join(base_dir@, "disks"@),
            r.snapshots_dir@ == path_join(base_dir@, "snapshots"@),
    {
        VMStorageManager {
            images_dir: path_join_exec(base_dir.as_str(), "images"),
            disks_dir: path_join_exec(base_dir.as_str(), "disks"),
            snapshots_dir: path_join_exec(base_dir.as_str(), "snapshots"),
        }
    }

    /// Storage under the configured folder, or under `/var/lib/cognyxos` when
    /// none is configured.
    pub fn from_configured(base_dir: Option<String>) -> (r: Self)
        ensures
            ({
                let base = match base_dir {
                    Some(b) => b@,
                    None => default_storage_dir(),
                };
                &&& r.images_dir@ == path_join(base, "images"@)
                &&& r.disks_dir@ == path_join(base, "disks"@)
                &&& r.snapshots_dir@ == path_join(base, "snapshots"@)
            }),
    {
        match base_dir {
            Some(b) => Self::new(b),
            None => Self::new(String::from_str("/var/lib/cognyxos")),
        }
    }

    /// The metadata of a new disk image `<disk_id>.<format>` in the disks folder.
    pub fn create_virtual_disk(&self, disk_id: &str, format: &str, size_gb: u64) -> (r: Result<
        VmDiskMetadata,
        StorageError,
    >)
        ensures
            r matches Ok(m) && m.disk_id@ == disk_id@ && m.name@ == disk_id@ && m.format@ == format@
                && m.size_gb == size_gb && m.path@ == path_join(self.disks_dir@, disk_id@ + "."@ + format@)
                && m.parent_snapshot_id is None,
    {
        let file = concat3(disk_id, ".", format);
        let path = path_join_exec(self.disks_dir.as_str(), file.as_str());
        Ok(
            VmDiskMetadata {
                disk_id: String::from_str(disk_id),
                name: String::from_str(disk_id),
                format: String::from_str(format),
                size_gb,
                path,
                parent_snapshot_id: None,
            },
        )
    }

    /// The metadata of a 40 GB copy-on-write qcow2 clone backed by the parent disk.
    pub fn clone_cow_disk(&self, parent_disk_id: &str, new_disk_id: &str) -> (r: Result<
        VmDiskMetadata,
        StorageError,
    >)
        ensures
            r matches Ok(m) && m.disk_id@ == new_disk_id@ && m.name@ == new_disk_id@ && m.format@ == "qcow2"@
                && m.size_gb == 40 && m.path@ == path_join(self.disks_dir@, new_disk_id@ + ".qcow2"@) && (
                m.parent_snapshot_id matches Some(p) && p@ == parent_disk_id@),
    {
        let file = concat2(new_disk_id, ".qcow2");
        let path = path_join_exec(self.disks_dir.as_str(), file.as_str());
        Ok(
            VmDiskMetadata {
                disk_id: String::from_str(new_disk_id),
                name: String::from_str(new_disk_id),
                format: String::from_str("qcow2"),
                size_gb: 40,
                path,
                parent_snapshot_id: Some(String::from_str(parent_disk_id)),
            },
        )
    }

    /// Resizing is accepted for any disk.
    pub fn resize_disk(&self, disk_id: &str, new_size_gb: u64) -> (r: Result<(), StorageError>)
        ensures
            r is Ok,
    {
        Ok(())
    }
}

} // verus!
