//! Virtual machine configurations, states and snapshots.
use vstd::prelude::*;
use crate::text::concat2;

verus! {

/// Lifecycle state of a virtual machine.
#[derive(Debug, PartialEq)]
pub enum VirtualMachineState {
    Stopped,
    Starting,
    Running,
    Paused,
    Stopping,
    Failed(String),
}

impl Clone for VirtualMachineState {
    fn clone(&self) -> (r: Self)
        ensures
            r == *self,
    {
        match self {
            VirtualMachineState::Stopped => VirtualMachineState::Stopped,
            VirtualMachineState::Starting => VirtualMachineState::Starting,
            VirtualMachineState::Running => VirtualMachineState::Running,
            VirtualMachineState::Paused => VirtualMachineState::Paused,
            VirtualMachineState::Stopping => VirtualMachineState::Stopping,
            VirtualMachineState::Failed(m) => VirtualMachineState::Failed(m.clone()),
        }
    }
}

/// What a virtual machine is given of the host.
#[derive(Clone, Copy, Debug, PartialEq, Eq, Structural)]
pub struct VirtualMachineResource {
    pub cpus: u32,
    pub memory_mb: u64,
    pub disk_gb: u64,
    pub vram_mb: u64,
    pub gpu_passthrough: bool,
}

impl Default for VirtualMachineResource {
    /// Two CPUs, 4 GiB of memory, a 40 GB disk, 128 MB of video memory, no GPU.
    fn default() -> (r: Self)
        ensures
            r.cpus == 2,
            r.memory_mb == 4096,
            r.disk_gb == 40,
            r.vram_mb == 128,
            !r.gpu_passthrough,
    {
        VirtualMachineResource { cpus: 2, memory_mb: 4096, disk_gb: 40, vram_mb: 128, gpu_passthrough: false }
    }
}

/// How a virtual machine is attached to the network: `nat`, `bridge` or `isolated`.
#[derive(Debug)]
pub struct VirtualMachineNetwork {
    pub mode: String,
    pub mac_address: String,
    pub ip_address: Option<String>,
}

/// The disk a virtual machine boots from.
#[derive(Debug)]
pub struct VirtualMachineStorage {
    pub disk_path: String,
    pub format: String,
    pub size_gb: u64,
}

/// A host device passed through to a virtual machine.
#[derive(Debug)]
pub struct VirtualMachineDevice {
    pub device_id: String,
    pub device_type: String,
    pub host_address: String,
}

/// Everything needed to run a virtual machine.
#[derive(Debug)]
pub struct VirtualMachineConfig {
    pub vm_id: String,
    pub name: String,
    pub os_type: String,
    pub resources: VirtualMachineResource,
    pub storage: VirtualMachineStorage,
    pub network: VirtualMachineNetwork,
    pub uefi: bool,
    pub tpm: bool,
    pub secure_boot: bool,
    pub devices: Vec<VirtualMachineDevice>,
}

/// A saved point of a virtual machine.
#[derive(Debug)]
pub struct VirtualMachineSnapshot {
    pub snapshot_id: String,
    pub vm_id: String,
    pub name: String,
    pub created_at: u64,
    pub size_bytes: u64,
}

pub struct NetworkView {
    pub mode: Seq<char>,
    pub mac_address: Seq<char>,
    pub ip_address: Option<Seq<char>>,
}

pub struct StorageView {
    pub disk_path: Seq<char>,
    pub format: Seq<char>,
    pub size_gb: u64,
}

pub struct DeviceView {
    pub device_id: Seq<char>,
    pub device_type: Seq<char>,
    pub host_address: Seq<char>,
}

pub struct ConfigView {
    pub vm_id: Seq<char>,
    pub name: Seq<char>,
    pub os_type: Seq<char>,
    pub resources: VirtualMachineResource,
    pub storage: StorageView,
    pub network: NetworkView,
    pub uefi: bool,
    pub tpm: bool,
    pub secure_boot: bool,
    pub devices: Seq<DeviceView>,
}

pub struct SnapshotView {
    pub snapshot_id: Seq<char>,
    pub vm_id: Seq<char>,
    pub name: Seq<char>,
    pub created_at: u64,
    pub size_bytes: u64,
}

impl View for VirtualMachineNetwork {
    type V = NetworkView;

    open spec fn view(&self) -> NetworkView {
        NetworkView {
            mode: self.mode@,
            mac_address: self.mac_address@,
            ip_address: match self.ip_address {
                Some(ip) => Some(ip@),
                None => None,
            },
        }
    }
}

impl View for VirtualMachineStorage {
    type V = StorageView;

    open spec fn view(&self) -> StorageView {
        StorageView { disk_path: self.disk_path@, format: self.format@, size_gb: self.size_gb }
    }
}

impl View for VirtualMachineDevice {
    type V = DeviceView;

    open spec fn view(&self) -> DeviceView {
        DeviceView { device_id: self.device_id@, device_type: self.device_type@, host_address: self.host_address@ }
    }
}

/// The views of a list of devices.
pub open spec fn device_views(s: Seq<VirtualMachineDevice>) -> Seq<DeviceView> {
    s.map_values(|d: VirtualMachineDevice| d@)
}

impl View for VirtualMachineConfig {
    type V = ConfigView;

    open spec fn view(&self) -> ConfigView {
        ConfigView {
            vm_id: self.vm_id@,
            name: self.name@,
            os_type: self.os_type@,
            resources: self.resources,
            storage: self.storage@,
            network: self.network@,
            uefi: self.uefi,
            tpm: self.tpm,
            secure_boot: self.secure_boot,
            devices: device_views(self.devices@),
        }
    }
}

impl View for VirtualMachineSnapshot {
    type V = SnapshotView;

    open spec fn view(&self) -> SnapshotView {
        SnapshotView {
            snapshot_id: self.snapshot_id@,
            vm_id: self.vm_id@,
            name: self.name@,
            created_at: self.created_at,
            size_bytes: self.size_bytes,
        }
    }
}

impl Clone for VirtualMachineNetwork {
    fn clone(&self) -> (r: Self)
        ensures
            r@ == self@,
    {
        VirtualMachineNetwork {
            mode: self.mode.clone(),
            mac_address: self.mac_address.clone(),
            ip_address: match &self.ip_address {
                Some(ip) => Some(ip.clone()),
                None => None,
            },
        }
    }
}

impl Clone for VirtualMachineStorage {
    fn clone(&self) -> (r: Self)
        ensures
            r@ == self@,
    {
        VirtualMachineStorage { disk_path: self.disk_path.clone(), format: self.format.clone(), size_gb: self.size_gb }
    }
}

impl Clone for VirtualMachineDevice {
    fn clone(&self) -> (r: Self)
        ensures
            r@ == self@,
    {
        VirtualMachineDevice {
            device_id: self.device_id.clone(),
            device_type: self.device_type.clone(),
            host_address: self.host_address.clone(),
        }
    }
}

/// A copy of a list of devices.
pub fn clone_devices(v: &Vec<VirtualMachineDevice>) -> (r: Vec<VirtualMachineDevice>)
    ensures
        device_views(r@) == device_views(v@),
{
    let mut r: Vec<VirtualMachineDevice> = Vec::new();
    let mut i: usize = 0;
    while i < v.len()
        invariant
            i <= v.len(),
            device_views(r@) == device_views(v@).take(i as int),
        decreases v.len() - i,
    {
        let ghost prev = r@;
        r.push(v[i].clone());
        assert(device_views(r@) =~= device_views(prev).push(v@[i as int]@));
        assert(device_views(v@).take(i + 1) =~= device_views(v@).take(i as int).push(v@[i as int]@));
        i += 1;
    }
    assert(device_views(v@).take(v.len() as int) =~= device_views(v@));
    r
}

impl Clone for VirtualMachineConfig {
    fn clone(&self) -> (r: Self)
        ensures
            r@ == self@,
    {
        VirtualMachineConfig {
            vm_id: self.vm_id.clone(),
            name: self.name.clone(),
            os_type: self.os_type.clone(),
            resources: self.resources,
            storage: self.storage.clone(),
            network: self.network.clone(),
            uefi: self.uefi,
            tpm: self.tpm,
            secure_boot: self.secure_boot,
            devices: clone_devices(&self.devices),
        }
    }
}

impl Clone for VirtualMachineSnapshot {
    fn clone(&self) -> (r: Self)
        ensures
            r@ == self@,
    {
        VirtualMachineSnapshot {
            snapshot_id: self.snapshot_id.clone(),
            vm_id: self.vm_id.clone(),
            name: self.name.clone(),
            created_at: self.created_at,
            size_bytes: self.size_bytes,
        }
    }
}

/// Why a virtual machine operation failed.
#[derive(Debug, Clone, PartialEq, Eq)]
pub enum VirtualizationError {
    NotFound(String),
    InvalidState(String),
    QemuError(String),
    StorageError(String),
    NetworkError(String),
    Io(String),
}

impl VirtualizationError {
    /// The human-readable message of the error.
    pub fn message(&self) -> (r: String)
        ensures
            match self {
                VirtualizationError::NotFound(m) => r@ == "VM not found: "@ + m@,
                VirtualizationError::InvalidState(m) => r@ == "Invalid VM state transition: "@ + m@,
                VirtualizationError::QemuError(m) => r@ == "QEMU execution error: "@ + m@,
                VirtualizationError::StorageError(m) => r@ == "Storage error: "@ + m@,
                VirtualizationError::NetworkError(m) => r@ == "Network error: "@ + m@,
                VirtualizationError::Io(m) => r@ == "IO error: "@ + m@,
            },
    {
        match self {
            VirtualizationError::NotFound(m) => concat2("VM not found: ", m.as_str()),
            VirtualizationError::InvalidState(m) => concat2("Invalid VM state transition: ", m.as_str()),
            VirtualizationError::QemuError(m) => concat2("QEMU execution error: ", m.as_str()),
            VirtualizationError::StorageError(m) => concat2("Storage error: ", m.as_str()),
            VirtualizationError::NetworkError(m) => concat2("Network error: ", m.as_str()),
            VirtualizationError::Io(m) => concat2("IO error: ", m.as_str()),
        }
    }
}

} // verus!
