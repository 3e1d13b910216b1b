//! Windows runtimes: virtual machines managed through a virtualization
//! backend, the host itself, and the guest agent, shared folders and
//! automation they use.
use vstd::prelude::*;
use crate::execution::{native_host_runtime_id, native_host_runtime_name, ExecutionRuntime, RuntimeKind, RuntimeStatus};
use crate::text::{concat2, str_eq, string_list, strs};
use crate::virtualization::backend::{
    fresh_id, with_state, MockBackend, VirtualizationBackend,
};
use crate::virtualization::types::{
    ConfigView, VirtualMachineConfig, VirtualMachineNetwork, VirtualMachineResource, VirtualMachineState,
    VirtualMachineStorage,
};

verus! {

/// Maps capabilities onto Windows privileges.
pub struct WindowsCapabilityAdapter;

impl WindowsCapabilityAdapter {
    /// The Windows privilege a capability needs, if it is a Windows capability.
    pub fn translate_capability(cognyx_cap: &str) -> (r: Option<&'static str>)
        ensures
            cognyx_cap@ == "win32.powershell"@ ==> (r matches Some(p) && p@ == "SePowerShellPrivilege"@),
            cognyx_cap@ == "win32.filesystem"@ ==> (r matches Some(p) && p@ == "SeFileReadWritePrivilege"@),
            cognyx_cap@ == "win32.automation"@ ==> (r matches Some(p) && p@ == "SeUiAutomationPrivilege"@),
            cognyx_cap@ != "win32.powershell"@ && cognyx_cap@ != "win32.filesystem"@ && cognyx_cap@
                != "win32.automation"@ ==> r is None,
    {
        proof {
            reveal_strlit("win32.powershell");
            reveal_strlit("win32.filesystem");
            reveal_strlit("win32.automation");
            assert("win32.powershell"@ != "win32.filesystem"@ && "win32.filesystem"@ != "win32.automation"@
                && "win32.powershell"@ != "win32.automation"@) by {
                assert("win32.powershell"@[6] != "win32.filesystem"@[6]);
                assert("win32.filesystem"@[6] != "win32.automation"@[6]);
                assert("win32.powershell"@[6] != "win32.automation"@[6]);
            }
        }
        if str_eq(cognyx_cap, "win32.powershell") {
            Some("SePowerShellPrivilege")
        } else if str_eq(cognyx_cap, "win32.filesystem") {
            Some("SeFileReadWritePrivilege")
        } else if str_eq(cognyx_cap, "win32.automation") {
            Some("SeUiAutomationPrivilege")
        } else {
            None
        }
    }
}

/// Host folders shared into a Windows virtual machine.
pub struct WindowsFilesystemBridge {
    pub vm_id: String,
    pub shared_folders: Vec<(String, String)>,
}

impl WindowsFilesystemBridge {
    pub fn new(vm_id: &str) -> (r: Self)
        ensures
            r.vm_id@ == vm_id@,
            r.shared_folders@.len() == 0,
    {
        WindowsFilesystemBridge { vm_id: String::from_str(vm_id), shared_folders: Vec::new() }
    }

    /// Shares a host folder under a tag, after those already shared.
    pub fn mount_shared_folder(&mut self, tag: &str, host_path: String)
        ensures
            final(self).vm_id == old(self).vm_id,
            final(self).shared_folders@.len() == old(self).shared_folders@.len() + 1,
            forall|i: int| 0 <= i < old(self).shared_folders@.len() ==> final(self).shared_folders@[i] == old(
                self,
            ).shared_folders@[i],
            final(self).shared_folders@.last().0@ == tag@,
            final(self).shared_folders@.last().1@ == host_path@,
    {
        self.shared_folders.push((String::from_str(tag), host_path));
    }
}

/// The channel to the guest agent of a Windows virtual machine.
pub struct WindowsGuestCommunication {
    pub vm_id: String,
    pub vsock_port: u32,
}

impl WindowsGuestCommunication {
    pub fn new(vm_id: &str, vsock_port: u32) -> (r: Self)
        ensures
            r.vm_id@ == vm_id@,
            r.vsock_port == vsock_port,
    {
        WindowsGuestCommunication { vm_id: String::from_str(vm_id), vsock_port }
    }

    /// The guest agent answers.
    pub fn ping_guest(&self) -> (r: Result<bool, String>)
        ensures
            r matches Ok(b) && b,
    {
        Ok(true)
    }

    /// The guest agent's answer to a call: the UTF-8 text `RPC Response for <method>`.
    pub fn send_rpc_command(&self, method: &str, payload: &[u8]) -> (r: Result<Vec<u8>, String>)
        ensures
            r matches Ok(bytes) && bytes@ == vstd::utf8::encode_utf8("RPC Response for "@ + method@),
    {
        let text = concat2("RPC Response for ", method);
        Ok(crate::text::utf8_bytes(text.as_str()))
    }
}

/// Runs scripts and commands inside a Windows virtual machine.
pub struct WindowsAppAutomation {
    pub vm_id: String,
}

impl WindowsAppAutomation {
    pub fn new(vm_id: &str) -> (r: Self)
        ensures
            r.vm_id@ == vm_id@,
    {
        WindowsAppAutomation { vm_id: String::from_str(vm_id) }
    }

    pub fn execute_powershell(&self, script: &str) -> (r: Result<String, String>)
        ensures
            r matches Ok(out) && out@ == "PowerShell Output for: "@ + script@,
    {
        Ok(concat2("PowerShell Output for: ", script))
    }

    pub fn execute_cmd(&self, command: &str) -> (r: Result<String, String>)
        ensures
            r matches Ok(out) && out@ == "CMD Output for: "@ + command@,
    {
        Ok(concat2("CMD Output for: ", command))
    }

    /// The screen as JPEG bytes (the JPEG start marker).
    pub fn capture_screen(&self) -> (r: Result<Vec<u8>, String>)
        ensures
            r matches Ok(bytes) && bytes@ == seq![0xFFu8, 0xD8u8, 0xFFu8, 0xE0u8],
    {
        let mut v: Vec<u8> = Vec::new();
        v.push(0xFF);
        v.push(0xD8);
        v.push(0xFF);
        v.push(0xE0);
        assert(v@ =~= seq![0xFFu8, 0xD8u8, 0xFFu8, 0xE0u8]);
        Ok(v)
    }
}

/// Creates and drives Windows virtual machines through a backend.
pub struct WindowsVmManager {
    pub backend: MockBackend,
}

/// The configuration a Windows machine gets when it is started without having
/// been created: 4 CPUs, 8 GiB, a 60 GB qcow2 disk, NAT, UEFI with TPM and
/// secure boot.
pub open spec fn default_windows_config(vm_id: Seq<char>) -> ConfigView {
    ConfigView {
        vm_id,
        name: vm_id,
        os_type: "windows"@,
        resources: VirtualMachineResource { cpus: 4, memory_mb: 8192, disk_gb: 60, vram_mb: 256, gpu_passthrough: false },
        storage: crate::virtualization::types::StorageView {
            disk_path: "/var/lib/cognyxos/disks/win.qcow2"@,
            format: "qcow2"@,
            size_gb: 60,
        },
        network: crate::virtualization::types::NetworkView {
            mode: "nat"@,
            mac_address: "52:54:00:11:22:33"@,
            ip_address: Some("192.168.122.50"@),
        },
        uefi: true,
        tpm: true,
        secure_boot: true,
        devices: Seq::empty(),
    }
}

impl WindowsVmManager {
    pub fn new(backend: MockBackend) -> (r: Self)
        ensures
            r.backend == backend,
    {
        WindowsVmManager { backend }
    }

    /// Creates a Windows machine `win-vm-<uuid>` with the given name, CPUs,
    /// memory and disk (60 GB qcow2), on NAT with UEFI, TPM and secure boot.
    pub fn create_windows_vm(&mut self, name: &str, cpus: u32, memory_mb: u64, disk_path: String) -> (r: Result<
        String,
        String,
    >)
        ensures
            r matches Ok(id) && crate::text::starts_with(id@, "win-vm-"@) && final(self).backend.vms() == old(
                self,
            ).backend.vms().insert(
                id@,
                (
                    ConfigView {
                        vm_id: id@,
                        name: name@,
                        os_type: "windows"@,
                        resources: VirtualMachineResource {
                            cpus,
                            memory_mb,
                            disk_gb: 60,
                            vram_mb: 256,
                            gpu_passthrough: false,
                        },
                        storage: crate::virtualization::types::StorageView {
                            disk_path: disk_path@,
                            format: "qcow2"@,
                            size_gb: 60,
                        },
                        network: crate::virtualization::types::NetworkView {
                            mode: "nat"@,
                            mac_address: "52:54:00:ab:cd:ef"@,
                            ip_address: Some("192.168.122.50"@),
                        },
                        uefi: true,
                        tpm: true,
                        secure_boot: true,
                        devices: Seq::empty(),
                    },
                    VirtualMachineState::Stopped,
                ),
            ),
    {
        let vm_id = fresh_id("win-vm-");
        let config = VirtualMachineConfig {
            vm_id: vm_id.clone(),
            name: String::from_str(name),
            os_type: String::from_str("windows"),
            resources: VirtualMachineResource { cpus, memory_mb, disk_gb: 60, vram_mb: 256, gpu_passthrough: false },
            storage: VirtualMachineStorage { disk_path, format: String::from_str("qcow2"), size_gb: 60 },
            network: VirtualMachineNetwork {
                mode: String::from_str("nat"),
                mac_address: String::from_str("52:54:00:ab:cd:ef"),
                ip_address: Some(String::from_str("192.168.122.50")),
            },
            uefi: true,
            tpm: true,
            secure_boot: true,
            devices: Vec::new(),
        };
        assert(config@.devices =~= Seq::empty());
        match self.backend.create_vm(config) {
            Ok(id) => Ok(id),
            Err(e) => Err(e.message()),
        }
    }

    /// Starts a machine, first creating it with the default Windows
    /// configuration when the backend does not know it.
    pub fn start_windows_vm(&mut self, vm_id: &str) -> (r: Result<(), String>)
        ensures
            r is Ok,
            old(self).backend.vms().contains_key(vm_id@) ==> final(self).backend.vms() == with_state(
                old(self).backend.vms(),
                vm_id@,
                VirtualMachineState::Running,
            ),
            !old(self).backend.vms().contains_key(vm_id@) ==> final(self).backend.vms() == old(
                self,
            ).backend.vms().insert(vm_id@, (default_windows_config(vm_id@), VirtualMachineState::Running)),
    {
        if self.backend.get_state(vm_id).is_err() {
            let config = VirtualMachineConfig {
                vm_id: String::from_str(vm_id),
                name: String::from_str(vm_id),
                os_type: String::from_str("windows"),
                resources: VirtualMachineResource {
                    cpus: 4,
                    memory_mb: 8192,
                    disk_gb: 60,
                    vram_mb: 256,
                    gpu_passthrough: false,
                },
                storage: VirtualMachineStorage {
                    disk_path: String::from_str("/var/lib/cognyxos/disks/win.qcow2"),
                    format: String::from_str("qcow2"),
                    size_gb: 60,
                },
                network: VirtualMachineNetwork {
                    mode: String::from_str("nat"),
                    mac_address: String::from_str("52:54:00:11:22:33"),
                    ip_address: Some(String::from_str("192.168.122.50")),
                },
                uefi: true,
                tpm: true,
                secure_boot: true,
                devices: Vec::new(),
            };
            assert(config@.devices =~= Seq::empty());
            assert(config@ == default_windows_config(vm_id@));
            let _ = self.backend.create_vm(config);
            proof {
                assert(with_state(
                    old(self).backend.vms().insert(vm_id@, (default_windows_config(vm_id@), VirtualMachineState::Stopped)),
                    vm_id@,
                    VirtualMachineState::Running,
                ) =~= old(self).backend.vms().insert(
                    vm_id@,
                    (default_windows_config(vm_id@), VirtualMachineState::Running),
                ));
            }
        }
        match self.backend.start_vm(vm_id) {
            Ok(()) => Ok(()),
            Err(e) => Err(e.message()),
        }
    }

    pub fn stop_windows_vm(&mut self, vm_id: &str) -> (r: Result<(), String>)
        ensures
            old(self).backend.vms().contains_key(vm_id@) ==> r is Ok && final(self).backend.vms() == with_state(
                old(self).backend.vms(),
                vm_id@,
                VirtualMachineState::Stopped,
            ),
            !old(self).backend.vms().contains_key(vm_id@) ==> (r matches Err(m) && m@ == "VM not found: "@ + vm_id@)
                && final(self).backend.vms() == old(self).backend.vms(),
    {
        match self.backend.stop_vm(vm_id) {
            Ok(()) => Ok(()),
            Err(e) => Err(e.message()),
        }
    }

    pub fn pause_windows_vm(&mut self, vm_id: &str) -> (r: Result<(), String>)
        ensures
            old(self).backend.vms().contains_key(vm_id@) ==> r is Ok && final(self).backend.vms() == with_state(
                old(self).backend.vms(),
                vm_id@,
                VirtualMachineState::Paused,
            ),
            !old(self).backend.vms().contains_key(vm_id@) ==> (r matches Err(m) && m@ == "VM not found: "@ + vm_id@)
                && final(self).backend.vms() == old(self).backend.vms(),
    {
        match self.backend.pause_vm(vm_id) {
            Ok(()) => Ok(()),
            Err(e) => Err(e.message()),
        }
    }

    pub fn resume_windows_vm(&mut self, vm_id: &str) -> (r: Result<(), String>)
        ensures
            old(self).backend.vms().contains_key(vm_id@) ==> r is Ok && final(self).backend.vms() == with_state(
                old(self).backend.vms(),
                vm_id@,
                VirtualMachineState::Running,
            ),
            !old(self).backend.vms().contains_key(vm_id@) ==> (r matches Err(m) && m@ == "VM not found: "@ + vm_id@)
                && final(self).backend.vms() == old(self).backend.vms(),
    {
        match self.backend.resume_vm(vm_id) {
            Ok(()) => Ok(()),
            Err(e) => Err(e.message()),
        }
    }

    /// Takes a snapshot and returns its identity.
    pub fn snapshot_windows_vm(&mut self, vm_id: &str, name: &str) -> (r: Result<String, String>)
        ensures
            old(self).backend.vms().contains_key(vm_id@) ==> (r matches Ok(id) && crate::text::starts_with(
                id@,
                "snap-mock-"@,
            ) && final(self).backend.snapshots().contains_key(id@)),
            !old(self).backend.vms().contains_key(vm_id@) ==> (r matches Err(m) && m@ == "VM not found: "@ + vm_id@),
            final(self).backend.vms() == old(self).backend.vms(),
    {
        match self.backend.snapshot_vm(vm_id, name) {
            Ok(s) => Ok(s.snapshot_id),
            Err(e) => Err(e.message()),
        }
    }

    pub fn restore_windows_vm(&self, vm_id: &str, snapshot_id: &str) -> (r: Result<(), String>)
        ensures
            !self.backend.vms().contains_key(vm_id@) ==> (r matches Err(m) && m@ == "VM not found: "@ + vm_id@),
            self.backend.vms().contains_key(vm_id@) && !self.backend.snapshots().contains_key(snapshot_id@) ==> (
            r matches Err(m) && m@ == "VM not found: "@ + snapshot_id@),
            self.backend.vms().contains_key(vm_id@) && self.backend.snapshots().contains_key(snapshot_id@) ==> r is Ok,
    {
        match self.backend.restore_snapshot(vm_id, snapshot_id) {
            Ok(()) => Ok(()),
            Err(e) => Err(e.message()),
        }
    }

    pub fn get_windows_status(&self, vm_id: &str) -> (r: Result<VirtualMachineState, String>)
        ensures
            self.backend.vms().contains_key(vm_id@) ==> (r matches Ok(s) && s == self.backend.vms()[vm_id@].1),
            !self.backend.vms().contains_key(vm_id@) ==> (r matches Err(m) && m@ == "VM not found: "@ + vm_id@),
    {
        match self.backend.get_state(vm_id) {
            Ok(s) => Ok(s),
            Err(e) => Err(e.message()),
        }
    }
}

/// A Windows runtime: a virtual machine, or the Windows host itself.
pub struct WindowsRuntime {
    pub id: String,
    pub name: String,
    pub status: RuntimeStatus,
    pub host_os: String,
    pub vm_manager: WindowsVmManager,
    pub automation: WindowsAppAutomation,
}

/// Capabilities of a Windows runtime.
pub open spec fn windows_caps() -> Seq<Seq<char>> {
    seq!["win32.powershell"@, "win32.cmd"@, "win32.filesystem"@, "win32.automation"@]
}

/// The runtime is the host of the operating system it runs on.
pub open spec fn is_host_runtime(id: Seq<char>, os: Seq<char>) -> bool {
    id == (if os == "windows"@ {
        "windows-host"@
    } else if os == "macos"@ {
        "macos-host"@
    } else {
        "linux-host-1"@
    })
}

impl WindowsRuntime {
    /// A created Windows virtual machine runtime on a host running `host_os`.
    pub fn new(id: &str, name: &str, host_os: &str) -> (r: Self)
        ensures
            r.id@ == id@,
            r.name@ == name@,
            r.host_os@ == host_os@,
            r.status == RuntimeStatus::Created,
            r.automation.vm_id@ == id@,
            r.vm_manager.backend.vms() == crate::virtualization::backend::no_vms(),
    {
        WindowsRuntime {
            id: String::from_str(id),
            name: String::from_str(name),
            status: RuntimeStatus::Created,
            host_os: String::from_str(host_os),
            vm_manager: WindowsVmManager::new(MockBackend::new()),
            automation: WindowsAppAutomation::new(id),
        }
    }

    /// The running host runtime of a host running `host_os`; it starts no
    /// virtual machine.
    pub fn host(host_os: &str) -> (r: Self)
        ensures
            host_os@ == "windows"@ ==> r.id@ == "windows-host"@ && r.name@ == "Host Windows"@,
            host_os@ == "macos"@ ==> r.id@ == "macos-host"@ && r.name@ == "Host macOS"@,
            host_os@ != "windows"@ && host_os@ != "macos"@ ==> r.id@ == "linux-host-1"@ && r.name@ == "Host Linux"@,
            r.host_os@ == host_os@,
            r.status == RuntimeStatus::Running,
            r.automation.vm_id@ == r.id@,
    {
        let id = native_host_runtime_id(host_os);
        WindowsRuntime {
            id: String::from_str(id),
            name: String::from_str(native_host_runtime_name(host_os)),
            status: RuntimeStatus::Running,
            host_os: String::from_str(host_os),
            vm_manager: WindowsVmManager::new(MockBackend::new()),
            automation: WindowsAppAutomation::new(id),
        }
    }

    fn on_host(&self) -> (r: bool)
        ensures
            r == is_host_runtime(self.id@, self.host_os@),
    {
        str_eq(self.id.as_str(), native_host_runtime_id(self.host_os.as_str()))
    }
}

impl ExecutionRuntime for WindowsRuntime {
    open spec fn id_view(&self) -> Seq<char> {
        self.id@
    }

    open spec fn caps_view(&self) -> Seq<Seq<char>> {
        windows_caps()
    }

    fn runtime_id(&self) -> (r: &str) {
        self.id.as_str()
    }

    fn runtime_type(&self) -> (r: RuntimeKind)
        ensures
            r == RuntimeKind::WindowsVm,
    {
        RuntimeKind::WindowsVm
    }

    fn status(&self) -> (r: RuntimeStatus)
        ensures
            r == self.status,
    {
        self.status.clone()
    }

    fn capabilities(&self) -> (r: Vec<String>) {
        let r = string_list(&["win32.powershell", "win32.cmd", "win32.filesystem", "win32.automation"]);
        assert(strs(r@) =~= windows_caps());
        r
    }

    fn location(&self) -> (r: String)
        ensures
            is_host_runtime(self.id@, self.host_os@) ==> r@ == "local-host"@,
            !is_host_runtime(self.id@, self.host_os@) ==> r@ == "local-kvm"@,
    {
        if self.on_host() {
            String::from_str("local-host")
        } else {
            String::from_str("local-kvm")
        }
    }

    fn security_level(&self) -> (r: u32)
        ensures
            is_host_runtime(self.id@, self.host_os@) ==> r == 1,
            !is_host_runtime(self.id@, self.host_os@) ==> r == 4,
    {
        if self.on_host() {
            1
        } else {
            4
        }
    }

    fn available_tools(&self) -> (r: Vec<String>)
        ensures
            strs(r@) == seq!["powershell.exe"@, "cmd.exe"@],
    {
        let r = string_list(&["powershell.exe", "cmd.exe"]);
        assert(strs(r@) =~= seq!["powershell.exe"@, "cmd.exe"@]);
        r
    }

    fn start(&mut self) -> (r: Result<(), String>)
        ensures
            r is Ok,
            final(self).status == RuntimeStatus::Running,
            final(self).id == old(self).id,
            final(self).vm_manager.backend.vms().contains_key(old(self).id@),
            final(self).vm_manager.backend.vms()[old(self).id@].1 == VirtualMachineState::Running,
    {
        let r = self.vm_manager.start_windows_vm(self.id.as_str());
        match r {
            Ok(()) => {},
            Err(e) => return Err(e),
        }
        self.status = RuntimeStatus::Running;
        Ok(())
    }

    fn stop(&mut self) -> (r: Result<(), String>)
        ensures
            old(self).vm_manager.backend.vms().contains_key(old(self).id@) ==> r is Ok && final(self).status
                == RuntimeStatus::Stopped && final(self).vm_manager.backend.vms()[old(self).id@].1
                == VirtualMachineState::Stopped,
            !old(self).vm_manager.backend.vms().contains_key(old(self).id@) ==> (r matches Err(m) && m@
                == "VM not found: "@ + old(self).id@) && final(self).status == old(self).status,
            final(self).id == old(self).id,
    {
        let r = self.vm_manager.stop_windows_vm(self.id.as_str());
        match r {
            Ok(()) => {},
            Err(e) => return Err(e),
        }
        self.status = RuntimeStatus::Stopped;
        Ok(())
    }

    fn pause(&mut self) -> (r: Result<(), String>)
        ensures
            old(self).vm_manager.backend.vms().contains_key(old(self).id@) ==> r is Ok && final(self).status
                == RuntimeStatus::Paused,
            !old(self).vm_manager.backend.vms().contains_key(old(self).id@) ==> (r matches Err(m) && m@
                == "VM not found: "@ + old(self).id@) && final(self).status == old(self).status,
            final(self).id == old(self).id,
    {
        let r = self.vm_manager.pause_windows_vm(self.id.as_str());
        match r {
            Ok(()) => {},
            Err(e) => return Err(e),
        }
        self.status = RuntimeStatus::Paused;
        Ok(())
    }

    fn resume(&mut self) -> (r: Result<(), String>)
        ensures
            old(self).vm_manager.backend.vms().contains_key(old(self).id@) ==> r is Ok && final(self).status
                == RuntimeStatus::Running,
            !old(self).vm_manager.backend.vms().contains_key(old(self).id@) ==> (r matches Err(m) && m@
                == "VM not found: "@ + old(self).id@) && final(self).status == old(self).status,
            final(self).id == old(self).id,
    {
        let r = self.vm_manager.resume_windows_vm(self.id.as_str());
        match r {
            Ok(()) => {},
            Err(e) => return Err(e),
        }
        self.status = RuntimeStatus::Running;
        Ok(())
    }

    fn execute_command(&self, command: &str, args: &[&str]) -> (r: Result<String, String>)
        ensures
            r matches Ok(out) && out@ == "PowerShell Output for: "@ + command@,
    {
        self.automation.execute_powershell(command)
    }
}

} // verus!
