use cognyx_runtime::container::{ContainerBackend, ContainerError, ContainerRuntime, ContainerSpec};
use cognyx_runtime::execution::{
    native_host_runtime_id, native_host_runtime_name, ExecutionRuntime, LinuxRuntime, RuntimeKind, RuntimeRegistry,
    RuntimeStatus,
};
use cognyx_runtime::macos::MacOSRuntime;
use cognyx_runtime::manager::RuntimeManagerServer;
use cognyx_runtime::windows::{WindowsCapabilityAdapter, WindowsFilesystemBridge, WindowsGuestCommunication, WindowsRuntime};

#[test]
fn test_container_runtime_lifecycle() {
    let mut runtime = ContainerRuntime::new("c-101", "Alpine Web Server");
    assert_eq!(runtime.runtime_type(), RuntimeKind::Container);
    let spec = ContainerSpec {
        container_id: "c-101".to_string(),
        name: "Alpine Web Server".to_string(),
        image: "alpine:latest".to_string(),
        command: vec!["sleep".to_string(), "3600".to_string()],
        env: vec![],
        volume_mounts: vec![],
        gpu_access: false,
    };
    runtime.backend.create_container(spec).unwrap();
    runtime.start().unwrap();
    assert_eq!(runtime.status(), RuntimeStatus::Running);
    let out = runtime.execute_command("echo", &["hello"]).unwrap();
    assert!(out.contains("echo"));
    assert_eq!(out, "Executed '[\"echo\", \"hello\"]' in container c-101");
    runtime.stop().unwrap();
    assert_eq!(runtime.status(), RuntimeStatus::Stopped);
}

#[test]
fn container_runtime_without_container_fails() {
    let mut runtime = ContainerRuntime::new("c-9", "Missing");
    assert_eq!(runtime.start().unwrap_err(), "Container not found: c-9");
    assert_eq!(runtime.status(), RuntimeStatus::Created);
    assert!(runtime.backend.get_logs("c-9").is_err());
    assert_eq!(ContainerError::ExecutionFailed("x".into()).message(), "Execution error: x");
    assert_eq!(runtime.security_level(), 3);
    assert!(runtime.can_perform("container.logs"));
    assert!(!runtime.can_perform("bash"));
}

#[test]
fn test_remote_mac_runtime() {
    let mut runtime = MacOSRuntime::new_remote("mac-1", "Mac Studio Worker", "mac-host.local:50051");
    assert_eq!(runtime.runtime_type(), RuntimeKind::MacOsVm);
    runtime.start().unwrap();
    assert_eq!(runtime.status(), RuntimeStatus::Running);
    let out = runtime.execute_command("xcodebuild -version", &[]).unwrap();
    assert!(out.contains("Mac Studio Worker") || out.contains("xcodebuild"));
    runtime.stop().unwrap();
    assert_eq!(runtime.status(), RuntimeStatus::Stopped);
    assert_eq!(runtime.location(), "remote-mac-worker");
}

#[test]
fn local_mac_needs_apple_hardware() {
    let mut runtime = MacOSRuntime::new_local("mac-2", "Local", false);
    assert!(runtime.start().is_err());
    assert_eq!(runtime.status(), RuntimeStatus::Created);
    assert!(runtime.execute_command("ls", &[]).is_err());
    let mut apple = MacOSRuntime::new_local("mac-3", "Local", true);
    apple.start().unwrap();
    assert_eq!(apple.execute_command("ls", &[]).unwrap(), "Local Mac executed: ls");
}

#[test]
fn test_windows_runtime_execution() {
    let mut runtime = WindowsRuntime::new("win-10", "Windows 11 Enterprise", "linux");
    assert_eq!(runtime.runtime_type(), RuntimeKind::WindowsVm);
    runtime.start().unwrap();
    assert_eq!(runtime.status(), RuntimeStatus::Running);
    let res = runtime.execute_command("Get-Process", &[]).unwrap();
    assert!(res.contains("Get-Process"));
    runtime.stop().unwrap();
    assert_eq!(runtime.status(), RuntimeStatus::Stopped);
    assert_eq!(runtime.location(), "local-kvm");
    assert_eq!(runtime.security_level(), 4);
}

#[test]
fn native_host_identity_is_windows_not_linux() {
    let host = WindowsRuntime::host("windows");
    assert!(!host.runtime_id().to_lowercase().contains("linux"));
    assert!(host.runtime_id().to_lowercase().contains("windows"));
    assert_eq!(host.status(), RuntimeStatus::Running);
    assert_eq!(host.location(), "local-host");
    assert_eq!(host.security_level(), 1);
}

#[test]
fn host_identity_follows_the_operating_system() {
    assert_eq!(native_host_runtime_id("macos"), "macos-host");
    assert_eq!(native_host_runtime_id("freebsd"), "linux-host-1");
    assert_eq!(native_host_runtime_name("windows"), "Host Windows");
}

#[test]
fn test_runtime_registry_capability_lookup() {
    let mut registry = RuntimeRegistry::new();
    let linux = LinuxRuntime::new("linux-host-1", "Local Host");
    let id = registry.register(linux);
    assert_eq!(id, "linux-host-1");
    let found = registry.find_runtime_for_capability("bash");
    assert_eq!(found, Some("linux-host-1".to_string()));
    assert_eq!(registry.find_runtime_for_capability("gpu.cuda"), None);
    registry.unregister("linux-host-1");
    assert!(registry.list_runtime_ids().is_empty());
}

#[test]
fn windows_helpers() {
    assert_eq!(WindowsCapabilityAdapter::translate_capability("win32.powershell"), Some("SePowerShellPrivilege"));
    assert_eq!(WindowsCapabilityAdapter::translate_capability("win32.cmd"), None);
    let mut bridge = WindowsFilesystemBridge::new("vm-1");
    bridge.mount_shared_folder("share", "/srv/share".to_string());
    assert_eq!(bridge.shared_folders, vec![("share".to_string(), "/srv/share".to_string())]);
    let comm = WindowsGuestCommunication::new("vm-1", 5000);
    assert_eq!(comm.send_rpc_command("ping", b"x").unwrap(), b"RPC Response for ping".to_vec());
}

#[test]
fn manager_starts_empty_and_answers_network_policy() {
    let manager = RuntimeManagerServer::new(None);
    assert_eq!(manager.storage().disks_dir, "/var/lib/cognyxos/disks");
    assert!(manager.registry().list_runtime_ids().is_empty());
    let (allowed, reason) = manager.check_network_policy("rt-a", "rt-b", 443, "tcp");
    assert!(allowed);
    assert_eq!(reason, "Default host network policy allowed communication");
    let configured = RuntimeManagerServer::new(Some("/srv/cognyx".to_string()));
    assert_eq!(configured.storage().images_dir, "/srv/cognyx/images");
    assert_eq!(configured.storage().snapshots_dir, "/srv/cognyx/snapshots");
}
