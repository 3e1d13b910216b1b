use cognyx_runtime::events::RuntimeEventPublisher;
use cognyx_runtime::guest::{GuestFileSystem, GuestMetrics, GuestProcess};
use cognyx_runtime::virtualization::backend::{fresh_id, KvmBackend, MockBackend, VirtualizationBackend};
use cognyx_runtime::virtualization::types::{
    VirtualMachineConfig, VirtualMachineDevice, VirtualMachineNetwork, VirtualMachineResource, VirtualMachineState,
    VirtualMachineStorage, VirtualizationError,
};

fn config(id: &str, uefi: bool, mode: &str) -> VirtualMachineConfig {
    VirtualMachineConfig {
        vm_id: id.to_string(),
        name: "Test VM".to_string(),
        os_type: "linux".to_string(),
        resources: Default::default(),
        storage: VirtualMachineStorage {
            disk_path: "/tmp/test.qcow2".to_string(),
            format: "qcow2".to_string(),
            size_gb: 20,
        },
        network: VirtualMachineNetwork {
            mode: mode.to_string(),
            mac_address: "52:54:00:12:34:56".to_string(),
            ip_address: Some("192.168.122.100".to_string()),
        },
        uefi,
        tpm: false,
        secure_boot: false,
        devices: vec![],
    }
}

#[test]
fn test_mock_backend_lifecycle() {
    let mut backend = MockBackend::new();
    let id = backend.create_vm(config("test-vm-1", true, "nat")).unwrap();
    assert_eq!(id, "test-vm-1");
    assert_eq!(backend.get_state(&id).unwrap(), VirtualMachineState::Stopped);
    backend.start_vm(&id).unwrap();
    assert_eq!(backend.get_state(&id).unwrap(), VirtualMachineState::Running);
    let snap = backend.snapshot_vm(&id, "snap1").unwrap();
    assert_eq!(snap.vm_id, "test-vm-1");
    backend.stop_vm(&id).unwrap();
    assert_eq!(backend.get_state(&id).unwrap(), VirtualMachineState::Stopped);
}

#[test]
fn mock_backend_devices_snapshots_and_clones() {
    let mut backend = MockBackend::new();
    backend.create_vm(config("vm", false, "bridge")).unwrap();
    let dev = VirtualMachineDevice { device_id: "usb-1".into(), device_type: "usb".into(), host_address: "1-1".into() };
    backend.attach_device("vm", dev).unwrap();
    assert_eq!(backend.inspect_vm("vm").unwrap().devices.len(), 1);
    backend.detach_device("vm", "usb-1").unwrap();
    assert!(backend.inspect_vm("vm").unwrap().devices.is_empty());
    let bigger = VirtualMachineResource { cpus: 8, ..Default::default() };
    backend.resize_resources("vm", bigger).unwrap();
    assert_eq!(backend.inspect_vm("vm").unwrap().resources.cpus, 8);
    let snap = backend.snapshot_vm("vm", "s").unwrap();
    assert!(snap.snapshot_id.starts_with("snap-mock-"));
    assert!(backend.restore_snapshot("vm", &snap.snapshot_id).is_ok());
    assert!(matches!(backend.restore_snapshot("vm", "nope"), Err(VirtualizationError::NotFound(_))));
    let copy = backend.clone_vm("vm", "copy").unwrap();
    assert!(copy.starts_with("vm-clone-"));
    assert_eq!(backend.inspect_vm(&copy).unwrap().name, "copy");
    assert_eq!(backend.get_state(&copy).unwrap(), VirtualMachineState::Stopped);
    backend.restart_vm("vm").unwrap();
    assert_eq!(backend.get_state("vm").unwrap(), VirtualMachineState::Running);
    assert_eq!(backend.connect_console("vm").unwrap(), "mock-console://vm");
    backend.delete_vm("vm").unwrap();
    assert!(matches!(backend.start_vm("vm"), Err(VirtualizationError::NotFound(_))));
    assert_eq!(VirtualizationError::NotFound("vm".into()).message(), "VM not found: vm");
}

#[test]
fn qemu_command_line() {
    let args = KvmBackend::build_qemu_args(&config("k", true, "nat"));
    assert_eq!(
        args,
        vec![
            "-enable-kvm", "-m", "4096", "-smp", "2", "-drive", "file=/tmp/test.qcow2,format=qcow2,if=virtio",
            "-bios", "/usr/share/OVMF/OVMF_CODE.fd", "-netdev", "user,id=net0", "-device", "virtio-net-pci,netdev=net0",
        ]
    );
    let plain = KvmBackend::build_qemu_args(&config("k", false, "isolated"));
    assert_eq!(plain.len(), 7);
    let mut kvm = KvmBackend::new();
    kvm.create_vm(config("k", false, "nat")).unwrap();
    kvm.pause_vm("k").unwrap();
    assert_eq!(kvm.get_state("k").unwrap(), VirtualMachineState::Paused);
    assert_eq!(kvm.connect_console("k").unwrap(), "/run/cognyxos/vm-k.sock");
    assert_eq!(kvm.get_logs("k").unwrap().len(), 2);
    assert_eq!(kvm.snapshot_vm("k", "s").unwrap().size_bytes, 1024 * 1024);
}

#[test]
fn guest_services_and_events() {
    assert_eq!(GuestFileSystem::new("vm").read_file("/etc/hostname").unwrap(), b"Content of /etc/hostname".to_vec());
    assert_eq!(GuestMetrics::new("vm").fetch_guest_telemetry().unwrap(), "cpu=5.2%,mem=2048MB,load=0.10");
    assert_eq!(GuestProcess::new("vm").spawn_guest_process("ls", &[]).unwrap(), 1001);
    let e = RuntimeEventPublisher::publish_event("rt-1", 2, "runtime.created", "hello");
    assert!(e.event_id.starts_with("evt-"));
    assert_eq!(e.runtime_id, "rt-1");
    assert_eq!(e.runtime_type, 2);
}

#[test]
fn fresh_ids_carry_prefix_and_uuid() {
    let a = fresh_id("vm-");
    let b = fresh_id("vm-");
    assert!(a.starts_with("vm-"));
    assert_eq!(a.len(), 3 + 36);
    assert_eq!(a.matches('-').count(), 1 + 4);
    assert_ne!(a, b);
}
