//! The guest agent's services inside a virtual machine: automation, power
//! control, files, telemetry, networking and processes.
use vstd::prelude::*;
use crate::text::{concat2, utf8_bytes};

verus! {

/// Sends input to a guest.
pub struct GuestAutomation {
    pub vm_id: String,
}

impl GuestAutomation {
    pub fn new(vm_id: &str) -> (r: Self)
        ensures
            r.vm_id@ == vm_id@,
    {
        GuestAutomation { vm_id: String::from_str(vm_id) }
    }

    /// Keystrokes are accepted.
    pub fn send_keystrokes(&self, text: &str) -> (r: Result<(), String>)
        ensures
            r is Ok,
    {
        Ok(())
    }
}

/// Shuts a guest down or reboots it.
pub struct GuestControl {
    pub vm_id: String,
}

impl GuestControl {
    pub fn new(vm_id: &str) -> (r: Self)
        ensures
            r.vm_id@ == vm_id@,
    {
        GuestControl { vm_id: String::from_str(vm_id) }
    }

    pub fn shutdown_guest(&self) -> (r: Result<(), String>)
        ensures
            r is Ok,
    {
        Ok(())
    }

    pub fn reboot_guest(&self) -> (r: Result<(), String>)
        ensures
            r is Ok,
    {
        Ok(())
    }
}

/// Reads and writes files inside a guest.
pub struct GuestFileSystem {
    pub vm_id: String,
}

impl GuestFileSystem {
    pub fn new(vm_id: &str) -> (r: Self)
        ensures
            r.vm_id@ == vm_id@,
    {
        GuestFileSystem { vm_id: String::from_str(vm_id) }
    }

    /// A file's content: the UTF-8 text `Content of <path>`.
    pub fn read_file(&self, path: &str) -> (r: Result<Vec<u8>, String>)
        ensures
            r matches Ok(bytes) && bytes@ == vstd::utf8::encode_utf8("Content of "@ + path@),
    {
        let text = concat2("Content of ", path);
        Ok(utf8_bytes(text.as_str()))
    }

    /// Writes are accepted.
    pub fn write_file(&self, path: &str, content: &[u8]) -> (r: Result<(), String>)
        ensures
            r is Ok,
    {
        Ok(())
    }
}

/// Telemetry from inside a guest.
pub struct GuestMetrics {
    pub vm_id: String,
}

impl GuestMetrics {
    pub fn new(vm_id: &str) -> (r: Self)
        ensures
            r.vm_id@ == vm_id@,
    {
        GuestMetrics { vm_id: String::from_str(vm_id) }
    }

    pub fn fetch_guest_telemetry(&self) -> (r: Result<String, String>)
        ensures
            r matches Ok(t) && t@ == "cpu=5.2%,mem=2048MB,load=0.10"@,
    {
        Ok(String::from_str("cpu=5.2%,mem=2048MB,load=0.10"))
    }
}

/// Network settings inside a guest.
pub struct GuestNetwork {
    pub vm_id: String,
}

impl GuestNetwork {
    pub fn new(vm_id: &str) -> (r: Self)
        ensures
            r.vm_id@ == vm_id@,
    {
        GuestNetwork { vm_id: String::from_str(vm_id) }
    }

    pub fn configure_ip(&self, ip: &str, netmask: &str) -> (r: Result<(), String>)
        ensures
            r is Ok,
    {
        Ok(())
    }
}

/// Processes inside a guest.
pub struct GuestProcess {
    pub vm_id: String,
}

impl GuestProcess {
    pub fn new(vm_id: &str) -> (r: Self)
        ensures
            r.vm_id@ == vm_id@,
    {
        GuestProcess { vm_id: String::from_str(vm_id) }
    }

    /// A spawned process's identity inside the guest.
    pub fn spawn_guest_process(&self, cmd: &str, args: &[&str]) -> (r: Result<u32, String>)
        ensures
            r matches Ok(pid) && pid == 1001,
    {
        Ok(1001)
    }

    pub fn kill_guest_process(&self, pid: u32) -> (r: Result<(), String>)
        ensures
            r is Ok,
    {
        Ok(())
    }
}

} // verus!
