//! macOS runtimes: a virtual machine on Apple hardware, or a remote Mac worker.
use vstd::prelude::*;
use crate::execution::{ExecutionRuntime, RuntimeKind, RuntimeStatus};
use crate::text::{concat2, concat3, string_list, strs};

verus! {

/// Where macOS commands run.
pub trait MacOSExecutionBackend {
    fn start_mac(&self) -> Result<(), String>;

    fn stop_mac(&self) -> Result<(), String>;

    fn execute(&self, command: &str) -> Result<String, String>;

    fn backend_type(&self) -> &'static str;
}

/// A macOS virtual machine on this host, which must be Apple hardware.
pub struct LocalMacBackend {
    pub is_apple_hardware: bool,
}

/// The refusal to start macOS off Apple hardware.
pub open spec fn local_start_refusal() -> Seq<char> {
    "Local macOS virtualization is legally & technically restricted to Apple hardware."@
}

/// The refusal to run commands off Apple hardware.
pub open spec fn local_execute_refusal() -> Seq<char> {
    "Local macOS virtualization unavailable on non-Apple hardware."@
}

impl LocalMacBackend {
    /// A local backend on a host that is, or is not, Apple hardware.
    pub fn new(is_apple_hardware: bool) -> (r: Self)
        ensures
            r.is_apple_hardware == is_apple_hardware,
    {
        LocalMacBackend { is_apple_hardware }
    }
}

impl MacOSExecutionBackend for LocalMacBackend {
    fn start_mac(&self) -> (r: Result<(), String>)
        ensures
            self.is_apple_hardware ==> r is Ok,
            !self.is_apple_hardware ==> (r matches Err(m) && m@ == local_start_refusal()),
    {
        if !self.is_apple_hardware {
            return Err(
                String::from_str("Local macOS virtualization is legally & technically restricted to Apple hardware."),
            );
        }
        Ok(())
    }

    fn stop_mac(&self) -> (r: Result<(), String>)
        ensures
            r is Ok,
    {
        Ok(())
    }

    fn execute(&self, command: &str) -> (r: Result<String, String>)
        ensures
            self.is_apple_hardware ==> (r matches Ok(out) && out@ == "Local Mac executed: "@ + command@),
            !self.is_apple_hardware ==> (r matches Err(m) && m@ == local_execute_refusal()),
    {
        if !self.is_apple_hardware {
            return Err(String::from_str("Local macOS virtualization unavailable on non-Apple hardware."));
        }
        Ok(concat2("Local Mac executed: ", command))
    }

    fn backend_type(&self) -> (r: &'static str)
        ensures
            r@ == "local-apple-hardware"@,
    {
        "local-apple-hardware"
    }
}

/// A Mac worker reached over the network.
pub struct RemoteMacBackend {
    pub remote_host: String,
}

impl RemoteMacBackend {
    pub fn new(remote_host: &str) -> (r: Self)
        ensures
            r.remote_host@ == remote_host@,
    {
        RemoteMacBackend { remote_host: String::from_str(remote_host) }
    }
}

impl MacOSExecutionBackend for RemoteMacBackend {
    fn start_mac(&self) -> (r: Result<(), String>)
        ensures
            r is Ok,
    {
        Ok(())
    }

    fn stop_mac(&self) -> (r: Result<(), String>)
        ensures
            r is Ok,
    {
        Ok(())
    }

    fn execute(&self, command: &str) -> (r: Result<String, String>)
        ensures
            r matches Ok(out) && out@ == "Remote Mac ("@ + self.remote_host@ + ") output for: "@ + command@,
    {
        let mut out = concat3("Remote Mac (", self.remote_host.as_str(), ") output for: ");
        out.append(command);
        Ok(out)
    }

    fn backend_type(&self) -> (r: &'static str)
        ensures
            r@ == "remote-mac-worker"@,
    {
        "remote-mac-worker"
    }
}

/// The backend of a macOS runtime.
pub enum MacBackend {
    Local(LocalMacBackend),
    Remote(RemoteMacBackend),
}

/// Whether the backend starts.
pub open spec fn starts(b: MacBackend) -> bool {
    match b {
        MacBackend::Local(l) => l.is_apple_hardware,
        MacBackend::Remote(_) => true,
    }
}

/// What the backend answers to a command.
pub open spec fn execution(b: MacBackend, command: Seq<char>) -> Result<Seq<char>, Seq<char>> {
    match b {
        MacBackend::Local(l) => if l.is_apple_hardware {
            Ok("Local Mac executed: "@ + command)
        } else {
            Err(local_execute_refusal())
        },
        MacBackend::Remote(rm) => Ok("Remote Mac ("@ + rm.remote_host@ + ") output for: "@ + command),
    }
}

/// The backend's kind.
pub open spec fn backend_kind(b: MacBackend) -> Seq<char> {
    match b {
        MacBackend::Local(_) => "local-apple-hardware"@,
        MacBackend::Remote(_) => "remote-mac-worker"@,
    }
}

impl MacOSExecutionBackend for MacBackend {
    fn start_mac(&self) -> (r: Result<(), String>)
        ensures
            starts(*self) ==> r is Ok,
            !starts(*self) ==> (r matches Err(m) && m@ == local_start_refusal()),
    {
        match self {
            MacBackend::Local(l) => l.start_mac(),
            MacBackend::Remote(rm) => rm.start_mac(),
        }
    }

    fn stop_mac(&self) -> (r: Result<(), String>)
        ensures
            r is Ok,
    {
        match self {
            MacBackend::Local(l) => l.stop_mac(),
            MacBackend::Remote(rm) => rm.stop_mac(),
        }
    }

    fn execute(&self, command: &str) -> (r: Result<String, String>)
        ensures
            match (r, execution(*self, command@)) {
                (Ok(a), Ok(b)) => a@ == b,
                (Err(a), Err(b)) => a@ == b,
                _ => false,
            },
    {
        match self {
            MacBackend::Local(l) => l.execute(command),
            MacBackend::Remote(rm) => rm.execute(command),
        }
    }

    fn backend_type(&self) -> (r: &'static str)
        ensures
            r@ == backend_kind(*self),
    {
        match self {
            MacBackend::Local(l) => l.backend_type(),
            MacBackend::Remote(rm) => rm.backend_type(),
        }
    }
}

/// A macOS runtime.
pub struct MacOSRuntime {
    pub id: String,
    pub name: String,
    pub status: RuntimeStatus,
    pub backend: MacBackend,
}

/// Capabilities of a macOS runtime.
pub open spec fn macos_caps() -> Seq<Seq<char>> {
    seq!["macos.zsh"@, "macos.xcode"@, "macos.applescript"@]
}

impl MacOSRuntime {
    /// A created runtime on a local virtual machine.
    pub fn new_local(id: &str, name: &str, is_apple_hardware: bool) -> (r: Self)
        ensures
            r.id@ == id@,
            r.name@ == name@,
            r.status == RuntimeStatus::Created,
            r.backend == MacBackend::Local(LocalMacBackend { is_apple_hardware }),
    {
        MacOSRuntime {
            id: String::from_str(id),
            name: String::from_str(name),
            status: RuntimeStatus::Created,
            backend: MacBackend::Local(LocalMacBackend::new(is_apple_hardware)),
        }
    }

    /// A created runtime on a remote Mac worker.
    pub fn new_remote(id: &str, name: &str, remote_host: &str) -> (r: Self)
        ensures
            r.id@ == id@,
            r.name@ == name@,
            r.status == RuntimeStatus::Created,
            r.backend matches MacBackend::Remote(rm) && rm.remote_host@ == remote_host@,
    {
        MacOSRuntime {
            id: String::from_str(id),
            name: String::from_str(name),
            status: RuntimeStatus::Created,
            backend: MacBackend::Remote(RemoteMacBackend::new(remote_host)),
        }
    }
}

impl ExecutionRuntime for MacOSRuntime {
    open spec fn id_view(&self) -> Seq<char> {
        self.id@
    }

    open spec fn caps_view(&self) -> Seq<Seq<char>> {
        macos_caps()
    }

    fn runtime_id(&self) -> (r: &str) {
        self.id.as_str()
    }

    fn runtime_type(&self) -> (r: RuntimeKind)
        ensures
            r == RuntimeKind::MacOsVm,
    {
        RuntimeKind::MacOsVm
    }

    fn status(&self) -> (r: RuntimeStatus)
        ensures
            r == self.status,
    {
        self.status.clone()
    }

    fn capabilities(&self) -> (r: Vec<String>) {
        let r = string_list(&["macos.zsh", "macos.xcode", "macos.applescript"]);
        assert(strs(r@) =~= macos_caps());
        r
    }

    fn location(&self) -> (r: String)
        ensures
            r@ == backend_kind(self.backend),
    {
        String::from_str(self.backend.backend_type())
    }

    fn security_level(&self) -> (r: u32)
        ensures
            r == 4,
    {
        4
    }

    fn available_tools(&self) -> (r: Vec<String>)
        ensures
            strs(r@) == seq!["zsh"@, "xcodebuild"@, "osascript"@],
    {
        let r = string_list(&["zsh", "xcodebuild", "osascript"]);
        assert(strs(r@) =~= seq!["zsh"@, "xcodebuild"@, "osascript"@]);
        r
    }

    fn start(&mut self) -> (r: Result<(), String>)
        ensures
            starts(old(self).backend) ==> r is Ok && final(self).status == RuntimeStatus::Running,
            !starts(old(self).backend) ==> (r matches Err(m) && m@ == local_start_refusal()) && final(self).status
                == old(self).status,
            final(self).id == old(self).id,
            final(self).backend == old(self).backend,
    {
        self.backend.start_mac()?;
        self.status = RuntimeStatus::Running;
        Ok(())
    }

    fn stop(&mut self) -> (r: Result<(), String>)
        ensures
            r is Ok,
            final(self).status == RuntimeStatus::Stopped,
            final(self).id == old(self).id,
            final(self).backend == old(self).backend,
    {
        self.backend.stop_mac()?;
        self.status = RuntimeStatus::Stopped;
        Ok(())
    }

    fn pause(&mut self) -> (r: Result<(), String>)
        ensures
            r is Ok,
            final(self).status == RuntimeStatus::Paused,
            final(self).id == old(self).id,
    {
        self.status = RuntimeStatus::Paused;
        Ok(())
    }

    fn resume(&mut self) -> (r: Result<(), String>)
        ensures
            r is Ok,
            final(self).status == RuntimeStatus::Running,
            final(self).id == old(self).id,
    {
        self.status = RuntimeStatus::Running;
        Ok(())
    }

    fn execute_command(&self, command: &str, args: &[&str]) -> (r: Result<String, String>)
        ensures
            match (r, execution(self.backend, command@)) {
                (Ok(a), Ok(b)) => a@ == b,
                (Err(a), Err(b)) => a@ == b,
                _ => false,
            },
    {
        self.backend.execute(command)
    }
}

} // verus!
