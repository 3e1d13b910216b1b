//! A remote worker seen by the runtime registry as an execution runtime.
use vstd::prelude::*;
use crate::execution::{ExecutionRuntime, RuntimeKind, RuntimeStatus};
use crate::text::{clone_strings, concat2, str_eq, string_list, strs};
use crate::worker::model::{Worker, WorkerError, WorkerHealth, WorkerStatus};

verus! {

/// Adapter that presents a remote worker as an execution runtime.
pub struct RemoteWorkerRuntime {
    pub worker: Worker,
    pub status: RuntimeStatus,
}

/// The runtime kind a worker's first operating system implies.
pub open spec fn kind_for_os(os: Seq<Seq<char>>) -> RuntimeKind {
    if os.len() > 0 && os[0] == "windows"@ {
        RuntimeKind::WindowsVm
    } else if os.len() > 0 && os[0] == "macos"@ {
        RuntimeKind::MacOsVm
    } else if os.len() > 0 && os[0] == "container"@ {
        RuntimeKind::Container
    } else {
        RuntimeKind::RemoteWorker
    }
}

/// The capabilities a remote worker offers: the filesystem plus its applications.
pub open spec fn remote_caps(w: Worker) -> Seq<Seq<char>> {
    seq!["filesystem.read"@, "filesystem.write"@] + w@.applications
}

impl RemoteWorkerRuntime {
    pub fn new(worker: Worker) -> (r: Self)
        ensures
            r.worker@ == worker@,
            r.status_field() == RuntimeStatus::Running,
    {
        RemoteWorkerRuntime { worker, status: RuntimeStatus::Running }
    }

    /// The lifecycle state last set on the runtime.
    pub open spec fn status_field(&self) -> RuntimeStatus {
        self.status
    }

    fn kind_from_os(os: &Vec<String>) -> (r: RuntimeKind)
        ensures
            r == kind_for_os(strs(os@)),
    {
        if os.len() == 0 {
            return RuntimeKind::RemoteWorker;
        }
        let first = os[0].as_str();
        if str_eq(first, "windows") {
            RuntimeKind::WindowsVm
        } else if str_eq(first, "macos") {
            RuntimeKind::MacOsVm
        } else if str_eq(first, "container") {
            RuntimeKind::Container
        } else {
            RuntimeKind::RemoteWorker
        }
    }
}

impl ExecutionRuntime for RemoteWorkerRuntime {
    open spec fn id_view(&self) -> Seq<char> {
        self.worker@.worker_id
    }

    open spec fn caps_view(&self) -> Seq<Seq<char>> {
        remote_caps(self.worker)
    }

    fn runtime_id(&self) -> (r: &str) {
        self.worker.identity.worker_id.as_str()
    }

    fn runtime_type(&self) -> (r: RuntimeKind)
        ensures
            r == kind_for_os(self.worker@.os),
    {
        Self::kind_from_os(&self.worker.capabilities.os)
    }

    fn status(&self) -> (r: RuntimeStatus)
        ensures
            (self.worker.health == WorkerHealth::Disconnected || self.worker.status
                == WorkerStatus::Offline) ==> (r matches RuntimeStatus::Failed(m) && m@
                == "disconnected"@),
            !(self.worker.health == WorkerHealth::Disconnected || self.worker.status
                == WorkerStatus::Offline) ==> r == self.status_field(),
    {
        if self.worker.health == WorkerHealth::Disconnected || self.worker.status == WorkerStatus::Offline {
            RuntimeStatus::Failed(String::from_str("disconnected"))
        } else {
            self.status.clone()
        }
    }

    fn capabilities(&self) -> (r: Vec<String>) {
        let mut caps = string_list(&["filesystem.read", "filesystem.write"]);
        let apps = clone_strings(&self.worker.capabilities.applications);
        let ghost base = caps@;
        let mut i: usize = 0;
        while i < apps.len()
            invariant
                i <= apps.len(),
                base.len() == 2,
                strs(base) == seq!["filesystem.read"@, "filesystem.write"@],
                strs(apps@) == self.worker@.applications,
                strs(caps@) == strs(base) + strs(apps@).subrange(0, i as int),
            decreases apps.len() - i,
        {
            let ghost before = caps@;
            let a = apps[i].clone();
            caps.push(a);
            assert(caps@ == before.push(a));
            assert(strs(caps@) =~= strs(before).push(a@));
            assert(strs(apps@)[i as int] == a@);
            assert(strs(caps@) =~= strs(base) + strs(apps@).subrange(0, i + 1));
            i += 1;
        }
        assert(strs(apps@).subrange(0, apps.len() as int) =~= strs(apps@));
        caps
    }

    fn location(&self) -> (r: String)
        ensures
            r@ == "worker:"@ + self.worker@.worker_id,
    {
        concat2("worker:", self.worker.identity.worker_id.as_str())
    }

    fn security_level(&self) -> (r: u32)
        ensures
            r == 3,
    {
        3
    }

    fn available_tools(&self) -> (r: Vec<String>)
        ensures
            strs(r@) == self.worker@.applications,
    {
        clone_strings(&self.worker.capabilities.applications)
    }

    fn start(&mut self) -> (r: Result<(), String>)
        ensures
            r is Ok,
            final(self).status_field() == RuntimeStatus::Running,
            final(self).worker@ == old(self).worker@,
    {
        self.status = RuntimeStatus::Running;
        Ok(())
    }

    fn stop(&mut self) -> (r: Result<(), String>)
        ensures
            r is Ok,
            final(self).status_field() == RuntimeStatus::Stopped,
            final(self).worker@ == old(self).worker@,
    {
        self.status = RuntimeStatus::Stopped;
        Ok(())
    }

    fn pause(&mut self) -> (r: Result<(), String>)
        ensures
            r is Ok,
            final(self).status_field() == RuntimeStatus::Paused,
            final(self).worker@ == old(self).worker@,
    {
        self.status = RuntimeStatus::Paused;
        Ok(())
    }

    fn resume(&mut self) -> (r: Result<(), String>)
        ensures
            r is Ok,
            final(self).status_field() == RuntimeStatus::Running,
            final(self).worker@ == old(self).worker@,
    {
        self.status = RuntimeStatus::Running;
        Ok(())
    }

    fn execute_command(&self, command: &str, args: &[&str]) -> (r: Result<String, String>)
        ensures
            self.worker.health == WorkerHealth::Disconnected ==> (r matches Err(m) && m@
                == "worker disconnected"@),
            self.worker.health != WorkerHealth::Disconnected ==> (r matches Ok(out) && out@
                == "remote "@ + self.worker@.worker_id + " ran '"@ + command@ + "'"@),
    {
        if self.worker.health == WorkerHealth::Disconnected {
            return Err(String::from_str("worker disconnected"));
        }
        let mut out = concat2("remote ", self.worker.identity.worker_id.as_str());
        out.append(" ran '");
        out.append(command);
        out.append("'");
        Ok(out)
    }
}

/// A failed remote execution is reported as a network failure.
pub fn map_exec_err(err: String) -> (r: WorkerError)
    ensures
        r matches WorkerError::Network(m) && m@ == err@,
{
    WorkerError::Network(err)
}

} // verus!
