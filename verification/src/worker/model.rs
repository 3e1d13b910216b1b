//! Worker descriptions and errors.
use vstd::prelude::*;
use crate::text::{clone_strings, concat2, string_list, strs};

verus! {

/// How a worker authenticates.
#[derive(Debug)]
pub struct WorkerIdentity {
    pub worker_id: String,
    pub public_key: String,
    pub token: String,
}

/// What a worker can run.
#[derive(Debug)]
pub struct WorkerCapabilities {
    pub os: Vec<String>,
    pub applications: Vec<String>,
    pub gpu: bool,
}

/// What a worker has to offer.
#[derive(Clone, Copy, Debug, PartialEq, Eq, Structural)]
pub struct WorkerResources {
    pub cpu: u32,
    pub ram_mb: u32,
    pub gpu_count: u32,
    pub disk_mb: u32,
    pub network_mbps: u32,
    pub latency_ms: u32,
}

#[derive(Clone, Copy, Debug, PartialEq, Eq, Structural)]
pub enum WorkerHealth {
    Healthy,
    Degraded,
    Unhealthy,
    Disconnected,
}

#[derive(Clone, Copy, Debug, PartialEq, Eq, Structural)]
pub enum WorkerStatus {
    Registered,
    Online,
    Busy,
    Offline,
    Failed,
}

/// Who may dispatch to a worker, and whether destructive tasks are allowed.
#[derive(Debug)]
pub struct WorkerPolicy {
    pub allowed_principals: Vec<String>,
    pub allow_destructive: bool,
}

/// A remote worker.
#[derive(Debug)]
pub struct Worker {
    pub identity: WorkerIdentity,
    pub capabilities: WorkerCapabilities,
    pub resources: WorkerResources,
    pub health: WorkerHealth,
    pub status: WorkerStatus,
    pub policy: WorkerPolicy,
    pub last_heartbeat_secs: u64,
    pub tls_required: bool,
}

/// The abstract content of a worker.
pub struct WorkerView {
    pub worker_id: Seq<char>,
    pub public_key: Seq<char>,
    pub token: Seq<char>,
    pub os: Seq<Seq<char>>,
    pub applications: Seq<Seq<char>>,
    pub gpu: bool,
    pub resources: WorkerResources,
    pub health: WorkerHealth,
    pub status: WorkerStatus,
    pub allowed_principals: Seq<Seq<char>>,
    pub allow_destructive: bool,
    pub last_heartbeat_secs: u64,
    pub tls_required: bool,
}

impl View for Worker {
    type V = WorkerView;

    open spec fn view(&self) -> WorkerView {
        WorkerView {
            worker_id: self.identity.worker_id@,
            public_key: self.identity.public_key@,
            token: self.identity.token@,
            os: strs(self.capabilities.os@),
            applications: strs(self.capabilities.applications@),
            gpu: self.capabilities.gpu,
            resources: self.resources,
            health: self.health,
            status: self.status,
            allowed_principals: strs(self.policy.allowed_principals@),
            allow_destructive: self.policy.allow_destructive,
            last_heartbeat_secs: self.last_heartbeat_secs,
            tls_required: self.tls_required,
        }
    }
}

impl Clone for Worker {
    fn clone(&self) -> (r: Self)
        ensures
            r@ == self@,
    {
        Worker {
            identity: WorkerIdentity {
                worker_id: self.identity.worker_id.clone(),
                public_key: self.identity.public_key.clone(),
                token: self.identity.token.clone(),
            },
            capabilities: WorkerCapabilities {
                os: clone_strings(&self.capabilities.os),
                applications: clone_strings(&self.capabilities.applications),
                gpu: self.capabilities.gpu,
            },
            resources: self.resources,
            health: self.health,
            status: self.status,
            policy: WorkerPolicy {
                allowed_principals: clone_strings(&self.policy.allowed_principals),
                allow_destructive: self.policy.allow_destructive,
            },
            last_heartbeat_secs: self.last_heartbeat_secs,
            tls_required: self.tls_required,
        }
    }
}

/// Seconds since the Unix epoch on the host clock.
#[verifier::external_body]
pub fn now_secs() -> u64 {
    std::time::SystemTime::now().duration_since(std::time::UNIX_EPOCH).unwrap_or_default().as_secs()
}

impl Worker {
    /// A freshly registered worker for one operating system, with default
    /// resources, a healthy state and a policy that admits only the kernel.
    pub fn new(id: &str, os: &str) -> (r: Self)
        ensures
            r@.worker_id == id@,
            r@.public_key == "pub-"@ + id@,
            r@.token == "tok-"@ + id@,
            r@.os == seq![os@],
            r@.applications == Seq::<Seq<char>>::empty(),
            !r@.gpu,
            r@.resources == (WorkerResources {
                cpu: 4,
                ram_mb: 8192,
                gpu_count: 0,
                disk_mb: 102400,
                network_mbps: 1000,
                latency_ms: 5,
            }),
            r@.health == WorkerHealth::Healthy,
            r@.status == WorkerStatus::Registered,
            r@.allowed_principals == seq!["kernel"@],
            !r@.allow_destructive,
            r@.tls_required,
    {
        let os_list = string_list(&[os]);
        let principals = string_list(&["kernel"]);
        let r = Worker {
            identity: WorkerIdentity {
                worker_id: String::from_str(id),
                public_key: concat2("pub-", id),
                token: concat2("tok-", id),
            },
            capabilities: WorkerCapabilities { os: os_list, applications: Vec::new(), gpu: false },
            resources: WorkerResources {
                cpu: 4,
                ram_mb: 8192,
                gpu_count: 0,
                disk_mb: 102400,
                network_mbps: 1000,
                latency_ms: 5,
            },
            health: WorkerHealth::Healthy,
            status: WorkerStatus::Registered,
            policy: WorkerPolicy { allowed_principals: principals, allow_destructive: false },
            last_heartbeat_secs: now_secs(),
            tls_required: true,
        };
        assert(r@.os =~= seq![os@]);
        assert(r@.applications =~= Seq::<Seq<char>>::empty());
        assert(r@.allowed_principals =~= seq!["kernel"@]);
        r
    }
}

/// Why a worker operation was refused.
#[derive(Debug, Clone, PartialEq, Eq)]
pub enum WorkerError {
    AuthenticationFailure,
    AuthorizationFailure(String),
    Unavailable(String),
    Network(String),
    DuplicateDestructive(String),
    NonTransferable(String),
    NotFound(String),
    Integrity(String),
}

impl WorkerError {
    /// The human-readable message of the error.
    pub fn message(&self) -> (r: String)
        ensures
            match self {
                WorkerError::AuthenticationFailure => r@ == "unauthenticated worker"@,
                WorkerError::AuthorizationFailure(m) => r@ == "unauthorized: "@ + m@,
                WorkerError::Unavailable(m) => r@ == "worker unavailable: "@ + m@,
                WorkerError::Network(m) => r@ == "network failure: "@ + m@,
                WorkerError::DuplicateDestructive(m) => r@
                    == "duplicate destructive execution blocked: "@ + m@,
                WorkerError::NonTransferable(m) => r@ == "non-transferable state: "@ + m@,
                WorkerError::NotFound(m) => r@ == "not found: "@ + m@,
                WorkerError::Integrity(m) => r@ == "transfer integrity: "@ + m@,
            },
    {
        match self {
            WorkerError::AuthenticationFailure => String::from_str("unauthenticated worker"),
            WorkerError::AuthorizationFailure(m) => concat2("unauthorized: ", m.as_str()),
            WorkerError::Unavailable(m) => concat2("worker unavailable: ", m.as_str()),
            WorkerError::Network(m) => concat2("network failure: ", m.as_str()),
            WorkerError::DuplicateDestructive(m) => concat2(
                "duplicate destructive execution blocked: ",
                m.as_str(),
            ),
            WorkerError::NonTransferable(m) => concat2("non-transferable state: ", m.as_str()),
            WorkerError::NotFound(m) => concat2("not found: ", m.as_str()),
            WorkerError::Integrity(m) => concat2("transfer integrity: ", m.as_str()),
        }
    }
}

} // verus!
