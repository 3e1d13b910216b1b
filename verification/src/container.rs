//! Containers: the backend lifecycle, an in-memory backend, and the container
//! runtime built on it.
use vstd::prelude::*;
use dashmap::DashMap;
use crate::execution::{ExecutionRuntime, RuntimeKind, RuntimeStatus};
use crate::text::{concat2, concat3, string_list, strs};

verus! {

/// Why a container operation failed.
#[derive(Debug, Clone, PartialEq, Eq)]
pub enum ContainerError {
    NotFound(String),
    ExecutionFailed(String),
}

impl ContainerError {
    /// The human-readable message of the error.
    pub fn message(&self) -> (r: String)
        ensures
            match self {
                ContainerError::NotFound(id) => r@ == "Container not found: "@ + id@,
                ContainerError::ExecutionFailed(m) => r@ == "Execution error: "@ + m@,
            },
    {
        match self {
            ContainerError::NotFound(id) => concat2("Container not found: ", id.as_str()),
            ContainerError::ExecutionFailed(m) => concat2("Execution error: ", m.as_str()),
        }
    }
}

/// What a container is made from.
#[derive(Debug)]
pub struct ContainerSpec {
    pub container_id: String,
    pub name: String,
    pub image: String,
    pub command: Vec<String>,
    pub env: Vec<(String, String)>,
    pub volume_mounts: Vec<String>,
    pub gpu_access: bool,
}

/// A container spec as a value.
pub struct ContainerSpecView {
    pub container_id: Seq<char>,
    pub name: Seq<char>,
    pub image: Seq<char>,
    pub command: Seq<Seq<char>>,
    pub env: Seq<(Seq<char>, Seq<char>)>,
    pub volume_mounts: Seq<Seq<char>>,
    pub gpu_access: bool,
}

impl View for ContainerSpec {
    type V = ContainerSpecView;

    open spec fn view(&self) -> ContainerSpecView {
        ContainerSpecView {
            container_id: self.container_id@,
            name: self.name@,
            image: self.image@,
            command: strs(self.command@),
            env: self.env@.map_values(|p: (String, String)| (p.0@, p.1@)),
            volume_mounts: strs(self.volume_mounts@),
            gpu_access: self.gpu_access,
        }
    }
}

impl Clone for ContainerSpec {
    fn clone(&self) -> (r: Self)
        ensures
            r@ == self@,
    {
        let mut env: Vec<(String, String)> = Vec::new();
        let mut i: usize = 0;
        while i < self.env.len()
            invariant
                i <= self.env.len(),
                env@.map_values(|p: (String, String)| (p.0@, p.1@)) == self.env@.map_values(
                    |p: (String, String)| (p.0@, p.1@),
                ).take(i as int),
            decreases self.env.len() - i,
        {
            let ghost prev = env@;
            env.push((self.env[i].0.clone(), self.env[i].1.clone()));
            assert(env@.map_values(|p: (String, String)| (p.0@, p.1@)) =~= prev.map_values(
                |p: (String, String)| (p.0@, p.1@),
            ).push((self.env@[i as int].0@, self.env@[i as int].1@)));
            assert(self.env@.map_values(|p: (String, String)| (p.0@, p.1@)).take(i + 1) =~= self.env@.map_values(
                |p: (String, String)| (p.0@, p.1@),
            ).take(i as int).push((self.env@[i as int].0@, self.env@[i as int].1@)));
            assert(env@.map_values(|p: (String, String)| (p.0@, p.1@)) =~= self.env@.map_values(
                |p: (String, String)| (p.0@, p.1@),
            ).take(i + 1));
            i += 1;
        }
        assert(self.env@.map_values(|p: (String, String)| (p.0@, p.1@)).take(self.env.len() as int)
            =~= self.env@.map_values(|p: (String, String)| (p.0@, p.1@)));
        ContainerSpec {
            container_id: self.container_id.clone(),
            name: self.name.clone(),
            image: self.image.clone(),
            command: crate::text::clone_strings(&self.command),
            env,
            volume_mounts: crate::text::clone_strings(&self.volume_mounts),
            gpu_access: self.gpu_access,
        }
    }
}

/// A table of containers by identity, each with its state text.
pub type ContainerTable = DashMap<String, (ContainerSpec, String)>;

/// The containers a table holds, by identity, with their states.
pub uninterp spec fn container_table(m: DashMap<String, (ContainerSpec, String)>) -> Map<
    Seq<char>,
    (ContainerSpecView, Seq<char>),
>;

/// No containers.
pub open spec fn no_containers() -> Map<Seq<char>, (ContainerSpecView, Seq<char>)> {
    Map::empty()
}

/// `DashMap::new`: an empty table.
#[verifier::external_body]
fn containers_new() -> (r: ContainerTable)
    ensures
        container_table(r) == no_containers(),
{
    DashMap::new()
}

/// `DashMap::insert`: the key now maps to the container; other keys are unchanged.
#[verifier::external_body]
fn containers_insert(m: &mut DashMap<String, (ContainerSpec, String)>, k: String, v: (ContainerSpec, String))
    ensures
        container_table(*final(m)) == container_table(*old(m)).insert(k@, (v.0@, v.1@)),
{
    m.insert(k, v);
}

/// `DashMap::get`, cloning the container and state found under the key.
#[verifier::external_body]
fn containers_get(m: &DashMap<String, (ContainerSpec, String)>, k: &str) -> (r: Option<(ContainerSpec, String)>)
    ensures
        r is Some <==> container_table(*m).contains_key(k@),
        r matches Some(p) ==> (p.0@, p.1@) == container_table(*m)[k@],
{
    m.get(k).map(|e| e.value().clone())
}

/// `DashMap::remove`: the key is gone; whether it was there is returned.
#[verifier::external_body]
fn containers_remove(m: &mut DashMap<String, (ContainerSpec, String)>, k: &str) -> (r: bool)
    ensures
        container_table(*final(m)) == container_table(*old(m)).remove(k@),
        r == container_table(*old(m)).contains_key(k@),
{
    m.remove(k).is_some()
}

/// `DashMap::contains_key`.
#[verifier::external_body]
fn containers_contains(m: &DashMap<String, (ContainerSpec, String)>, k: &str) -> (r: bool)
    ensures
        r == container_table(*m).contains_key(k@),
{
    m.contains_key(k)
}

/// What `{:?}` renders a list of strings as.
pub uninterp spec fn debug_rendering(items: Seq<Seq<char>>) -> Seq<char>;

/// `format!("{:?}", items)`: the debug rendering of a list of strings.
#[verifier::external_body]
fn render_debug(items: &[&str]) -> (r: String)
    ensures
        r@ == debug_rendering(items@.map_values(|s: &str| s@)),
{
    format!("{:?}", items)
}

/// The result is the refusal of an unknown container `id`.
pub open spec fn container_not_found<T>(r: Result<T, ContainerError>, id: Seq<char>) -> bool {
    r matches Err(e) && (e matches ContainerError::NotFound(m) && m@ == id)
}

/// The table with container `id` in state `s`.
pub open spec fn with_container_state(
    t: Map<Seq<char>, (ContainerSpecView, Seq<char>)>,
    id: Seq<char>,
    s: Seq<char>,
) -> Map<Seq<char>, (ContainerSpecView, Seq<char>)> {
    t.insert(id, (t[id].0, s))
}

/// What running a command in a container reports, given the command's debug
/// rendering.
pub fn exec_message(rendered: &str, id: &str) -> (r: String)
    ensures
        r@ == "Executed '"@ + rendered@ + "' in container "@ + id@,
{
    let mut r = concat3("Executed '", rendered, "' in container ");
    r.append(id);
    r
}

/// The lifecycle of a container backend.
pub trait ContainerBackend {
    /// The containers the backend knows, with their states.
    spec fn containers(&self) -> Map<Seq<char>, (ContainerSpecView, Seq<char>)>;

    /// Registers a `created` container under its identity and returns it.
    fn create_container(&mut self, spec: ContainerSpec) -> (r: Result<String, ContainerError>)
        ensures
            r matches Ok(id) && id@ == spec.container_id@,
            final(self).containers() == old(self).containers().insert(spec.container_id@, (spec@, "created"@)),
    ;

    /// Marks a known container `running`.
    fn start_container(&mut self, id: &str) -> (r: Result<(), ContainerError>)
        ensures
            old(self).containers().contains_key(id@) ==> r is Ok && final(self).containers() == with_container_state(
                old(self).containers(),
                id@,
                "running"@,
            ),
            !old(self).containers().contains_key(id@) ==> container_not_found(r, id@) && final(self).containers()
                == old(self).containers(),
    ;

    /// Marks a known container `stopped`.
    fn stop_container(&mut self, id: &str) -> (r: Result<(), ContainerError>)
        ensures
            old(self).containers().contains_key(id@) ==> r is Ok && final(self).containers() == with_container_state(
                old(self).containers(),
                id@,
                "stopped"@,
            ),
            !old(self).containers().contains_key(id@) ==> container_not_found(r, id@) && final(self).containers()
                == old(self).containers(),
    ;

    /// Marks a known container `paused`.
    fn pause_container(&mut self, id: &str) -> (r: Result<(), ContainerError>)
        ensures
            old(self).containers().contains_key(id@) ==> r is Ok && final(self).containers() == with_container_state(
                old(self).containers(),
                id@,
                "paused"@,
            ),
            !old(self).containers().contains_key(id@) ==> container_not_found(r, id@) && final(self).containers()
                == old(self).containers(),
    ;

    /// Marks a known container `running` again.
    fn resume_container(&mut self, id: &str) -> (r: Result<(), ContainerError>)
        ensures
            old(self).containers().contains_key(id@) ==> r is Ok && final(self).containers() == with_container_state(
                old(self).containers(),
                id@,
                "running"@,
            ),
            !old(self).containers().contains_key(id@) ==> container_not_found(r, id@) && final(self).containers()
                == old(self).containers(),
    ;

    /// Forgets a known container.
    fn delete_container(&mut self, id: &str) -> (r: Result<(), ContainerError>)
        ensures
            old(self).containers().contains_key(id@) ==> r is Ok,
            !old(self).containers().contains_key(id@) ==> container_not_found(r, id@),
            final(self).containers() == old(self).containers().remove(id@),
    ;

    /// Runs a command in a known container.
    fn exec_command(&self, id: &str, cmd: &[&str]) -> (r: Result<String, ContainerError>)
        ensures
            self.containers().contains_key(id@) ==> r is Ok,
            !self.containers().contains_key(id@) ==> container_not_found(r, id@),
    ;

    /// The log of a known container.
    fn get_logs(&self, id: &str) -> (r: Result<Vec<String>, ContainerError>)
        ensures
            self.containers().contains_key(id@) ==> r is Ok,
            !self.containers().contains_key(id@) ==> container_not_found(r, id@),
    ;
}

/// An in-memory container backend that runs nothing.
pub struct MockContainerBackend {
    containers: DashMap<String, (ContainerSpec, String)>,
}

impl MockContainerBackend {
    pub fn new() -> (r: Self)
        ensures
            r.containers() == no_containers(),
    {
        MockContainerBackend { containers: containers_new() }
    }

    fn set_state(&mut self, id: &str, state: &str) -> (r: Result<(), ContainerError>)
        ensures
            old(self).containers().contains_key(id@) ==> r is Ok && final(self).containers() == with_container_state(
                old(self).containers(),
                id@,
                state@,
            ),
            !old(self).containers().contains_key(id@) ==> container_not_found(r, id@) && final(self).containers()
                == old(self).containers(),
    {
        match containers_get(&self.containers, id) {
            None => Err(ContainerError::NotFound(String::from_str(id))),
            Some((spec, _)) => {
                containers_insert(&mut self.containers, String::from_str(id), (spec, String::from_str(state)));
                Ok(())
            },
        }
    }
}

impl ContainerBackend for MockContainerBackend {
    closed spec fn containers(&self) -> Map<Seq<char>, (ContainerSpecView, Seq<char>)> {
        container_table(self.containers)
    }

    fn create_container(&mut self, spec: ContainerSpec) -> (r: Result<String, ContainerError>) {
        let id = spec.container_id.clone();
        containers_insert(&mut self.containers, id.clone(), (spec, String::from_str("created")));
        Ok(id)
    }

    fn start_container(&mut self, id: &str) -> (r: Result<(), ContainerError>) {
        self.set_state(id, "running")
    }

    fn stop_container(&mut self, id: &str) -> (r: Result<(), ContainerError>) {
        self.set_state(id, "stopped")
    }

    fn pause_container(&mut self, id: &str) -> (r: Result<(), ContainerError>) {
        self.set_state(id, "paused")
    }

    fn resume_container(&mut self, id: &str) -> (r: Result<(), ContainerError>) {
        self.set_state(id, "running")
    }

    fn delete_container(&mut self, id: &str) -> (r: Result<(), ContainerError>) {
        if containers_remove(&mut self.containers, id) {
            Ok(())
        } else {
            Err(ContainerError::NotFound(String::from_str(id)))
        }
    }

    fn exec_command(&self, id: &str, cmd: &[&str]) -> (r: Result<String, ContainerError>)
        ensures
            self.containers().contains_key(id@) ==> (r matches Ok(out) && out@ == "Executed '"@ + debug_rendering(
                cmd@.map_values(|s: &str| s@),
            ) + "' in container "@ + id@),
    {
        if !containers_contains(&self.containers, id) {
            return Err(ContainerError::NotFound(String::from_str(id)));
        }
        let rendered = render_debug(cmd);
        Ok(exec_message(rendered.as_str(), id))
    }

    fn get_logs(&self, id: &str) -> (r: Result<Vec<String>, ContainerError>)
        ensures
            self.containers().contains_key(id@) ==> (r matches Ok(lines) && strs(lines@) == seq![
                "[MockContainer] Container "@ + id@ + " started"@,
            ]),
    {
        if !containers_contains(&self.containers, id) {
            return Err(ContainerError::NotFound(String::from_str(id)));
        }
        let mut lines: Vec<String> = Vec::new();
        lines.push(concat3("[MockContainer] Container ", id, " started"));
        assert(strs(lines@) =~= seq!["[MockContainer] Container "@ + id@ + " started"@]);
        Ok(lines)
    }
}

/// A runtime that runs commands in a container.
pub struct ContainerRuntime {
    pub id: String,
    pub name: String,
    pub status: RuntimeStatus,
    pub backend: MockContainerBackend,
}

/// Capabilities of a container runtime.
pub open spec fn container_caps() -> Seq<Seq<char>> {
    seq!["container.exec"@, "container.logs"@, "container.isolate"@]
}

impl ContainerRuntime {
    /// A created runtime with an empty in-memory backend.
    pub fn new(id: &str, name: &str) -> (r: Self)
        ensures
            r.id@ == id@,
            r.name@ == name@,
            r.status == RuntimeStatus::Created,
            r.backend.containers() == no_containers(),
    {
        ContainerRuntime {
            id: String::from_str(id),
            name: String::from_str(name),
            status: RuntimeStatus::Created,
            backend: MockContainerBackend::new(),
        }
    }
}

/// The error text of a failed backend call.
fn error_text(e: ContainerError) -> (r: String)
    ensures
        r@ == match e {
            ContainerError::NotFound(id) => "Container not found: "@ + id@,
            ContainerError::ExecutionFailed(m) => "Execution error: "@ + m@,
        },
{
    e.message()
}

impl ExecutionRuntime for ContainerRuntime {
    open spec fn id_view(&self) -> Seq<char> {
        self.id@
    }

    open spec fn caps_view(&self) -> Seq<Seq<char>> {
        container_caps()
    }

    fn runtime_id(&self) -> (r: &str) {
        self.id.as_str()
    }

    fn runtime_type(&self) -> (r: RuntimeKind)
        ensures
            r == RuntimeKind::Container,
    {
        RuntimeKind::Container
    }

    fn status(&self) -> (r: RuntimeStatus)
        ensures
            r == self.status,
    {
        self.status.clone()
    }

    fn capabilities(&self) -> (r: Vec<String>) {
        let r = string_list(&["container.exec", "container.logs", "container.isolate"]);
        assert(strs(r@) =~= container_caps());
        r
    }

    fn location(&self) -> (r: String)
        ensures
            r@ == "local"@,
    {
        String::from_str("local")
    }

    fn security_level(&self) -> (r: u32)
        ensures
            r == 3,
    {
        3
    }

    fn available_tools(&self) -> (r: Vec<String>)
        ensures
            strs(r@) == seq!["sh"@, "env"@, "cat"@],
    {
        let r = string_list(&["sh", "env", "cat"]);
        assert(strs(r@) =~= seq!["sh"@, "env"@, "cat"@]);
        r
    }

    fn start(&mut self) -> (r: Result<(), String>)
        ensures
            old(self).backend.containers().contains_key(old(self).id@) ==> r is Ok && final(self).status
                == RuntimeStatus::Running,
            !old(self).backend.containers().contains_key(old(self).id@) ==> (r matches Err(m) && m@
                == "Container not found: "@ + old(self).id@) && final(self).status == old(self).status,
            final(self).id == old(self).id,
    {
        match self.backend.start_container(self.id.as_str()) {
            Ok(()) => {},
            Err(e) => return Err(error_text(e)),
        }
        self.status = RuntimeStatus::Running;
        Ok(())
    }

    fn stop(&mut self) -> (r: Result<(), String>)
        ensures
            old(self).backend.containers().contains_key(old(self).id@) ==> r is Ok && final(self).status
                == RuntimeStatus::Stopped,
            !old(self).backend.containers().contains_key(old(self).id@) ==> (r matches Err(m) && m@
                == "Container not found: "@ + old(self).id@) && final(self).status == old(self).status,
            final(self).id == old(self).id,
    {
        match self.backend.stop_container(self.id.as_str()) {
            Ok(()) => {},
            Err(e) => return Err(error_text(e)),
        }
        self.status = RuntimeStatus::Stopped;
        Ok(())
    }

    fn pause(&mut self) -> (r: Result<(), String>)
        ensures
            old(self).backend.containers().contains_key(old(self).id@) ==> r is Ok && final(self).status
                == RuntimeStatus::Paused,
            !old(self).backend.containers().contains_key(old(self).id@) ==> (r matches Err(m) && m@
                == "Container not found: "@ + old(self).id@) && final(self).status == old(self).status,
            final(self).id == old(self).id,
    {
        match self.backend.pause_container(self.id.as_str()) {
            Ok(()) => {},
            Err(e) => return Err(error_text(e)),
        }
        self.status = RuntimeStatus::Paused;
        Ok(())
    }

    fn resume(&mut self) -> (r: Result<(), String>)
        ensures
            old(self).backend.containers().contains_key(old(self).id@) ==> r is Ok && final(self).status
                == RuntimeStatus::Running,
            !old(self).backend.containers().contains_key(old(self).id@) ==> (r matches Err(m) && m@
                == "Container not found: "@ + old(self).id@) && final(self).status == old(self).status,
            final(self).id == old(self).id,
    {
        match self.backend.resume_container(self.id.as_str()) {
            Ok(()) => {},
            Err(e) => return Err(error_text(e)),
        }
        self.status = RuntimeStatus::Running;
        Ok(())
    }

    fn execute_command(&self, command: &str, args: &[&str]) -> (r: Result<String, String>)
        ensures
            self.backend.containers().contains_key(self.id@) ==> (r matches Ok(out) && out@ == "Executed '"@
                + debug_rendering(seq![command@] + args@.map_values(|s: &str| s@)) + "' in container "@ + self.id@),
            !self.backend.containers().contains_key(self.id@) ==> (r matches Err(m) && m@ == "Container not found: "@
                + self.id@),
    {
        let mut full: Vec<&str> = Vec::new();
        full.push(command);
        let mut i: usize = 0;
        while i < args.len()
            invariant
                i <= args@.len(),
                full@.map_values(|s: &str| s@) == seq![command@] + args@.take(i as int).map_values(|s: &str| s@),
            decreases args@.len() - i,
        {
            let ghost prev = full@;
            full.push(args[i]);
            assert(full@.map_values(|s: &str| s@) =~= prev.map_values(|s: &str| s@).push(args@[i as int]@));
            assert(args@.take(i + 1).map_values(|s: &str| s@) =~= args@.take(i as int).map_values(|s: &str| s@).push(
                args@[i as int]@,
            ));
            assert(full@.map_values(|s: &str| s@) =~= seq![command@] + args@.take(i + 1).map_values(|s: &str| s@));
            i += 1;
        }
        assert(args@.take(args@.len() as int) =~= args@);
        match self.backend.exec_command(self.id.as_str(), full.as_slice()) {
            Ok(out) => Ok(out),
            Err(e) => Err(error_text(e)),
        }
    }
}

} // verus!
