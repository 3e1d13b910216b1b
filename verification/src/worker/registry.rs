//! The worker registry: authentication, authorization, heartbeats, scheduling,
//! task assignment and migration of tasks between workers.
use vstd::prelude::*;
use dashmap::DashMap;
use crate::execution::RuntimeRegistry;
use crate::text::{list_contains, string_list, strs};
use crate::assoc::lemma_push_set;
use crate::worker::model::{Worker, WorkerError, WorkerHealth, WorkerStatus, WorkerView};
use crate::worker::remote::{remote_caps, RemoteWorkerRuntime};
use crate::worker::transfer::ArtifactTransfer;

verus! {

/// A table of workers by identity.
pub type WorkerTable = DashMap<String, Worker>;

/// A table of task assignments: task identity to worker identity.
pub type TaskTable = DashMap<String, String>;

/// The workers a registry table holds, by worker identity.
pub uninterp spec fn worker_table(m: DashMap<String, Worker>) -> Map<Seq<char>, WorkerView>;

/// The task assignments a registry table holds: task identity to worker identity.
pub uninterp spec fn task_table(m: DashMap<String, String>) -> Map<Seq<char>, Seq<char>>;

/// No workers.
pub open spec fn no_workers() -> Map<Seq<char>, WorkerView> {
    Map::empty()
}

/// No task assignments.
pub open spec fn no_tasks() -> Map<Seq<char>, Seq<char>> {
    Map::empty()
}

/// `DashMap::new`: an empty table.
#[verifier::external_body]
fn workers_new() -> (r: WorkerTable)
    ensures
        worker_table(r) == no_workers(),
{
    DashMap::new()
}

/// `DashMap::insert`: the key now maps to the worker; other keys are unchanged.
#[verifier::external_body]
fn workers_insert(m: &mut DashMap<String, Worker>, k: String, v: Worker)
    ensures
        worker_table(*final(m)) == worker_table(*old(m)).insert(k@, v@),
{
    m.insert(k, v);
}

/// `DashMap::get`, cloning the worker found under the key.
#[verifier::external_body]
fn workers_get(m: &DashMap<String, Worker>, k: &str) -> (r: Option<Worker>)
    ensures
        r is Some <==> worker_table(*m).contains_key(k@),
        r matches Some(w) ==> w@ == worker_table(*m)[k@],
{
    m.get(k).map(|e| e.value().clone())
}

/// `DashMap::iter`, keeping the keys: every key of the table once, in the
/// table's own order.
#[verifier::external_body]
fn workers_keys(m: &DashMap<String, Worker>) -> (r: Vec<String>)
    ensures
        strs(r@).no_duplicates(),
        strs(r@).to_set() == worker_table(*m).dom(),
{
    m.iter().map(|e| e.key().clone()).collect()
}

/// `DashMap::new`: an empty table.
#[verifier::external_body]
fn tasks_new() -> (r: TaskTable)
    ensures
        task_table(r) == no_tasks(),
{
    DashMap::new()
}

/// `DashMap::insert`: the task now maps to the worker; other tasks are unchanged.
#[verifier::external_body]
fn tasks_insert(m: &mut DashMap<String, String>, k: String, v: String)
    ensures
        task_table(*final(m)) == task_table(*old(m)).insert(k@, v@),
{
    m.insert(k, v);
}

/// `DashMap::remove`: the task is gone; the worker it mapped to is returned.
#[verifier::external_body]
fn tasks_remove(m: &mut DashMap<String, String>, k: &str) -> (r: Option<String>)
    ensures
        task_table(*final(m)) == task_table(*old(m)).remove(k@),
        r is Some <==> task_table(*old(m)).contains_key(k@),
        r matches Some(v) ==> v@ == task_table(*old(m))[k@],
{
    m.remove(k).map(|(_, v)| v)
}

/// `DashMap::get`, cloning the worker identity found under the task.
#[verifier::external_body]
fn tasks_get(m: &DashMap<String, String>, k: &str) -> (r: Option<String>)
    ensures
        r is Some <==> task_table(*m).contains_key(k@),
        r matches Some(v) ==> v@ == task_table(*m)[k@],
{
    m.get(k).map(|e| e.value().clone())
}

/// The state a task is checkpointed in before it moves between workers.
#[derive(Debug)]
pub struct CheckpointState {
    pub task_id: String,
    pub task_state: String,
    pub graph_id: String,
    pub completed_nodes: Vec<String>,
    pub pending_nodes: Vec<String>,
    pub current_node: Option<String>,
    pub assigned_runtime: Option<String>,
}

/// The character view of an optional string slice.
pub open spec fn opt_view(o: Option<&str>) -> Option<Seq<char>> {
    match o {
        Some(s) => Some(s@),
        None => None,
    }
}

/// The character view of an optional string.
pub open spec fn opt_string_view(o: Option<String>) -> Option<Seq<char>> {
    match o {
        Some(s) => Some(s@),
        None => None,
    }
}

/// A worker may be chosen for a request: it is healthy and online and meets the
/// operating system, memory, GPU and capability requirements.
pub open spec fn eligible(
    w: WorkerView,
    os: Option<Seq<char>>,
    min_ram_mb: u32,
    need_gpu: bool,
    capability: Option<Seq<char>>,
) -> bool {
    &&& w.health == WorkerHealth::Healthy
    &&& w.status != WorkerStatus::Offline
    &&& (os matches Some(o) ==> w.os.contains(o))
    &&& w.resources.ram_mb >= min_ram_mb
    &&& (need_gpu ==> w.gpu)
    &&& (capability matches Some(c) ==> (w.applications.contains(c) || w.os.contains(c)))
}

/// `a` is scheduled no later than `b`: lower latency first, then more CPUs.
pub open spec fn ranks_first(a: WorkerView, b: WorkerView) -> bool {
    a.resources.latency_ms < b.resources.latency_ms || (a.resources.latency_ms
        == b.resources.latency_ms && a.resources.cpu >= b.resources.cpu)
}

/// A worker picked for a request runs the operating system the request asks
/// for, is healthy and online, has the memory and the GPU it needs, and offers
/// the capability it names (as an application or an operating system).
pub proof fn law_picked_worker_meets_the_request(
    w: WorkerView,
    os: Option<Seq<char>>,
    min_ram_mb: u32,
    need_gpu: bool,
    capability: Option<Seq<char>>,
)
    requires
        eligible(w, os, min_ram_mb, need_gpu, capability),
    ensures
        os matches Some(o) ==> w.os.contains(o),
        w.health == WorkerHealth::Healthy,
        w.status != WorkerStatus::Offline,
        w.resources.ram_mb >= min_ram_mb,
        need_gpu ==> w.gpu,
        capability matches Some(c) ==> (w.applications.contains(c) || w.os.contains(c)),
{
}

/// `k` names an eligible worker for an unconstrained request that ranks first
/// among all eligible workers: one `select_worker(None, 0, false, None)` may
/// pick.
pub open spec fn best_unconstrained(ws: Map<Seq<char>, WorkerView>, k: Seq<char>) -> bool {
    &&& ws.contains_key(k)
    &&& eligible(ws[k], None, 0, false, None)
    &&& forall|j: Seq<char>| #[trigger] ws.contains_key(j) && eligible(ws[j], None, 0, false, None) ==> ranks_first(
        ws[k],
        ws[j],
    )
}

/// Some registered worker is eligible for an unconstrained request.
pub open spec fn some_eligible(ws: Map<Seq<char>, WorkerView>) -> bool {
    exists|k: Seq<char>| #[trigger] ws.contains_key(k) && eligible(ws[k], None, 0, false, None)
}

/// Every eligible worker admits the principal.
pub open spec fn all_eligible_admit(ws: Map<Seq<char>, WorkerView>, principal: Seq<char>) -> bool {
    forall|k: Seq<char>| #[trigger] ws.contains_key(k) && eligible(ws[k], None, 0, false, None)
        ==> ws[k].allowed_principals.contains(principal)
}

/// A worker after a successful heartbeat at time `t`.
pub open spec fn refreshed(w: WorkerView, t: u64) -> WorkerView {
    WorkerView { health: WorkerHealth::Healthy, status: WorkerStatus::Online, last_heartbeat_secs: t, ..w }
}

/// A worker after it is disconnected.
pub open spec fn disconnected(w: WorkerView) -> WorkerView {
    WorkerView { health: WorkerHealth::Disconnected, status: WorkerStatus::Offline, ..w }
}

/// `ws` lists the table's workers, each once, in some order.
pub open spec fn is_listing(ws: Seq<WorkerView>, t: Map<Seq<char>, WorkerView>) -> bool {
    exists|ks: Seq<Seq<char>>|
        {
            &&& ks.no_duplicates()
            &&& ks.to_set() == t.dom()
            &&& ks.len() == ws.len()
            &&& forall|i: int| 0 <= i < ks.len() ==> ws[i] == t[#[trigger] ks[i]]
        }
}

/// Workers, task assignments, the destructive tasks already dispatched, the
/// runtime registry the workers appear in, and the artifact store.
pub struct WorkerRegistry {
    runtime_registry: RuntimeRegistry,
    workers: DashMap<String, Worker>,
    assigned_tasks: DashMap<String, String>,
    destructive_once: Vec<String>,
    pub transfers: ArtifactTransfer,
}

impl WorkerRegistry {
    /// Registered workers by identity.
    pub closed spec fn workers(&self) -> Map<Seq<char>, WorkerView> {
        worker_table(self.workers)
    }

    /// Assigned tasks: task identity to worker identity.
    pub closed spec fn tasks(&self) -> Map<Seq<char>, Seq<char>> {
        task_table(self.assigned_tasks)
    }

    /// Destructive tasks that were ever dispatched.
    pub closed spec fn destructive_ids(&self) -> Set<Seq<char>> {
        strs(self.destructive_once@).to_set()
    }

    /// Runtimes by identity, with their capabilities.
    pub closed spec fn runtimes(&self) -> Map<Seq<char>, Seq<Seq<char>>> {
        self.runtime_registry.runtimes()
    }

    /// Every worker is stored under its own identity.
    pub closed spec fn wf(&self) -> bool {
        &&& self.runtime_registry.wf()
        &&& self.transfers.wf()
        &&& forall|k: Seq<char>| #[trigger] self.workers().contains_key(k) ==> self.workers()[k].worker_id == k
    }

    pub fn new(runtime_registry: RuntimeRegistry) -> (r: Self)
        requires
            runtime_registry.wf(),
        ensures
            r.wf(),
            r.workers() == Map::<Seq<char>, WorkerView>::empty(),
            r.tasks() == Map::<Seq<char>, Seq<char>>::empty(),
            r.destructive_ids() == Set::<Seq<char>>::empty(),
            r.runtimes() == runtime_registry.runtimes(),
    {
        let r = WorkerRegistry {
            runtime_registry,
            workers: workers_new(),
            assigned_tasks: tasks_new(),
            destructive_once: Vec::new(),
            transfers: ArtifactTransfer::new(),
        };
        assert(r.destructive_ids() =~= Set::<Seq<char>>::empty());
        r
    }

    /// Succeeds exactly when the worker is registered and the token is its token.
    pub fn authenticate(&self, worker_id: &str, token: &str) -> (r: Result<(), WorkerError>)
        ensures
            r is Ok <==> (self.workers().contains_key(worker_id@) && self.workers()[worker_id@].token
                == token@),
            r is Err ==> r == Err::<(), WorkerError>(WorkerError::AuthenticationFailure),
    {
        match workers_get(&self.workers, worker_id) {
            None => Err(WorkerError::AuthenticationFailure),
            Some(w) => {
                if w.identity.token != String::from_str(token) {
                    Err(WorkerError::AuthenticationFailure)
                } else {
                    Ok(())
                }
            }
        }
    }

    /// Succeeds exactly when the worker is registered and admits the principal.
    pub fn authorize(&self, worker_id: &str, principal: &str) -> (r: Result<(), WorkerError>)
        ensures
            !self.workers().contains_key(worker_id@) ==> (r matches Err(WorkerError::NotFound(m))
                && m@ == worker_id@),
            self.workers().contains_key(worker_id@) && !self.workers()[worker_id@].allowed_principals.contains(principal@)
                ==> (r matches Err(WorkerError::AuthorizationFailure(m)) && m@ == principal@),
            self.workers().contains_key(worker_id@) && self.workers()[worker_id@].allowed_principals.contains(principal@)
                ==> r is Ok,
    {
        match workers_get(&self.workers, worker_id) {
            None => Err(WorkerError::NotFound(String::from_str(worker_id))),
            Some(w) => {
                if !list_contains(&w.policy.allowed_principals, principal) {
                    Err(WorkerError::AuthorizationFailure(String::from_str(principal)))
                } else {
                    Ok(())
                }
            }
        }
    }

    /// Registers a worker that requires TLS, both here and as a runtime;
    /// a worker that does not require TLS is refused.
    pub fn register(&mut self, worker: Worker) -> (r: Result<String, WorkerError>)
        requires
            old(self).wf(),
        ensures
            final(self).wf(),
            final(self).tasks() == old(self).tasks(),
            final(self).destructive_ids() == old(self).destructive_ids(),
            !worker@.tls_required ==> (r matches Err(WorkerError::AuthorizationFailure(m)) && m@
                == "tls required for worker communication"@) && final(self).workers() == old(self).workers()
                && final(self).runtimes() == old(self).runtimes(),
            worker@.tls_required ==> (r matches Ok(id) && id@ == worker@.worker_id)
                && final(self).workers() == old(self).workers().insert(worker@.worker_id, worker@)
                && final(self).runtimes() == old(self).runtimes().insert(worker@.worker_id, remote_caps(worker)),
    {
        if !worker.tls_required {
            return Err(WorkerError::AuthorizationFailure(String::from_str("tls required for worker communication")));
        }
        let id = worker.identity.worker_id.clone();
        let runtime = RemoteWorkerRuntime::new(worker.clone());
        let _ = self.runtime_registry.register(runtime);
        let ghost wv = worker@;
        workers_insert(&mut self.workers, id.clone(), worker);
        assert forall|k: Seq<char>| #[trigger] self.workers().contains_key(k) implies self.workers()[k].worker_id == k by {
            if k != wv.worker_id {
                assert(old(self).workers().contains_key(k));
            }
        }
        Ok(id)
    }

    /// Records a heartbeat from an authenticated worker: it becomes healthy and
    /// online, with the current time as its last heartbeat.
    pub fn heartbeat(&mut self, worker_id: &str, token: &str) -> (r: Result<WorkerHealth, WorkerError>)
        requires
            old(self).wf(),
        ensures
            final(self).wf(),
            final(self).tasks() == old(self).tasks(),
            final(self).destructive_ids() == old(self).destructive_ids(),
            final(self).runtimes() == old(self).runtimes(),
            !(old(self).workers().contains_key(worker_id@) && old(self).workers()[worker_id@].token == token@)
                ==> r == Err::<WorkerHealth, WorkerError>(WorkerError::AuthenticationFailure)
                && final(self).workers() == old(self).workers(),
            (old(self).workers().contains_key(worker_id@) && old(self).workers()[worker_id@].token == token@)
                ==> r == Ok::<WorkerHealth, WorkerError>(WorkerHealth::Healthy)
                && exists|t: u64| final(self).workers() == old(self).workers().insert(
                    worker_id@,
                    refreshed(old(self).workers()[worker_id@], t),
                ),
    {
        self.authenticate(worker_id, token)?;
        let mut w = match workers_get(&self.workers, worker_id) {
            Some(w) => w,
            None => {
                return Err(WorkerError::NotFound(String::from_str(worker_id)));
            }
        };
        let t = now_secs_here();
        w.last_heartbeat_secs = t;
        w.health = WorkerHealth::Healthy;
        w.status = WorkerStatus::Online;
        let ghost wv = w@;
        assert(wv == refreshed(old(self).workers()[worker_id@], t));
        workers_insert(&mut self.workers, String::from_str(worker_id), w);
        assert forall|k: Seq<char>| #[trigger] self.workers().contains_key(k) implies self.workers()[k].worker_id == k by {
            assert(old(self).workers().contains_key(k));
        }
        Ok(WorkerHealth::Healthy)
    }

    /// Marks the worker disconnected and offline, if registered, and removes
    /// its runtime.
    pub fn disconnect(&mut self, worker_id: &str)
        requires
            old(self).wf(),
        ensures
            final(self).wf(),
            final(self).tasks() == old(self).tasks(),
            final(self).destructive_ids() == old(self).destructive_ids(),
            final(self).runtimes() == old(self).runtimes().remove(worker_id@),
            old(self).workers().contains_key(worker_id@) ==> final(self).workers() == old(self).workers().insert(
                worker_id@,
                disconnected(old(self).workers()[worker_id@]),
            ),
            !old(self).workers().contains_key(worker_id@) ==> final(self).workers() == old(self).workers(),
    {
        match workers_get(&self.workers, worker_id) {
            Some(mut w) => {
                w.health = WorkerHealth::Disconnected;
                w.status = WorkerStatus::Offline;
                workers_insert(&mut self.workers, String::from_str(worker_id), w);
                assert forall|k: Seq<char>| #[trigger] self.workers().contains_key(k) implies self.workers()[k].worker_id == k by {
                    assert(old(self).workers().contains_key(k));
                }
            }
            None => {}
        }
        self.runtime_registry.unregister(worker_id);
    }

    /// The worker's health.
    pub fn health(&self, worker_id: &str) -> (r: Result<WorkerHealth, WorkerError>)
        ensures
            self.workers().contains_key(worker_id@) ==> r == Ok::<WorkerHealth, WorkerError>(self.workers()[worker_id@].health),
            !self.workers().contains_key(worker_id@) ==> (r matches Err(WorkerError::NotFound(m)) && m@ == worker_id@),
    {
        match workers_get(&self.workers, worker_id) {
            Some(w) => Ok(w.health),
            None => Err(WorkerError::NotFound(String::from_str(worker_id))),
        }
    }

    /// Every registered worker, once each.
    pub fn list(&self) -> (r: Vec<Worker>)
        ensures
            is_listing(r@.map_values(|w: Worker| w@), self.workers()),
    {
        let ks = workers_keys(&self.workers);
        let mut r: Vec<Worker> = Vec::new();
        let mut i: usize = 0;
        while i < ks.len()
            invariant
                i <= ks.len(),
                strs(ks@).to_set() == self.workers().dom(),
                r@.len() == i,
                forall|j: int| 0 <= j < i ==> #[trigger] r@[j]@ == self.workers()[strs(ks@)[j]],
            decreases ks.len() - i,
        {
            assert(strs(ks@)[i as int] == ks@[i as int]@);
            assert(strs(ks@).to_set().contains(ks@[i as int]@));
            match workers_get(&self.workers, ks[i].as_str()) {
                Some(w) => {
                    r.push(w);
                }
                None => {
                    assert(false);
                }
            }
            i += 1;
        }
        assert(is_listing(r@.map_values(|w: Worker| w@), self.workers())) by {
            let ws = r@.map_values(|w: Worker| w@);
            assert(forall|j: int| 0 <= j < strs(ks@).len() ==> ws[j] == self.workers()[#[trigger] strs(ks@)[j]]);
        }
        r
    }

    /// Picks the eligible worker with the lowest latency, preferring more CPUs
    /// among equal latencies; fails when no worker is eligible.
    pub fn select_worker(
        &self,
        required_os: Option<&str>,
        min_ram_mb: u32,
        need_gpu: bool,
        capability: Option<&str>,
    ) -> (r: Result<Worker, WorkerError>)
        requires
            self.wf(),
        ensures
            r matches Ok(w) ==> (required_os matches Some(o) ==> w@.os.contains(o@)),
            r matches Ok(w) ==> w@.health == WorkerHealth::Healthy && w@.status != WorkerStatus::Offline,
            r matches Ok(w) ==> w@.resources.ram_mb >= min_ram_mb && (need_gpu ==> w@.gpu),
            match r {
                Ok(w) => {
                    &&& self.workers().contains_key(w@.worker_id)
                    &&& self.workers()[w@.worker_id] == w@
                    &&& eligible(w@, opt_view(required_os), min_ram_mb, need_gpu, opt_view(capability))
                    &&& forall|k: Seq<char>| #[trigger] self.workers().contains_key(k) && eligible(
                        self.workers()[k],
                        opt_view(required_os),
                        min_ram_mb,
                        need_gpu,
                        opt_view(capability),
                    ) ==> ranks_first(w@, self.workers()[k])
                },
                Err(e) => {
                    &&& e matches WorkerError::Unavailable(m) && m@ == "no healthy worker"@
                    &&& forall|k: Seq<char>| #[trigger] self.workers().contains_key(k) ==> !eligible(
                        self.workers()[k],
                        opt_view(required_os),
                        min_ram_mb,
                        need_gpu,
                        opt_view(capability),
                    )
                },
            },
    {
        let ghost os = opt_view(required_os);
        let ghost cap = opt_view(capability);
        let ks = workers_keys(&self.workers);
        let mut best: Option<Worker> = None;
        let mut i: usize = 0;
        while i < ks.len()
            invariant
                i <= ks.len(),
                os == opt_view(required_os),
                cap == opt_view(capability),
                self.wf(),
                strs(ks@).to_set() == self.workers().dom(),
                match best {
                    Some(b) => {
                        &&& self.workers().contains_key(b@.worker_id)
                        &&& self.workers()[b@.worker_id] == b@
                        &&& eligible(b@, os, min_ram_mb, need_gpu, cap)
                        &&& forall|j: int| 0 <= j < i && eligible(self.workers()[#[trigger] strs(ks@)[j]], os, min_ram_mb, need_gpu, cap)
                            ==> ranks_first(b@, self.workers()[strs(ks@)[j]])
                    },
                    None => forall|j: int| 0 <= j < i ==> !eligible(self.workers()[#[trigger] strs(ks@)[j]], os, min_ram_mb, need_gpu, cap),
                },
            decreases ks.len() - i,
        {
            assert(strs(ks@)[i as int] == ks@[i as int]@);
            assert(strs(ks@).to_set().contains(ks@[i as int]@));
            let w = match workers_get(&self.workers, ks[i].as_str()) {
                Some(w) => w,
                None => {
                    assert(false);
                    return Err(WorkerError::Unavailable(String::from_str("no healthy worker")));
                }
            };
            assert(w@.worker_id == ks@[i as int]@);
            if is_eligible(&w, required_os, min_ram_mb, need_gpu, capability) {
                let better = match &best {
                    None => true,
                    Some(b) => w.resources.latency_ms < b.resources.latency_ms || (w.resources.latency_ms
                        == b.resources.latency_ms && w.resources.cpu > b.resources.cpu),
                };
                if better {
                    best = Some(w);
                }
            }
            i += 1;
        }
        proof { 
            assert forall|k: Seq<char>| #[trigger] self.workers().contains_key(k) implies exists|j: int| 0 <= j < ks@.len() && strs(ks@)[j] == k by {
                assert(strs(ks@).to_set().contains(k));
            }
        }
        match best {
            Some(b) => Ok(b),
            None => Err(WorkerError::Unavailable(String::from_str("no healthy worker"))),
        }
    }

    /// Assigns a task to a worker on behalf of a principal. The worker must be
    /// authenticated by the token, admit the principal and be connected; a
    /// destructive task is dispatched at most once and only to a worker that
    /// allows destructive tasks.
    pub fn assign_task(
        &mut self,
        task_id: &str,
        worker_id: &str,
        principal: &str,
        token: &str,
        destructive: bool,
    ) -> (r: Result<String, WorkerError>)
        requires
            old(self).wf(),
        ensures
            final(self).wf(),
            final(self).workers() == old(self).workers(),
            final(self).runtimes() == old(self).runtimes(),
            ({
                let ws = old(self).workers();
                let w = ws[worker_id@];
                if !(ws.contains_key(worker_id@) && w.token == token@) {
                    &&& r == Err::<String, WorkerError>(WorkerError::AuthenticationFailure)
                    &&& final(self).tasks() == old(self).tasks()
                    &&& final(self).destructive_ids() == old(self).destructive_ids()
                } else if !w.allowed_principals.contains(principal@) {
                    &&& r matches Err(WorkerError::AuthorizationFailure(m)) && m@ == principal@
                    &&& final(self).tasks() == old(self).tasks()
                    &&& final(self).destructive_ids() == old(self).destructive_ids()
                } else if w.health == WorkerHealth::Disconnected {
                    &&& r matches Err(WorkerError::Network(m)) && m@ == "disconnected"@
                    &&& final(self).tasks() == old(self).tasks()
                    &&& final(self).destructive_ids() == old(self).destructive_ids()
                } else if destructive && old(self).destructive_ids().contains(task_id@) {
                    &&& r matches Err(WorkerError::DuplicateDestructive(m)) && m@ == task_id@
                    &&& final(self).tasks() == old(self).tasks()
                    &&& final(self).destructive_ids() == old(self).destructive_ids()
                } else if destructive && !w.allow_destructive {
                    &&& r matches Err(WorkerError::AuthorizationFailure(m)) && m@ == "destructive not allowed"@
                    &&& final(self).tasks() == old(self).tasks()
                    &&& final(self).destructive_ids() == old(self).destructive_ids().insert(task_id@)
                } else {
                    &&& r matches Ok(id) && id@ == worker_id@
                    &&& final(self).tasks() == old(self).tasks().insert(task_id@, worker_id@)
                    &&& final(self).destructive_ids() == if destructive {
                        old(self).destructive_ids().insert(task_id@)
                    } else {
                        old(self).destructive_ids()
                    }
                }
            }),
    {
        self.authenticate(worker_id, token)?;
        self.authorize(worker_id, principal)?;
        let worker = match workers_get(&self.workers, worker_id) {
            Some(w) => w,
            None => {
                return Err(WorkerError::Unavailable(String::from_str(worker_id)));
            }
        };
        if worker.health == WorkerHealth::Disconnected {
            return Err(WorkerError::Network(String::from_str("disconnected")));
        }
        if destructive {
            if list_contains(&self.destructive_once, task_id) {
                return Err(WorkerError::DuplicateDestructive(String::from_str(task_id)));
            }
            let ghost before = strs(self.destructive_once@);
            self.destructive_once.push(String::from_str(task_id));
            assert(strs(self.destructive_once@) =~= before.push(task_id@));
            proof { lemma_push_set(before, task_id@); }
            if !worker.policy.allow_destructive {
                return Err(WorkerError::AuthorizationFailure(String::from_str("destructive not allowed")));
            }
        }
        tasks_insert(&mut self.assigned_tasks, String::from_str(task_id), String::from_str(worker_id));
        Ok(String::from_str(worker_id))
    }

    /// Withdraws a task's assignment.
    pub fn cancel_task(&mut self, task_id: &str) -> (r: Result<(), WorkerError>)
        requires
            old(self).wf(),
        ensures
            final(self).wf(),
            final(self).workers() == old(self).workers(),
            final(self).runtimes() == old(self).runtimes(),
            final(self).destructive_ids() == old(self).destructive_ids(),
            final(self).tasks() == old(self).tasks().remove(task_id@),
            old(self).tasks().contains_key(task_id@) ==> r is Ok,
            !old(self).tasks().contains_key(task_id@) ==> (r matches Err(WorkerError::NotFound(m))
                && m@ == task_id@),
    {
        match tasks_remove(&mut self.assigned_tasks, task_id) {
            Some(_) => Ok(()),
            None => Err(WorkerError::NotFound(String::from_str(task_id))),
        }
    }

    /// The worker a task is assigned to.
    pub fn assigned_worker(&self, task_id: &str) -> (r: Option<String>)
        ensures
            opt_string_view(r) == (if self.tasks().contains_key(task_id@) {
                Some(self.tasks()[task_id@])
            } else {
                None
            }),
    {
        tasks_get(&self.assigned_tasks, task_id)
    }

    /// A checkpoint of a running task, naming the worker it is assigned to.
    pub fn checkpoint_task(&self, task_id: &str) -> (r: CheckpointState)
        ensures
            r.task_id@ == task_id@,
            r.task_state@ == "running"@,
            r.graph_id@ == "graph-remote"@,
            strs(r.completed_nodes@) == Seq::<Seq<char>>::empty(),
            strs(r.pending_nodes@) == seq!["node-1"@],
            opt_string_view(r.current_node) == Some("node-1"@),
            opt_string_view(r.assigned_runtime) == (if self.tasks().contains_key(task_id@) {
                Some(self.tasks()[task_id@])
            } else {
                None
            }),
    {
        let assigned = self.assigned_worker(task_id);
        let pending = string_list(&["node-1"]);
        assert(strs(pending@) =~= seq!["node-1"@]);
        let r = CheckpointState {
            task_id: String::from_str(task_id),
            task_state: String::from_str("running"),
            graph_id: String::from_str("graph-remote"),
            completed_nodes: Vec::new(),
            pending_nodes: pending,
            current_node: Some(String::from_str("node-1")),
            assigned_runtime: assigned,
        };
        assert(strs(r.completed_nodes@) =~= Seq::<Seq<char>>::empty());
        r
    }

    /// Moves a checkpointed task to another worker: the worker it was
    /// assigned to is disconnected, and the best eligible worker that remains
    /// takes the task. A task whose state cannot be transferred is refused.
    pub fn migrate(
        &mut self,
        task_id: &str,
        checkpoint: &CheckpointState,
        transferable: bool,
        principal: &str,
    ) -> (r: Result<String, WorkerError>)
        requires
            old(self).wf(),
        ensures
            final(self).wf(),
            final(self).destructive_ids() == old(self).destructive_ids(),
            !transferable ==> (r matches Err(WorkerError::NonTransferable(m)) && m@ == task_id@)
                && final(self).workers() == old(self).workers() && final(self).tasks() == old(self).tasks()
                && final(self).runtimes() == old(self).runtimes(),
            transferable ==> final(self).workers() == (match checkpoint.assigned_runtime {
                Some(o) => if old(self).workers().contains_key(o@) {
                    old(self).workers().insert(o@, disconnected(old(self).workers()[o@]))
                } else {
                    old(self).workers()
                },
                None => old(self).workers(),
            }),
            transferable ==> final(self).runtimes() == (match checkpoint.assigned_runtime {
                Some(o) => old(self).runtimes().remove(o@),
                None => old(self).runtimes(),
            }),
            r is Err ==> final(self).tasks() == old(self).tasks(),
            transferable && !some_eligible(final(self).workers()) ==> (r matches Err(WorkerError::Unavailable(m))
                && m@ == "no healthy worker"@),
            r matches Err(WorkerError::AuthorizationFailure(m)) ==> m@ == principal@ && exists|k: Seq<char>|
                #[trigger] best_unconstrained(final(self).workers(), k)
                && !final(self).workers()[k].allowed_principals.contains(principal@),
            transferable && some_eligible(final(self).workers()) && all_eligible_admit(
                final(self).workers(),
                principal@,
            ) ==> r is Ok,
            r matches Ok(id) ==> {
                &&& final(self).workers().contains_key(id@)
                &&& eligible(final(self).workers()[id@], None, 0, false, None)
                &&& forall|k: Seq<char>| #[trigger] final(self).workers().contains_key(k) && eligible(
                    final(self).workers()[k], None, 0, false, None)
                    ==> ranks_first(final(self).workers()[id@], final(self).workers()[k])
                &&& final(self).workers()[id@].allowed_principals.contains(principal@)
                &&& final(self).tasks() == old(self).tasks().insert(task_id@, id@)
                &&& (checkpoint.assigned_runtime matches Some(o) ==> id@ != o@)
            },
            transferable && some_eligible(final(self).workers()) ==> (r is Ok || r matches Err(
                WorkerError::AuthorizationFailure(_),
            )),
    {
        if !transferable {
            return Err(WorkerError::NonTransferable(String::from_str(task_id)));
        }
        match &checkpoint.assigned_runtime {
            Some(old_id) => {
                self.disconnect(old_id.as_str());
            }
            None => {}
        }
        let next = self.select_worker(None, 0, false, None)?;
        let token = next.identity.token.clone();
        let id = next.identity.worker_id.clone();
        let ghost mid_workers = self.workers();
        let ghost ar = opt_string_view(checkpoint.assigned_runtime);
        proof {
            match ar {
                Some(o) => {
                    if mid_workers.contains_key(o) && o == id@ {
                        assert(mid_workers[o].health == WorkerHealth::Disconnected);
                    }
                }
                None => {}
            }
        }
        proof {
            assert(best_unconstrained(mid_workers, id@));
            if some_eligible(mid_workers) && all_eligible_admit(mid_workers, principal@) {
                assert(mid_workers.contains_key(id@) && eligible(mid_workers[id@], None, 0, false, None));
            }
        }
        let assigned = self.assign_task(task_id, id.as_str(), principal, token.as_str(), false)?;
        Ok(assigned)
    }

    /// Identities of the runtimes known to the runtime registry, each once.
    pub fn runtime_ids(&self) -> (r: Vec<String>)
        requires
            self.wf(),
        ensures
            strs(r@).no_duplicates(),
            strs(r@).to_set() == self.runtimes().dom(),
    {
        self.runtime_registry.list_runtime_ids()
    }
}

/// Seconds since the Unix epoch on the host clock.
fn now_secs_here() -> u64 {
    crate::worker::model::now_secs()
}

/// Whether the worker may be chosen for the request.
fn is_eligible(
    w: &Worker,
    required_os: Option<&str>,
    min_ram_mb: u32,
    need_gpu: bool,
    capability: Option<&str>,
) -> (r: bool)
    ensures
        r == eligible(w@, opt_view(required_os), min_ram_mb, need_gpu, opt_view(capability)),
{
    if w.health != WorkerHealth::Healthy || w.status == WorkerStatus::Offline {
        return false;
    }
    match required_os {
        Some(os) => {
            if !list_contains(&w.capabilities.os, os) {
                return false;
            }
        }
        None => {}
    }
    if w.resources.ram_mb < min_ram_mb {
        return false;
    }
    if need_gpu && !w.capabilities.gpu {
        return false;
    }
    match capability {
        Some(cap) => {
            list_contains(&w.capabilities.applications, cap) || list_contains(&w.capabilities.os, cap)
        }
        None => true,
    }
}

} // verus!
