//! Execution runtimes: the runtime trait, the native Linux runtime and the
//! registry that finds a runtime able to perform a capability.
use vstd::prelude::*;
use crate::assoc::{assoc, keys, lemma_assoc_dom, lemma_assoc_get, lemma_assoc_index, lemma_assoc_push, lemma_assoc_remove, lemma_assoc_update};
use crate::text::{concat3, str_eq, string_list, string_of, strs};

verus! {

/// What kind of machine a runtime executes on.
#[derive(Clone, Copy, Debug, PartialEq, Eq, Structural)]
pub enum RuntimeKind {
    NativeLinux,
    WindowsVm,
    MacOsVm,
    Container,
    RemoteWorker,
}

/// Lifecycle state of a runtime.
#[derive(Debug, PartialEq)]
pub enum RuntimeStatus {
    Created,
    Starting,
    Running,
    Paused,
    Stopping,
    Stopped,
    Failed(String),
}

impl Clone for RuntimeStatus {
    fn clone(&self) -> (r: Self)
        ensures
            r == *self,
    {
        match self {
            RuntimeStatus::Created => RuntimeStatus::Created,
            RuntimeStatus::Starting => RuntimeStatus::Starting,
            RuntimeStatus::Running => RuntimeStatus::Running,
            RuntimeStatus::Paused => RuntimeStatus::Paused,
            RuntimeStatus::Stopping => RuntimeStatus::Stopping,
            RuntimeStatus::Stopped => RuntimeStatus::Stopped,
            RuntimeStatus::Failed(m) => RuntimeStatus::Failed(m.clone()),
        }
    }
}

/// A description of a runtime as reported to callers.
#[derive(Clone, Debug)]
pub struct RuntimeInfo {
    pub runtime_id: String,
    pub name: String,
    pub kind: RuntimeKind,
    pub status: RuntimeStatus,
    pub capabilities: Vec<String>,
    pub location: String,
    pub security_level: u32,
    pub available_tools: Vec<String>,
}

/// A runtime can perform a capability it lists, and anything when it lists `*`.
pub open spec fn can_perform_spec(caps: Seq<Seq<char>>, capability: Seq<char>) -> bool {
    exists|i: int| 0 <= i < caps.len() && (caps[i] == capability || caps[i] == seq!['*'])
}

/// Whether a capability list allows the given capability.
pub fn caps_allow(caps: &Vec<String>, capability: &str) -> (r: bool)
    ensures
        r == can_perform_spec(strs(caps@), capability@),
{
    let target = String::from_str(capability);
    let mut star: Vec<char> = Vec::new();
    star.push('*');
    let star_s = string_of(&star);
    let mut i: usize = 0;
    while i < caps.len()
        invariant
            i <= caps.len(),
            target@ == capability@,
            star_s@ == seq!['*'],
            forall|k: int| 0 <= k < i ==> caps@[k]@ != capability@ && caps@[k]@ != seq!['*'],
        decreases caps.len() - i,
    {
        if caps[i] == target || caps[i] == star_s {
            assert(strs(caps@)[i as int] == caps@[i as int]@);
            return true;
        }
        i += 1;
    }
    assert forall|k: int| 0 <= k < strs(caps@).len() implies !(strs(caps@)[k] == capability@
        || strs(caps@)[k] == seq!['*']) by {
        assert(strs(caps@)[k] == caps@[k]@);
    }
    false
}

/// An execution environment that can run commands and report what it offers.
pub trait ExecutionRuntime {
    /// The identity the runtime reports.
    spec fn id_view(&self) -> Seq<char>;

    /// The capabilities the runtime reports.
    spec fn caps_view(&self) -> Seq<Seq<char>>;

    fn runtime_id(&self) -> (r: &str)
        ensures
            r@ == self.id_view(),
    ;

    fn runtime_type(&self) -> RuntimeKind;

    fn status(&self) -> RuntimeStatus;

    fn capabilities(&self) -> (r: Vec<String>)
        ensures
            strs(r@) == self.caps_view(),
    ;

    fn location(&self) -> String;

    fn security_level(&self) -> u32;

    fn available_tools(&self) -> Vec<String>;

    fn can_perform(&self, capability: &str) -> (r: bool)
        ensures
            r == can_perform_spec(self.caps_view(), capability@),
    {
        let caps = self.capabilities();
        caps_allow(&caps, capability)
    }

    fn start(&mut self) -> Result<(), String>;

    fn stop(&mut self) -> Result<(), String>;

    fn pause(&mut self) -> Result<(), String>;

    fn resume(&mut self) -> Result<(), String>;

    fn execute_command(&self, command: &str, args: &[&str]) -> Result<String, String>;
}

/// Identity of the native host runtime for the named host operating system.
pub fn native_host_runtime_id(os: &str) -> (r: &'static str)
    ensures
        os@ == "windows"@ ==> r@ == "windows-host"@,
        os@ == "macos"@ ==> r@ == "macos-host"@,
        os@ != "windows"@ && os@ != "macos"@ ==> r@ == "linux-host-1"@,
{
    proof {
        reveal_strlit("windows");
        reveal_strlit("macos");
        assert("windows"@.len() == 7);
        assert("macos"@.len() == 5);
    }
    if str_eq(os, "windows") {
        "windows-host"
    } else if str_eq(os, "macos") {
        "macos-host"
    } else {
        "linux-host-1"
    }
}

/// Display name of the native host runtime for the named host operating system.
pub fn native_host_runtime_name(os: &str) -> (r: &'static str)
    ensures
        os@ == "windows"@ ==> r@ == "Host Windows"@,
        os@ == "macos"@ ==> r@ == "Host macOS"@,
        os@ != "windows"@ && os@ != "macos"@ ==> r@ == "Host Linux"@,
{
    proof {
        reveal_strlit("windows");
        reveal_strlit("macos");
        assert("windows"@.len() == 7);
        assert("macos"@.len() == 5);
    }
    if str_eq(os, "windows") {
        "Host Windows"
    } else if str_eq(os, "macos") {
        "Host macOS"
    } else {
        "Host Linux"
    }
}

/// The host Linux runtime.
pub struct LinuxRuntime {
    pub id: String,
    pub name: String,
    pub status: RuntimeStatus,
}

impl LinuxRuntime {
    pub fn new(id: &str, name: &str) -> (r: Self)
        ensures
            r.id@ == id@,
            r.name@ == name@,
            r.status == RuntimeStatus::Running,
    {
        LinuxRuntime { id: String::from_str(id), name: String::from_str(name), status: RuntimeStatus::Running }
    }
}

/// Capabilities of the host Linux runtime.
pub open spec fn linux_caps() -> Seq<Seq<char>> {
    seq!["bash"@, "process.spawn"@, "filesystem.read"@, "filesystem.write"@, "network.access"@]
}

impl ExecutionRuntime for LinuxRuntime {
    open spec fn id_view(&self) -> Seq<char> {
        self.id@
    }

    open spec fn caps_view(&self) -> Seq<Seq<char>> {
        linux_caps()
    }

    fn runtime_id(&self) -> (r: &str) {
        self.id.as_str()
    }

    fn runtime_type(&self) -> (r: RuntimeKind)
        ensures
            r == RuntimeKind::NativeLinux,
    {
        RuntimeKind::NativeLinux
    }

    fn status(&self) -> (r: RuntimeStatus)
        ensures
            r == self.status,
    {
        self.status.clone()
    }

    fn capabilities(&self) -> (r: Vec<String>) {
        let r = string_list(&["bash", "process.spawn", "filesystem.read", "filesystem.write", "network.access"]);
        assert(strs(r@) =~= linux_caps());
        r
    }

    fn location(&self) -> (r: String)
        ensures
            r@ == "local"@,
    {
        String::from_str("local")
    }

    fn security_level(&self) -> (r: u32)
        ensures
            r == 1,
    {
        1
    }

    fn available_tools(&self) -> (r: Vec<String>)
        ensures
            strs(r@) == seq!["bash"@, "git"@, "cargo"@, "python"@],
    {
        let r = string_list(&["bash", "git", "cargo", "python"]);
        assert(strs(r@) =~= seq!["bash"@, "git"@, "cargo"@, "python"@]);
        r
    }

    fn start(&mut self) -> (r: Result<(), String>)
        ensures
            r is Ok,
            final(self).status == RuntimeStatus::Running,
            final(self).id == old(self).id,
    {
        self.status = RuntimeStatus::Running;
        Ok(())
    }

    fn stop(&mut self) -> (r: Result<(), String>)
        ensures
            r is Ok,
            final(self).status == RuntimeStatus::Stopped,
            final(self).id == old(self).id,
    {
        self.status = RuntimeStatus::Stopped;
        Ok(())
    }

    fn pause(&mut self) -> (r: Result<(), String>)
        ensures
            r is Ok,
            final(self).status == RuntimeStatus::Paused,
            final(self).id == old(self).id,
    {
        self.status = RuntimeStatus::Paused;
        Ok(())
    }

    fn resume(&mut self) -> (r: Result<(), String>)
        ensures
            r is Ok,
            final(self).status == RuntimeStatus::Running,
            final(self).id == old(self).id,
    {
        self.status = RuntimeStatus::Running;
        Ok(())
    }

    fn execute_command(&self, command: &str, args: &[&str]) -> (r: Result<String, String>)
        ensures
            r matches Ok(out) && out@ == "Executed '"@ + command@ + "' on Native Linux"@,
    {
        Ok(concat3("Executed '", command, "' on Native Linux"))
    }
}

/// What the registry keeps of a registered runtime.
pub struct RuntimeEntry {
    pub id: String,
    pub kind: RuntimeKind,
    pub capabilities: Vec<String>,
}

/// Runtimes by identity, each with the capabilities it reported when registered.
pub struct RuntimeRegistry {
    entries: Vec<RuntimeEntry>,
}

/// The abstract content of a registry entry: its identity and its capabilities.
pub open spec fn entry_pair(e: RuntimeEntry) -> (Seq<char>, Seq<Seq<char>>) {
    (e.id@, strs(e.capabilities@))
}

impl RuntimeRegistry {
    /// The registered runtimes in registration order.
    pub closed spec fn pairs(&self) -> Seq<(Seq<char>, Seq<Seq<char>>)> {
        self.entries@.map_values(|e: RuntimeEntry| entry_pair(e))
    }

    /// The registry as a map from runtime identity to reported capabilities.
    pub open spec fn runtimes(&self) -> Map<Seq<char>, Seq<Seq<char>>> {
        assoc(self.pairs())
    }

    /// The registered identities, in registration order.
    pub open spec fn ids(&self) -> Seq<Seq<char>> {
        keys(self.pairs())
    }

    /// Identities are registered at most once.
    pub closed spec fn wf(&self) -> bool {
        keys(self.pairs()).no_duplicates()
    }

    pub fn new() -> (r: Self)
        ensures
            r.wf(),
            r.runtimes() == Map::<Seq<char>, Seq<Seq<char>>>::empty(),
            r.ids() == Seq::<Seq<char>>::empty(),
    {
        let r = RuntimeRegistry { entries: Vec::new() };
        assert(r.pairs() =~= Seq::<(Seq<char>, Seq<Seq<char>>)>::empty());
        assert(r.runtimes() =~= Map::<Seq<char>, Seq<Seq<char>>>::empty());
        assert(keys(r.pairs()) =~= Seq::<Seq<char>>::empty());
        r
    }

    fn position(&self, id: &str) -> (r: Option<usize>)
        ensures
            match r {
                Some(i) => i < self.ids().len() && self.ids()[i as int] == id@,
                None => !self.ids().contains(id@),
            },
    {
        let target = String::from_str(id);
        let mut i: usize = 0;
        while i < self.entries.len()
            invariant
                i <= self.entries.len(),
                target@ == id@,
                forall|k: int| 0 <= k < i ==> self.ids()[k] != id@,
            decreases self.entries.len() - i,
        {
            if self.entries[i].id == target {
                return Some(i);
            }
            i += 1;
        }
        None
    }

    /// Registers a runtime under the identity it reports, replacing any runtime
    /// registered under that identity, and returns the identity.
    pub fn register<R: ExecutionRuntime>(&mut self, runtime: R) -> (id: String)
        requires
            old(self).wf(),
        ensures
            final(self).wf(),
            id@ == runtime.id_view(),
            final(self).runtimes() == old(self).runtimes().insert(id@, runtime.caps_view()),
    {
        let id = String::from_str(runtime.runtime_id());
        let kind = runtime.runtime_type();
        let caps = runtime.capabilities();
        let entry = RuntimeEntry { id: id.clone(), kind, capabilities: caps };
        let pos = self.position(&id);
        let ghost old_pairs = self.pairs();
        match pos {
            Some(i) => {
                proof { lemma_assoc_update(old_pairs, i as int, runtime.caps_view()); }
                self.entries.set(i, entry);
                assert(self.pairs() =~= old_pairs.update(i as int, (old_pairs[i as int].0, runtime.caps_view())));
            }
            None => {
                proof { lemma_assoc_push(old_pairs, id@, runtime.caps_view()); }
                self.entries.push(entry);
                assert(self.pairs() =~= old_pairs.push((id@, runtime.caps_view())));
            }
        }
        id
    }

    /// Removes the runtime registered under `id`, if any.
    pub fn unregister(&mut self, id: &str)
        requires
            old(self).wf(),
        ensures
            final(self).wf(),
            final(self).runtimes() == old(self).runtimes().remove(id@),
    {
        let ghost old_pairs = self.pairs();
        match self.position(id) {
            Some(i) => {
                proof { lemma_assoc_remove(old_pairs, i as int); }
                self.entries.remove(i);
                assert(self.pairs() =~= old_pairs.remove(i as int));
            }
            None => {
                proof { lemma_assoc_dom(old_pairs); }
                assert(old_pairs.len() == keys(old_pairs).len());
                assert(self.runtimes() =~= old(self).runtimes().remove(id@));
            }
        }
    }

    /// Some registered runtime able to perform the capability, if any is.
    pub fn find_runtime_for_capability(&self, capability: &str) -> (r: Option<String>)
        requires
            self.wf(),
        ensures
            match r {
                Some(id) => self.runtimes().contains_key(id@) && can_perform_spec(
                    self.runtimes()[id@],
                    capability@,
                ),
                None => forall|id: Seq<char>| #[trigger]
                    self.runtimes().contains_key(id) ==> !can_perform_spec(
                        self.runtimes()[id],
                        capability@,
                    ),
            },
    {
        let mut i: usize = 0;
        while i < self.entries.len()
            invariant
                i <= self.entries.len(),
                keys(self.pairs()).no_duplicates(),
                forall|k: int| 0 <= k < i ==> !can_perform_spec(#[trigger] self.pairs()[k].1, capability@),
            decreases self.entries.len() - i,
        {
            if caps_allow(&self.entries[i].capabilities, capability) {
                proof { lemma_assoc_get(self.pairs(), i as int); }
                return Some(self.entries[i].id.clone());
            }
            assert(self.pairs()[i as int].1 == strs(self.entries@[i as int].capabilities@));
            i += 1;
        }
        proof {
            assert forall|id: Seq<char>| #[trigger] self.runtimes().contains_key(id) implies
                !can_perform_spec(self.runtimes()[id], capability@) by {
                lemma_assoc_index(self.pairs(), id);
            }
        }
        None
    }

    /// The registered identities, each once.
    pub fn list_runtime_ids(&self) -> (r: Vec<String>)
        requires
            self.wf(),
        ensures
            strs(r@) == self.ids(),
            strs(r@).no_duplicates(),
            strs(r@).to_set() == self.runtimes().dom(),
    {
        proof {
            lemma_assoc_dom(self.pairs());
        }
        let mut r: Vec<String> = Vec::new();
        let mut i: usize = 0;
        while i < self.entries.len()
            invariant
                i <= self.entries.len(),
                self.ids().len() == self.entries.len(),
                strs(r@) == self.ids().subrange(0, i as int),
            decreases self.entries.len() - i,
        {
            let ghost before = r@;
            let id = self.entries[i].id.clone();
            r.push(id);
            assert(r@ == before.push(id));
            assert(strs(r@) =~= strs(before).push(id@));
            assert(self.pairs()[i as int] == entry_pair(self.entries@[i as int]));
            assert(self.ids()[i as int] == self.entries@[i as int].id@);
            assert(strs(r@) =~= self.ids().subrange(0, i + 1));
            i += 1;
        }
        assert(self.ids().subrange(0, self.entries.len() as int) =~= self.ids());
        r
    }
}

} // verus!
