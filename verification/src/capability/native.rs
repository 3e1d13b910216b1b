//! Native host providers: applications found on the host, its processes, an
//! allowlisted terminal without a shell, and the Windows clipboard; the
//! browser and vision descriptions they exchange.
use vstd::prelude::*;
use crate::capability::model::{
    basic_definition, AuditPolicy, CapabilityDefinition, CapabilityError, CapabilityErrorCode,
    CapabilityRuntime, DefinitionView, Idempotency, MetadataView, RiskLevel, SecurityLevel,
};
use crate::capability::registry::def_views;
use crate::capability::adapters::{escapes_root, escapes_root_exec, host_join_path, host_joined_path, host_separator};
use crate::text::{list_contains, lower, str_eq, string_of, strs, to_lower};

verus! {

/// The runtime kind of the host, by the name of its operating system.
pub open spec fn host_runtime(os: Seq<char>) -> CapabilityRuntime {
    if os == "windows"@ {
        CapabilityRuntime::Windows
    } else if os == "macos"@ {
        CapabilityRuntime::MacOS
    } else {
        CapabilityRuntime::Linux
    }
}

/// The runtime kind of the host, by the name of its operating system.
pub fn host_runtime_exec(os: &str) -> (r: CapabilityRuntime)
    ensures
        r == host_runtime(os@),
{
    if str_eq(os, "windows") {
        CapabilityRuntime::Windows
    } else if str_eq(os, "macos") {
        CapabilityRuntime::MacOS
    } else {
        CapabilityRuntime::Linux
    }
}

/// A native capability: runs on the host, needs its own permission, and is
/// fully audited.
pub open spec fn native_definition(
    id: Seq<char>,
    description: Seq<char>,
    idempotency: Idempotency,
    os: Seq<char>,
) -> DefinitionView {
    let base = basic_definition(id, description, seq![host_runtime(os)], idempotency);
    DefinitionView {
        metadata: MetadataView { required_permissions: seq![id], audit_policy: AuditPolicy::Full, ..base.metadata },
        ..base
    }
}

/// A native capability definition for the host operating system `os`.
pub fn definition(id: &str, description: &str, idempotency: Idempotency, os: &str) -> (r: CapabilityDefinition)
    ensures
        r@ == native_definition(id@, description@, idempotency, os@),
{
    let mut runtimes: Vec<CapabilityRuntime> = Vec::new();
    runtimes.push(host_runtime_exec(os));
    let mut d = CapabilityDefinition::basic(id, description, runtimes, idempotency);
    d.metadata.required_permissions.push(String::from_str(id));
    d.metadata.audit_policy = AuditPolicy::Full;
    assert(runtimes@ =~= seq![host_runtime(os@)]);
    assert(d@.metadata.required_permissions =~= seq![id@]);
    d
}

/// A table of native capabilities: identity, description and idempotency.
pub open spec fn native_table_view(t: Seq<(&str, &str, Idempotency)>, os: Seq<char>) -> Seq<DefinitionView> {
    t.map_values(|e: (&str, &str, Idempotency)| native_definition(e.0@, e.1@, e.2, os))
}

fn native_definitions(t: &[(&'static str, &'static str, Idempotency)], os: &str) -> (r: Vec<CapabilityDefinition>)
    ensures
        def_views(r@) == native_table_view(t@, os@),
{
    let mut r: Vec<CapabilityDefinition> = Vec::new();
    let mut i: usize = 0;
    while i < t.len()
        invariant
            i <= t@.len(),
            def_views(r@) == native_table_view(t@.take(i as int), os@),
        decreases t@.len() - i,
    {
        let (id, description, idempotency) = t[i];
        let ghost prev = r@;
        r.push(definition(id, description, idempotency, os));
        assert(t@.take(i + 1) =~= t@.take(i as int).push(t@[i as int]));
        assert(def_views(r@) =~= def_views(prev).push(native_definition(id@, description@, idempotency, os@)));
        assert(native_table_view(t@.take(i + 1), os@) =~= native_table_view(t@.take(i as int), os@).push(
            native_definition(id@, description@, idempotency, os@),
        ));
        i += 1;
    }
    assert(t@.take(t@.len() as int) =~= t@);
    r
}

/// The error a native provider reports: never retryable.
pub fn err(code: CapabilityErrorCode, message: &str) -> (r: CapabilityError)
    ensures
        r.code == code,
        r.message@ == message@,
        !r.retryable,
{
    CapabilityError { code, message: String::from_str(message), retryable: false }
}

/// The process identity a request names, which must fit in 32 bits.
pub fn process_id(value: Option<u64>) -> (r: Result<u32, CapabilityError>)
    ensures
        match value {
            Some(v) => if v <= u32::MAX {
                r matches Ok(p) && p == v
            } else {
                r matches Err(e) && e.code == CapabilityErrorCode::InvalidInput
            },
            None => r matches Err(e) && e.code == CapabilityErrorCode::InvalidInput,
        },
        r matches Err(e) ==> e.message@ == "input.process_id must be a positive integer"@ && !e.retryable,
{
    match value {
        Some(v) => {
            if v <= 0xffff_ffffu64 {
                Ok(v as u32)
            } else {
                Err(err(CapabilityErrorCode::InvalidInput, "input.process_id must be a positive integer"))
            }
        },
        None => Err(err(CapabilityErrorCode::InvalidInput, "input.process_id must be a positive integer")),
    }
}

/// An application found on the host.
#[derive(Debug)]
pub struct ApplicationRecord {
    pub application_id: String,
    pub name: String,
    pub display_name: String,
    pub executable: String,
    pub runtime_id: String,
}

/// An application record as a value.
pub struct ApplicationView {
    pub application_id: Seq<char>,
    pub name: Seq<char>,
    pub display_name: Seq<char>,
    pub executable: Seq<char>,
    pub runtime_id: Seq<char>,
}

impl View for ApplicationRecord {
    type V = ApplicationView;

    open spec fn view(&self) -> ApplicationView {
        ApplicationView {
            application_id: self.application_id@,
            name: self.name@,
            display_name: self.display_name@,
            executable: self.executable@,
            runtime_id: self.runtime_id@,
        }
    }
}

impl Clone for ApplicationRecord {
    fn clone(&self) -> (r: Self)
        ensures
            r@ == self@,
    {
        ApplicationRecord {
            application_id: self.application_id.clone(),
            name: self.name.clone(),
            display_name: self.display_name.clone(),
            executable: self.executable.clone(),
            runtime_id: self.runtime_id.clone(),
        }
    }
}

/// The views of a list of application records.
pub open spec fn app_views(s: Seq<ApplicationRecord>) -> Seq<ApplicationView> {
    s.map_values(|a: ApplicationRecord| a@)
}

/// The identity of the first known application with the given identity.
pub open spec fn first_with_id(apps: Seq<ApplicationView>, id: Seq<char>) -> Option<int> {
    if exists|i: int| 0 <= i < apps.len() && (#[trigger] apps[i]).application_id == id {
        Some(
            choose|i: int|
                0 <= i < apps.len() && (#[trigger] apps[i]).application_id == id && forall|j: int|
                    0 <= j < i ==> (#[trigger] apps[j]).application_id != id,
        )
    } else {
        None
    }
}

/// The known applications after remembering `app`: unchanged where one with
/// its identity is known, else `app` added at the end.
pub open spec fn remembered(apps: Seq<ApplicationView>, app: ApplicationView) -> Seq<ApplicationView> {
    if first_with_id(apps, app.application_id) is Some {
        apps
    } else {
        apps.push(app)
    }
}

/// No two applications share an identity.
pub open spec fn distinct_ids(apps: Seq<ApplicationView>) -> bool {
    forall|i: int, j: int|
        0 <= i < j < apps.len() ==> (#[trigger] apps[i]).application_id != (#[trigger] apps[j]).application_id
}

/// Remembering keeps identities distinct, and the remembered identity is then
/// known, so looking it up needs no discovery.
pub proof fn law_remember_keeps_ids_distinct(apps: Seq<ApplicationView>, app: ApplicationView)
    requires
        distinct_ids(apps),
    ensures
        distinct_ids(remembered(apps, app)),
        first_with_id(remembered(apps, app), app.application_id) is Some,
{
    let after = remembered(apps, app);
    if first_with_id(apps, app.application_id) is None {
        assert(after[apps.len() as int] == app);
        assert(exists|i: int| 0 <= i < after.len() && (#[trigger] after[i]).application_id == app.application_id);
        assert forall|i: int, j: int| 0 <= i < j < after.len() implies (#[trigger] after[i]).application_id
            != (#[trigger] after[j]).application_id by {
            if j == apps.len() {
                assert(after[i] == apps[i]);
                if apps[i].application_id == app.application_id {
                    assert(exists|k: int|
                        0 <= k < apps.len() && (#[trigger] apps[k]).application_id == app.application_id);
                }
            } else {
                assert(after[i] == apps[i]);
                assert(after[j] == apps[j]);
            }
        }
    } else {
        assert(exists|i: int| 0 <= i < after.len() && (#[trigger] after[i]).application_id == app.application_id);
    }
}

/// The applications known on one runtime, as last discovered plus those
/// remembered since.
pub struct ApplicationRegistry {
    runtime_id: String,
    entries: Vec<ApplicationRecord>,
}

impl ApplicationRegistry {
    pub closed spec fn runtime_view(&self) -> Seq<char> {
        self.runtime_id@
    }

    /// The known applications, in the order they became known.
    pub closed spec fn entries(&self) -> Seq<ApplicationView> {
        app_views(self.entries@)
    }

    pub fn new(runtime_id: &str) -> (r: Self)
        ensures
            r.runtime_view() == runtime_id@,
            r.entries() == Seq::<ApplicationView>::empty(),
    {
        let r = ApplicationRegistry { runtime_id: String::from_str(runtime_id), entries: Vec::new() };
        assert(r.entries() =~= Seq::<ApplicationView>::empty());
        r
    }

    /// The runtime the applications belong to.
    pub fn runtime_id(&self) -> (r: &str)
        ensures
            r@ == self.runtime_view(),
    {
        self.runtime_id.as_str()
    }

    /// The first remembered application with the identity; nothing is
    /// discovered.
    pub fn find_known(&self, id: &str) -> (r: Option<ApplicationRecord>)
        ensures
            match first_with_id(self.entries(), id@) {
                Some(i) => r matches Some(a) && a@ == self.entries()[i],
                None => r is None,
            },
    {
        let ghost apps = self.entries();
        let mut i: usize = 0;
        while i < self.entries.len()
            invariant
                i <= self.entries.len(),
                apps == self.entries(),
                forall|j: int| 0 <= j < i ==> (#[trigger] apps[j]).application_id != id@,
            decreases self.entries.len() - i,
        {
            assert(apps[i as int] == self.entries@[i as int]@);
            if str_eq(self.entries[i].application_id.as_str(), id) {
                proof {
                    let k = choose|k: int|
                        0 <= k < apps.len() && (#[trigger] apps[k]).application_id == id@ && forall|j: int|
                            0 <= j < k ==> (#[trigger] apps[j]).application_id != id@;
                    assert(k == i) by {
                        if k < i {
                        } else if k > i {
                            assert(apps[i as int].application_id == id@);
                        }
                    }
                }
                return Some(self.entries[i].clone());
            }
            i += 1;
        }
        None
    }

    /// Remembers an application unless one with its identity is known.
    pub fn remember(&mut self, application: ApplicationRecord)
        ensures
            first_with_id(old(self).entries(), application.application_id@) is Some ==> final(self).entries()
                == old(self).entries(),
            first_with_id(old(self).entries(), application.application_id@) is None ==> final(self).entries()
                == old(self).entries().push(application@),
            final(self).entries() == remembered(old(self).entries(), application@),
            final(self).runtime_view() == old(self).runtime_view(),
    {
        let known = self.find_known(application.application_id.as_str());
        if known.is_none() {
            let ghost prev = self.entries@;
            self.entries.push(application);
            assert(app_views(self.entries@) =~= app_views(prev).push(application@));
        }
    }

    /// Replaces the known applications with a fresh discovery.
    pub fn replace_entries(&mut self, found: Vec<ApplicationRecord>)
        ensures
            final(self).entries() == app_views(found@),
            final(self).runtime_view() == old(self).runtime_view(),
    {
        self.entries = found;
    }
}

/// Launches and lists the applications found on the host.
pub struct NativeApplicationProvider {
    pub provider_id: String,
    pub runtime_id: String,
    pub registry: ApplicationRegistry,
}

impl NativeApplicationProvider {
    pub fn new(provider_id: &str, runtime_id: &str) -> (r: Self)
        ensures
            r.provider_id@ == provider_id@,
            r.runtime_id@ == runtime_id@,
            r.registry.runtime_view() == runtime_id@,
            r.registry.entries() == Seq::<ApplicationView>::empty(),
    {
        NativeApplicationProvider {
            provider_id: String::from_str(provider_id),
            registry: ApplicationRegistry::new(runtime_id),
            runtime_id: String::from_str(runtime_id),
        }
    }

    pub fn priority(&self) -> (r: u8)
        ensures
            r == 5,
    {
        5
    }

    /// Listing, searching, inspecting and opening applications on host `os`.
    pub fn definitions(&self, os: &str) -> (r: Vec<CapabilityDefinition>)
        ensures
            def_views(r@) == seq![
                native_definition(
                    "application.list"@,
                    "Dynamically discover executable applications on the native runtime"@,
                    Idempotency::ReadOnly,
                    os@,
                ),
                native_definition(
                    "application.search"@,
                    "Search dynamically discovered applications"@,
                    Idempotency::ReadOnly,
                    os@,
                ),
                native_definition(
                    "application.inspect"@,
                    "Inspect a dynamically discovered application"@,
                    Idempotency::ReadOnly,
                    os@,
                ),
                native_definition(
                    "application.open"@,
                    "Launch a dynamically discovered application"@,
                    Idempotency::NonIdempotent,
                    os@,
                ),
            ],
    {
        let t: [(&'static str, &'static str, Idempotency); 4] = [
            (
                "application.list",
                "Dynamically discover executable applications on the native runtime",
                Idempotency::ReadOnly,
            ),
            ("application.search", "Search dynamically discovered applications", Idempotency::ReadOnly),
            ("application.inspect", "Inspect a dynamically discovered application", Idempotency::ReadOnly),
            ("application.open", "Launch a dynamically discovered application", Idempotency::NonIdempotent),
        ];
        let r = native_definitions(&t, os);
        assert(native_table_view(t@, os@) =~= seq![
            native_definition(
                "application.list"@,
                "Dynamically discover executable applications on the native runtime"@,
                Idempotency::ReadOnly,
                os@,
            ),
            native_definition(
                "application.search"@,
                "Search dynamically discovered applications"@,
                Idempotency::ReadOnly,
                os@,
            ),
            native_definition(
                "application.inspect"@,
                "Inspect a dynamically discovered application"@,
                Idempotency::ReadOnly,
                os@,
            ),
            native_definition(
                "application.open"@,
                "Launch a dynamically discovered application"@,
                Idempotency::NonIdempotent,
                os@,
            ),
        ]);
        r
    }
}

/// Lists, inspects and stops host processes.
pub struct NativeProcessProvider {
    pub provider_id: String,
    pub runtime_id: String,
}

impl NativeProcessProvider {
    pub fn new(provider_id: &str, runtime_id: &str) -> (r: Self)
        ensures
            r.provider_id@ == provider_id@,
            r.runtime_id@ == runtime_id@,
    {
        NativeProcessProvider { provider_id: String::from_str(provider_id), runtime_id: String::from_str(runtime_id) }
    }

    pub fn priority(&self) -> (r: u8)
        ensures
            r == 5,
    {
        5
    }

    /// Listing, inspecting and stopping processes on host `os`.
    pub fn definitions(&self, os: &str) -> (r: Vec<CapabilityDefinition>)
        ensures
            def_views(r@) == seq![
                native_definition("process.list"@, "List native runtime processes"@, Idempotency::ReadOnly, os@),
                native_definition(
                    "process.inspect"@,
                    "Inspect a native runtime process"@,
                    Idempotency::ReadOnly,
                    os@,
                ),
                native_definition("process.stop"@, "Stop a native runtime process"@, Idempotency::Destructive, os@),
            ],
    {
        let t: [(&'static str, &'static str, Idempotency); 3] = [
            ("process.list", "List native runtime processes", Idempotency::ReadOnly),
            ("process.inspect", "Inspect a native runtime process", Idempotency::ReadOnly),
            ("process.stop", "Stop a native runtime process", Idempotency::Destructive),
        ];
        let r = native_definitions(&t, os);
        assert(native_table_view(t@, os@) =~= seq![
            native_definition("process.list"@, "List native runtime processes"@, Idempotency::ReadOnly, os@),
            native_definition("process.inspect"@, "Inspect a native runtime process"@, Idempotency::ReadOnly, os@),
            native_definition("process.stop"@, "Stop a native runtime process"@, Idempotency::Destructive, os@),
        ]);
        r
    }
}

/// Runs allowlisted executables with an argument vector, never through a
/// shell, in a working directory under its root. Paths are read as the host
/// reads them: with `/` separators, and on Windows also with `\` separators
/// and drive prefixes.
pub struct NativeTerminalProvider {
    pub provider_id: String,
    pub runtime_id: String,
    pub root: String,
    pub allowed_executables: Vec<String>,
    pub windows_paths: bool,
}

/// The allowlist as given, ASCII lower-cased.
pub open spec fn lowered_all(v: Seq<Seq<char>>) -> Seq<Seq<char>> {
    v.map_values(|s: Seq<char>| lower(s))
}

impl NativeTerminalProvider {
    /// The allowed executables, lower-cased.
    pub open spec fn allowed(&self) -> Seq<Seq<char>> {
        strs(self.allowed_executables@)
    }

    /// The provider for this host: paths are read as Windows reads them where
    /// the host takes `\` as a separator.
    pub fn new(provider_id: &str, runtime_id: &str, root: &str, allowed_executables: Vec<String>) -> (r: Self)
        ensures
            r.provider_id@ == provider_id@,
            r.runtime_id@ == runtime_id@,
            r.root@ == root@,
            r.allowed() == lowered_all(strs(allowed_executables@)),
    {
        Self::with_path_style(provider_id, runtime_id, root, allowed_executables, host_separator('\\'))
    }

    /// The provider with paths read as Windows reads them, or as other hosts
    /// do.
    pub fn with_path_style(
        provider_id: &str,
        runtime_id: &str,
        root: &str,
        allowed_executables: Vec<String>,
        windows_paths: bool,
    ) -> (r: Self)
        ensures
            r.provider_id@ == provider_id@,
            r.runtime_id@ == runtime_id@,
            r.root@ == root@,
            r.allowed() == lowered_all(strs(allowed_executables@)),
            r.windows_paths == windows_paths,
    {
        let mut lowered: Vec<String> = Vec::new();
        let mut i: usize = 0;
        while i < allowed_executables.len()
            invariant
                i <= allowed_executables.len(),
                strs(lowered@) == lowered_all(strs(allowed_executables@)).take(i as int),
            decreases allowed_executables.len() - i,
        {
            let l = to_lower(allowed_executables[i].as_str());
            let ghost prev = lowered@;
            lowered.push(string_of(&l));
            assert(strs(lowered@) =~= strs(prev).push(lower(allowed_executables@[i as int]@)));
            assert(lowered_all(strs(allowed_executables@))[i as int] == lower(allowed_executables@[i as int]@));
            assert(strs(lowered@) =~= lowered_all(strs(allowed_executables@)).take(i + 1));
            i += 1;
        }
        assert(lowered_all(strs(allowed_executables@)).take(allowed_executables.len() as int) =~= lowered_all(
            strs(allowed_executables@),
        ));
        NativeTerminalProvider {
            provider_id: String::from_str(provider_id),
            runtime_id: String::from_str(runtime_id),
            root: String::from_str(root),
            allowed_executables: lowered,
            windows_paths,
        }
    }

    pub fn priority(&self) -> (r: u8)
        ensures
            r == 1,
    {
        1
    }

    /// Whether the executable is allowlisted, ignoring ASCII case.
    pub fn allows(&self, executable: &str) -> (r: bool)
        ensures
            r == self.allowed().contains(lower(executable@)),
    {
        let l = string_of(&to_lower(executable));
        list_contains(&self.allowed_executables, l.as_str())
    }

    /// The working directory a request names (`.` when it names none),
    /// resolved under the root; it must be relative and never climb out.
    pub fn working_directory(&self, raw: Option<&str>) -> (r: Result<String, CapabilityError>)
        ensures
            ({
                let p = match raw {
                    Some(p) => p@,
                    None => "."@,
                };
                if escapes_root(p, self.windows_paths) {
                    r matches Err(e) && e.code == CapabilityErrorCode::PermissionDenied && !e.retryable
                        && e.message@ == "working_directory must stay within the configured root"@
                } else {
                    r matches Ok(dir) && dir@ == host_joined_path(self.root@, p, self.windows_paths)
                }
            }),
    {
        let p: &str = match raw {
            Some(p) => p,
            None => ".",
        };
        if escapes_root_exec(p, self.windows_paths) {
            Err(err(CapabilityErrorCode::PermissionDenied, "working_directory must stay within the configured root"))
        } else {
            Ok(host_join_path(self.root.as_str(), p, self.windows_paths))
        }
    }

    /// Terminal execution on host `os`: critical in security and risk.
    pub fn definitions(&self, os: &str) -> (r: Vec<CapabilityDefinition>)
        ensures
            r@.len() == 1,
            ({
                let base = native_definition(
                    "terminal.execute"@,
                    "Execute an allowlisted native executable without a shell"@,
                    Idempotency::NonIdempotent,
                    os@,
                );
                r@[0]@ == DefinitionView {
                    metadata: MetadataView {
                        security_level: SecurityLevel::Critical,
                        risk_level: RiskLevel::Critical,
                        ..base.metadata
                    },
                    ..base
                }
            }),
    {
        let mut d = definition(
            "terminal.execute",
            "Execute an allowlisted native executable without a shell",
            Idempotency::NonIdempotent,
            os,
        );
        d.metadata.security_level = SecurityLevel::Critical;
        d.metadata.risk_level = RiskLevel::Critical;
        let mut r: Vec<CapabilityDefinition> = Vec::new();
        r.push(d);
        r
    }
}

/// Reads and writes the Windows clipboard.
pub struct WindowsClipboardProvider {
    pub provider_id: String,
    pub runtime_id: String,
}

impl WindowsClipboardProvider {
    pub fn new(provider_id: &str, runtime_id: &str) -> (r: Self)
        ensures
            r.provider_id@ == provider_id@,
            r.runtime_id@ == runtime_id@,
    {
        WindowsClipboardProvider {
            provider_id: String::from_str(provider_id),
            runtime_id: String::from_str(runtime_id),
        }
    }

    pub fn priority(&self) -> (r: u8)
        ensures
            r == 1,
    {
        1
    }

    /// Reading and writing the clipboard on host `os`.
    pub fn definitions(&self, os: &str) -> (r: Vec<CapabilityDefinition>)
        ensures
            def_views(r@) == seq![
                native_definition("clipboard.read"@, "Read the Windows clipboard"@, Idempotency::ReadOnly, os@),
                native_definition(
                    "clipboard.write"@,
                    "Write the Windows clipboard"@,
                    Idempotency::NonIdempotent,
                    os@,
                ),
            ],
    {
        let t: [(&'static str, &'static str, Idempotency); 2] = [
            ("clipboard.read", "Read the Windows clipboard", Idempotency::ReadOnly),
            ("clipboard.write", "Write the Windows clipboard", Idempotency::NonIdempotent),
        ];
        let r = native_definitions(&t, os);
        assert(native_table_view(t@, os@) =~= seq![
            native_definition("clipboard.read"@, "Read the Windows clipboard"@, Idempotency::ReadOnly, os@),
            native_definition("clipboard.write"@, "Write the Windows clipboard"@, Idempotency::NonIdempotent, os@),
        ]);
        r
    }
}

/// A request to a vision model about a captured image.
#[derive(Clone, Debug)]
pub struct VisionRequest {
    pub image_artifact: String,
    pub query: Option<String>,
}

/// A browser session on a runtime.
#[derive(Clone, Debug)]
pub struct BrowserSession {
    pub session_id: String,
    pub runtime_id: String,
    pub browser_id: String,
}

/// What a browser provider answers for one operation in a session: its
/// output and the artifacts it made.
pub struct BrowserResult {
    pub session_id: String,
    pub output: serde_json::Value,
    pub artifacts: Vec<String>,
}

/// A browser found on a runtime.
#[derive(Clone, Debug)]
pub struct Browser {
    pub browser_id: String,
    pub name: String,
    pub executable: Option<String>,
    pub capabilities: Vec<String>,
}

/// A tab of a browser session.
#[derive(Clone, Debug)]
pub struct BrowserTab {
    pub tab_id: String,
    pub url: String,
    pub title: Option<String>,
}

/// An element of a page.
#[derive(Clone, Debug)]
pub struct BrowserElement {
    pub element_id: String,
    pub role: Option<String>,
    pub name: Option<String>,
    pub text: Option<String>,
}

/// An application matches a search when its name or display name contains
/// the query, ignoring ASCII case.
pub open spec fn matches_search(a: ApplicationView, query: Seq<char>) -> bool {
    crate::text::contains(lower(a.name), lower(query)) || crate::text::contains(lower(a.display_name), lower(query))
}

/// The known applications that match a search, in order.
pub fn search_matches(records: &Vec<ApplicationRecord>, query: &str) -> (r: Vec<ApplicationRecord>)
    ensures
        app_views(r@) == app_views(records@).filter(|a: ApplicationView| matches_search(a, query@)),
{
    let needle = to_lower(query);
    let ghost pred = |a: ApplicationView| matches_search(a, query@);
    let ghost av = app_views(records@);
    let mut r: Vec<ApplicationRecord> = Vec::new();
    let mut i: usize = 0;
    while i < records.len()
        invariant
            i <= records.len(),
            av == app_views(records@),
            needle@ == lower(query@),
            pred == (|a: ApplicationView| matches_search(a, query@)),
            app_views(r@) == av.take(i as int).filter(pred),
        decreases records.len() - i,
    {
        let a = &records[i];
        assert(av[i as int] == a@);
        assert(av.take(i + 1) =~= av.take(i as int).push(a@));
        proof {
            av.take(i as int).lemma_filter_push(a@, pred);
        }
        let hit = crate::text::contains_exec(&to_lower(a.name.as_str()), &needle) || crate::text::contains_exec(
            &to_lower(a.display_name.as_str()),
            &needle,
        );
        if hit {
            let ghost prev = r@;
            r.push(a.clone());
            assert(app_views(r@) =~= app_views(prev).push(a@));
        }
        i += 1;
    }
    assert(av.take(records.len() as int) =~= av);
    r
}

/// The file name a search looks for on the search path: the lower-cased query,
/// with `.exe` on Windows hosts.
pub fn search_executable_name(query: &str, os: &str) -> (r: String)
    ensures
        os@ == "windows"@ ==> r@ == lower(query@) + ".exe"@,
        os@ != "windows"@ ==> r@ == lower(query@),
{
    let q = string_of(&to_lower(query));
    if str_eq(os, "windows") {
        crate::text::concat2(q.as_str(), ".exe")
    } else {
        q
    }
}

/// The arguments an application is launched with in the test mode: refused
/// when any argument is a protected path; otherwise the test document is added
/// unless an argument already names it, ignoring ASCII case.
pub fn test_mode_arguments(arguments: Vec<String>, document: &str) -> (r: Result<Vec<String>, CapabilityError>)
    ensures
        (exists|i: int|
            0 <= i < arguments@.len() && crate::capability::gui_test::protected_path(#[trigger] arguments@[i]@)) ==> (r matches Err(e)
            && e.code == CapabilityErrorCode::InvalidInput && e.message@
            == "TEST_TARGET_UNSAFE: spawn arguments include a protected path"@),
        !(exists|i: int|
            0 <= i < arguments@.len() && crate::capability::gui_test::protected_path(#[trigger] arguments@[i]@)) ==> (r matches Ok(
            args) && (if exists|i: int| 0 <= i < arguments@.len() && lower(#[trigger] arguments@[i]@) == lower(document@) {
            strs(args@) == strs(arguments@)
        } else {
            strs(args@) == strs(arguments@).push(document@)
        })),
{
    let mut i: usize = 0;
    while i < arguments.len()
        invariant
            i <= arguments.len(),
            forall|k: int| 0 <= k < i ==> !crate::capability::gui_test::protected_path(#[trigger] arguments@[k]@),
        decreases arguments.len() - i,
    {
        if crate::capability::gui_test::is_protected_path(arguments[i].as_str()) {
            return Err(err(CapabilityErrorCode::InvalidInput, "TEST_TARGET_UNSAFE: spawn arguments include a protected path"));
        }
        i += 1;
    }
    let doc = to_lower(document);
    let mut j: usize = 0;
    let mut named = false;
    while j < arguments.len()
        invariant
            j <= arguments.len(),
            doc@ == lower(document@),
            named <==> exists|k: int| 0 <= k < j && lower(#[trigger] arguments@[k]@) == lower(document@),
        decreases arguments.len() - j,
    {
        if crate::text::chars_eq(&to_lower(arguments[j].as_str()), &doc) {
            named = true;
        }
        j += 1;
    }
    let mut args = arguments;
    if !named {
        let ghost prev = args@;
        args.push(String::from_str(document));
        assert(strs(args@) =~= strs(prev).push(document@));
    }
    Ok(args)
}

/// What the window found after a launch allows: a protected title is refused;
/// in the test mode the title must be the golden document's, and some window
/// must have been found.
pub fn check_launched_window(window: &Option<(String, String)>, test_mode: bool) -> (r: Result<(), CapabilityError>)
    ensures
        match window {
            Some((id, title)) => if crate::capability::gui_test::protected_title(title@) {
                r matches Err(e) && e.code == CapabilityErrorCode::InvalidInput && e.message@ == "TEST_TARGET_UNSAFE: window "@
                    + id@ + " title '"@ + title@ + "' is protected"@
            } else if test_mode && !crate::capability::gui_test::test_owned_title(title@) {
                r matches Err(e) && e.code == CapabilityErrorCode::InvalidInput && e.message@ == "TEST_TARGET_UNSAFE: window "@
                    + id@ + " title '"@ + title@ + "' is not the golden test document"@
            } else {
                r is Ok
            },
            None => if test_mode {
                r matches Err(e) && e.code == CapabilityErrorCode::InvalidInput && e.message@
                    == "TEST_TARGET_UNSAFE: could not uniquely identify a test-owned window after launch"@
            } else {
                r is Ok
            },
        },
{
    match window {
        Some((id, title)) => {
            if crate::capability::gui_test::is_protected_title(title.as_str()) {
                let mut m = crate::text::concat3("TEST_TARGET_UNSAFE: window ", id.as_str(), " title '");
                m.append(title.as_str());
                m.append("' is protected");
                return Err(CapabilityError { code: CapabilityErrorCode::InvalidInput, message: m, retryable: false });
            }
            if test_mode && !crate::capability::gui_test::is_test_owned_title(title.as_str()) {
                let mut m = crate::text::concat3("TEST_TARGET_UNSAFE: window ", id.as_str(), " title '");
                m.append(title.as_str());
                m.append("' is not the golden test document");
                return Err(CapabilityError { code: CapabilityErrorCode::InvalidInput, message: m, retryable: false });
            }
            Ok(())
        },
        None => {
            if test_mode {
                Err(
                    err(
                        CapabilityErrorCode::InvalidInput,
                        "TEST_TARGET_UNSAFE: could not uniquely identify a test-owned window after launch",
                    ),
                )
            } else {
                Ok(())
            }
        },
    }
}

} // verus!
