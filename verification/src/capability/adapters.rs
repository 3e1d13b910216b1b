//! Operating-system adapters that map universal capabilities onto native
//! operations, the provider built on an adapter, and the scoped local
//! filesystem provider.
use vstd::prelude::*;
use crate::capability::model::{
    basic_definition, CapabilityDefinition, CapabilityError, CapabilityErrorCode, CapabilityRuntime,
    DefinitionView, Idempotency, MetadataView, RiskLevel, SecurityLevel,
};
use crate::capability::registry::def_views;
use crate::text::{chars_of, concat2, concat3, ends_with, str_eq, strs};
use crate::worker::registry::opt_view;

verus! {

/// The character view of a table of literal pairs.
pub open spec fn pairs_view(t: Seq<(&str, &str)>) -> Seq<(Seq<char>, Seq<char>)> {
    t.map_values(|p: (&str, &str)| (p.0@, p.1@))
}

/// The value paired with the first occurrence of `k`.
pub open spec fn pair_lookup(t: Seq<(Seq<char>, Seq<char>)>, k: Seq<char>) -> Option<Seq<char>>
    decreases t.len(),
{
    if t.len() == 0 {
        None
    } else if t[0].0 == k {
        Some(t[0].1)
    } else {
        pair_lookup(t.drop_first(), k)
    }
}

/// Looks `k` up in a table of literal pairs.
pub fn lookup_pair(t: &[(&'static str, &'static str)], k: &str) -> (r: Option<&'static str>)
    ensures
        opt_view(r) == pair_lookup(pairs_view(t@), k@),
{
    let ghost tv = pairs_view(t@);
    let mut i: usize = 0;
    assert(tv.skip(0) =~= tv);
    while i < t.len()
        invariant
            i <= t@.len(),
            tv == pairs_view(t@),
            pair_lookup(tv, k@) == pair_lookup(tv.skip(i as int), k@),
        decreases t@.len() - i,
    {
        let (key, value) = t[i];
        assert(tv.skip(i as int)[0] == (key@, value@));
        if str_eq(key, k) {
            return Some(value);
        }
        assert(tv.skip(i as int).drop_first() =~= tv.skip(i + 1));
        i += 1;
    }
    None
}

/// The boundary between universal capabilities and one operating system.
pub trait CapabilityAdapter {
    /// The native operation behind each universal capability.
    spec fn operations(&self) -> Seq<(Seq<char>, Seq<char>)>;

    /// The adapter's identity.
    spec fn id_view(&self) -> Seq<char>;

    /// The runtime kind the adapter serves.
    spec fn kind_view(&self) -> CapabilityRuntime;

    fn adapter_id(&self) -> (r: &'static str)
        ensures
            r@ == self.id_view(),
    ;

    fn runtime_kind(&self) -> (r: CapabilityRuntime)
        ensures
            r == self.kind_view(),
    ;

    /// The native operation behind a universal capability, if the adapter has one.
    fn native_operation(&self, capability: &str) -> (r: Option<&'static str>)
        ensures
            opt_view(r) == pair_lookup(self.operations(), capability@),
    ;
}

/// Linux: POSIX files, `/proc`, `execve` and accessibility services.
pub struct LinuxCapabilityAdapter;

/// Windows: Win32, Toolhelp, PowerShell and UI Automation.
pub struct WindowsCapabilityAdapter;

/// macOS: Foundation, NSWorkspace, ScreenCaptureKit and the accessibility API.
pub struct MacOSCapabilityAdapter;

/// Containers: the container's filesystem, process API and exec.
pub struct ContainerCapabilityAdapter;

pub open spec fn linux_operations() -> Seq<(Seq<char>, Seq<char>)> {
    seq![
        ("filesystem.read"@, "POSIX read"@),
        ("filesystem.write"@, "POSIX write"@),
        ("process.list"@, "/proc"@),
        ("process.start"@, "execve"@),
        ("terminal.execute"@, "restricted shell"@),
        ("application.list"@, "desktop entries"@),
        ("screen.capture"@, "Wayland/X11"@),
        ("keyboard.type"@, "AT-SPI"@),
        ("mouse.click"@, "AT-SPI"@),
        ("browser.navigate"@, "browser accessibility"@),
    ]
}

pub open spec fn windows_operations() -> Seq<(Seq<char>, Seq<char>)> {
    seq![
        ("filesystem.read"@, "Win32 file API"@),
        ("filesystem.write"@, "Win32 file API"@),
        ("process.list"@, "Toolhelp32"@),
        ("process.start"@, "CreateProcess"@),
        ("terminal.execute"@, "constrained PowerShell"@),
        ("application.list"@, "Windows App SDK"@),
        ("screen.capture"@, "Windows.Graphics.Capture"@),
        ("keyboard.type"@, "UI Automation"@),
        ("mouse.click"@, "UI Automation"@),
        ("browser.navigate"@, "UI Automation"@),
    ]
}

pub open spec fn macos_operations() -> Seq<(Seq<char>, Seq<char>)> {
    seq![
        ("filesystem.read"@, "Foundation FileManager"@),
        ("filesystem.write"@, "Foundation FileManager"@),
        ("process.list"@, "NSWorkspace"@),
        ("process.start"@, "NSWorkspace"@),
        ("terminal.execute"@, "restricted process"@),
        ("application.list"@, "NSWorkspace"@),
        ("screen.capture"@, "ScreenCaptureKit"@),
        ("keyboard.type"@, "Accessibility API"@),
        ("mouse.click"@, "Accessibility API"@),
        ("browser.navigate"@, "Accessibility API"@),
    ]
}

pub open spec fn container_operations() -> Seq<(Seq<char>, Seq<char>)> {
    seq![
        ("filesystem.read"@, "container filesystem"@),
        ("filesystem.write"@, "container filesystem"@),
        ("process.list"@, "container process API"@),
        ("process.start"@, "container exec"@),
        ("terminal.execute"@, "container exec"@),
    ]
}

impl CapabilityAdapter for LinuxCapabilityAdapter {
    open spec fn operations(&self) -> Seq<(Seq<char>, Seq<char>)> {
        linux_operations()
    }

    open spec fn id_view(&self) -> Seq<char> {
        "linux"@
    }

    open spec fn kind_view(&self) -> CapabilityRuntime {
        CapabilityRuntime::Linux
    }

    fn adapter_id(&self) -> (r: &'static str) {
        "linux"
    }

    fn runtime_kind(&self) -> (r: CapabilityRuntime) {
        CapabilityRuntime::Linux
    }

    fn native_operation(&self, capability: &str) -> (r: Option<&'static str>) {
        let t: [(&'static str, &'static str); 10] = [
            ("filesystem.read", "POSIX read"),
            ("filesystem.write", "POSIX write"),
            ("process.list", "/proc"),
            ("process.start", "execve"),
            ("terminal.execute", "restricted shell"),
            ("application.list", "desktop entries"),
            ("screen.capture", "Wayland/X11"),
            ("keyboard.type", "AT-SPI"),
            ("mouse.click", "AT-SPI"),
            ("browser.navigate", "browser accessibility"),
        ];
        assert(pairs_view(t@) =~= linux_operations());
        lookup_pair(&t, capability)
    }
}

impl CapabilityAdapter for WindowsCapabilityAdapter {
    open spec fn operations(&self) -> Seq<(Seq<char>, Seq<char>)> {
        windows_operations()
    }

    open spec fn id_view(&self) -> Seq<char> {
        "windows"@
    }

    open spec fn kind_view(&self) -> CapabilityRuntime {
        CapabilityRuntime::Windows
    }

    fn adapter_id(&self) -> (r: &'static str) {
        "windows"
    }

    fn runtime_kind(&self) -> (r: CapabilityRuntime) {
        CapabilityRuntime::Windows
    }

    fn native_operation(&self, capability: &str) -> (r: Option<&'static str>) {
        let t: [(&'static str, &'static str); 10] = [
            ("filesystem.read", "Win32 file API"),
            ("filesystem.write", "Win32 file API"),
            ("process.list", "Toolhelp32"),
            ("process.start", "CreateProcess"),
            ("terminal.execute", "constrained PowerShell"),
            ("application.list", "Windows App SDK"),
            ("screen.capture", "Windows.Graphics.Capture"),
            ("keyboard.type", "UI Automation"),
            ("mouse.click", "UI Automation"),
            ("browser.navigate", "UI Automation"),
        ];
        assert(pairs_view(t@) =~= windows_operations());
        lookup_pair(&t, capability)
    }
}

impl CapabilityAdapter for MacOSCapabilityAdapter {
    open spec fn operations(&self) -> Seq<(Seq<char>, Seq<char>)> {
        macos_operations()
    }

    open spec fn id_view(&self) -> Seq<char> {
        "macos"@
    }

    open spec fn kind_view(&self) -> CapabilityRuntime {
        CapabilityRuntime::MacOS
    }

    fn adapter_id(&self) -> (r: &'static str) {
        "macos"
    }

    fn runtime_kind(&self) -> (r: CapabilityRuntime) {
        CapabilityRuntime::MacOS
    }

    fn native_operation(&self, capability: &str) -> (r: Option<&'static str>) {
        let t: [(&'static str, &'static str); 10] = [
            ("filesystem.read", "Foundation FileManager"),
            ("filesystem.write", "Foundation FileManager"),
            ("process.list", "NSWorkspace"),
            ("process.start", "NSWorkspace"),
            ("terminal.execute", "restricted process"),
            ("application.list", "NSWorkspace"),
            ("screen.capture", "ScreenCaptureKit"),
            ("keyboard.type", "Accessibility API"),
            ("mouse.click", "Accessibility API"),
            ("browser.navigate", "Accessibility API"),
        ];
        assert(pairs_view(t@) =~= macos_operations());
        lookup_pair(&t, capability)
    }
}

impl CapabilityAdapter for ContainerCapabilityAdapter {
    open spec fn operations(&self) -> Seq<(Seq<char>, Seq<char>)> {
        container_operations()
    }

    open spec fn id_view(&self) -> Seq<char> {
        "container"@
    }

    open spec fn kind_view(&self) -> CapabilityRuntime {
        CapabilityRuntime::Container
    }

    fn adapter_id(&self) -> (r: &'static str) {
        "container"
    }

    fn runtime_kind(&self) -> (r: CapabilityRuntime) {
        CapabilityRuntime::Container
    }

    fn native_operation(&self, capability: &str) -> (r: Option<&'static str>) {
        let t: [(&'static str, &'static str); 5] = [
            ("filesystem.read", "container filesystem"),
            ("filesystem.write", "container filesystem"),
            ("process.list", "container process API"),
            ("process.start", "container exec"),
            ("terminal.execute", "container exec"),
        ];
        assert(pairs_view(t@) =~= container_operations());
        lookup_pair(&t, capability)
    }
}

/// The universal capabilities an adapter provider may offer, in order.
pub open spec fn universal_capabilities() -> Seq<Seq<char>> {
    seq![
        "filesystem.read"@,
        "filesystem.write"@,
        "process.list"@,
        "process.start"@,
        "terminal.execute"@,
        "application.list"@,
        "screen.capture"@,
        "screen.read"@,
        "keyboard.type"@,
        "keyboard.press"@,
        "mouse.move"@,
        "mouse.click"@,
        "mouse.double_click"@,
        "mouse.scroll"@,
        "clipboard.read"@,
        "clipboard.write"@,
        "window.list"@,
        "window.focus"@,
        "browser.open"@,
        "browser.navigate"@,
        "browser.read"@,
        "browser.click"@,
        "browser.type"@,
    ]
}

/// The definition an adapter provider offers for a capability: reading and
/// listing are read-only, anything else is not idempotent, and terminal
/// execution and file writing are privileged and high-risk.
pub open spec fn adapter_definition(c: Seq<char>, kind: CapabilityRuntime) -> DefinitionView {
    let base = basic_definition(
        c,
        "Universal "@ + c + " capability"@,
        seq![kind],
        if ends_with(c, "read"@) || ends_with(c, "list"@) {
            Idempotency::ReadOnly
        } else {
            Idempotency::NonIdempotent
        },
    );
    let privileged = c == "terminal.execute"@ || c == "filesystem.write"@;
    DefinitionView {
        metadata: MetadataView {
            required_permissions: seq![c],
            security_level: if privileged {
                SecurityLevel::Privileged
            } else {
                base.metadata.security_level
            },
            risk_level: if privileged {
                RiskLevel::High
            } else {
                base.metadata.risk_level
            },
            ..base.metadata
        },
        ..base
    }
}

/// A provider that serves universal capabilities through an adapter.
pub struct AdapterProvider<A: CapabilityAdapter> {
    provider_id: String,
    runtime_id: String,
    adapter: A,
}

/// The refusal of terminal execution by an adapter provider.
pub open spec fn adapter_terminal_refusal() -> Seq<char> {
    "Terminal execution requires a separately configured constrained terminal provider; this adapter never exposes host shell access."@
}

impl<A: CapabilityAdapter> AdapterProvider<A> {
    pub closed spec fn provider_view(&self) -> Seq<char> {
        self.provider_id@
    }

    pub closed spec fn runtime_view(&self) -> Seq<char> {
        self.runtime_id@
    }

    pub closed spec fn adapter_view(&self) -> A {
        self.adapter
    }

    pub fn new(provider_id: &str, runtime_id: &str, adapter: A) -> (r: Self)
        ensures
            r.provider_view() == provider_id@,
            r.runtime_view() == runtime_id@,
            r.adapter_view() == adapter,
    {
        AdapterProvider { provider_id: String::from_str(provider_id), runtime_id: String::from_str(runtime_id), adapter }
    }

    pub fn provider_id(&self) -> (r: &str)
        ensures
            r@ == self.provider_view(),
    {
        self.provider_id.as_str()
    }

    /// The identity of the adapter the provider serves through.
    pub fn adapter_id(&self) -> (r: &'static str)
        ensures
            r@ == self.adapter_view().id_view(),
    {
        self.adapter.adapter_id()
    }

    pub fn runtime_id(&self) -> (r: &str)
        ensures
            r@ == self.runtime_view(),
    {
        self.runtime_id.as_str()
    }

    /// Adapter providers come after the scoped and native providers.
    pub fn priority(&self) -> (r: u8)
        ensures
            r == 10,
    {
        10
    }

    /// One definition for each universal capability the adapter can perform.
    pub fn definitions(&self) -> (r: Vec<CapabilityDefinition>)
        ensures
            def_views(r@) == universal_capabilities().filter(
                |c: Seq<char>| pair_lookup(self.adapter_view().operations(), c) is Some,
            ).map_values(|c: Seq<char>| adapter_definition(c, self.adapter_view().kind_view())),
    {
        let names: [&'static str; 23] = [
            "filesystem.read",
            "filesystem.write",
            "process.list",
            "process.start",
            "terminal.execute",
            "application.list",
            "screen.capture",
            "screen.read",
            "keyboard.type",
            "keyboard.press",
            "mouse.move",
            "mouse.click",
            "mouse.double_click",
            "mouse.scroll",
            "clipboard.read",
            "clipboard.write",
            "window.list",
            "window.focus",
            "browser.open",
            "browser.navigate",
            "browser.read",
            "browser.click",
            "browser.type",
        ];
        let ghost nv = names@.map_values(|n: &str| n@);
        assert(nv =~= universal_capabilities());
        let ghost ops = self.adapter.operations();
        let ghost kind = self.adapter.kind_view();
        let ghost keep = |c: Seq<char>| pair_lookup(ops, c) is Some;
        let ghost make = |c: Seq<char>| adapter_definition(c, kind);
        let kind_x = self.adapter.runtime_kind();
        let mut r: Vec<CapabilityDefinition> = Vec::new();
        let mut i: usize = 0;
        while i < 23
            invariant
                i <= 23,
                nv == names@.map_values(|n: &str| n@),
                ops == self.adapter.operations(),
                kind == self.adapter.kind_view(),
                kind_x == kind,
                keep == (|c: Seq<char>| pair_lookup(ops, c) is Some),
                make == (|c: Seq<char>| adapter_definition(c, kind)),
                def_views(r@) == nv.take(i as int).filter(keep).map_values(make),
            decreases 23 - i,
        {
            let c = names[i];
            let ghost cv = c@;
            assert(nv[i as int] == cv);
            assert(nv.take(i + 1) =~= nv.take(i as int).push(cv));
            proof {
                nv.take(i as int).lemma_filter_push(cv, keep);
            }
            if self.adapter.native_operation(c).is_some() {
                let d = adapter_definition_exec(c, kind_x);
                let ghost prev = r@;
                r.push(d);
                assert(def_views(r@) =~= def_views(prev).push(make(cv)));
                assert(nv.take(i as int).filter(keep).push(cv).map_values(make) =~= nv.take(
                    i as int,
                ).filter(keep).map_values(make).push(make(cv)));
            }
            i += 1;
        }
        assert(nv.take(23) =~= nv);
        r
    }

    /// The native operation that serves the capability, or why there is none:
    /// the adapter lacks the capability, or it is terminal execution, which an
    /// adapter provider never performs.
    pub fn resolve(&self, capability: &str) -> (r: Result<&'static str, CapabilityError>)
        ensures
            match pair_lookup(self.adapter_view().operations(), capability@) {
                None => r matches Err(e) && e.code == CapabilityErrorCode::Unsupported && !e.retryable
                    && e.message@ == self.adapter_view().id_view() + " cannot provide "@ + capability@,
                Some(op) => if capability@ == "terminal.execute"@ {
                    r matches Err(e) && e.code == CapabilityErrorCode::Unsupported && !e.retryable
                        && e.message@ == adapter_terminal_refusal()
                } else {
                    r matches Ok(n) && n@ == op
                },
            },
    {
        match self.adapter.native_operation(capability) {
            None => Err(
                CapabilityError {
                    code: CapabilityErrorCode::Unsupported,
                    message: concat3(self.adapter.adapter_id(), " cannot provide ", capability),
                    retryable: false,
                },
            ),
            Some(native) => {
                if str_eq(capability, "terminal.execute") {
                    Err(
                        CapabilityError {
                            code: CapabilityErrorCode::Unsupported,
                            message: String::from_str(
                                "Terminal execution requires a separately configured constrained terminal provider; this adapter never exposes host shell access.",
                            ),
                            retryable: false,
                        },
                    )
                } else {
                    Ok(native)
                }
            },
        }
    }
}

fn adapter_definition_exec(c: &str, kind: CapabilityRuntime) -> (r: CapabilityDefinition)
    ensures
        r@ == adapter_definition(c@, kind),
{
    let cv = chars_of(c);
    let read_only = crate::text::ends_with_lit(&cv, "read") || crate::text::ends_with_lit(&cv, "list");
    let mut runtimes: Vec<CapabilityRuntime> = Vec::new();
    runtimes.push(kind);
    let description = concat3("Universal ", c, " capability");
    let mut d = CapabilityDefinition::basic(
        c,
        description.as_str(),
        runtimes,
        if read_only {
            Idempotency::ReadOnly
        } else {
            Idempotency::NonIdempotent
        },
    );
    d.metadata.required_permissions.push(String::from_str(c));
    if str_eq(c, "terminal.execute") || str_eq(c, "filesystem.write") {
        d.metadata.security_level = SecurityLevel::Privileged;
        d.metadata.risk_level = RiskLevel::High;
    }
    assert(runtimes@ =~= seq![kind]);
    assert(d@.metadata.required_permissions =~= seq![c@]);
    d
}

/// The real filesystem provider, scoped to a root folder. Paths are read as
/// the host reads them: with `/` separators, and on Windows also with `\`
/// separators and drive prefixes.
pub struct LocalFilesystemProvider {
    provider_id: String,
    runtime_id: String,
    root: String,
    windows_paths: bool,
}

/// `std::path::is_separator`: whether this host takes the character as a path
/// separator. Its documentation gives `/` as a separator on every platform
/// and `\` as the other one on Windows; the contract states only that, not
/// which kind of host this is.
#[verifier::external_body]
pub(crate) fn host_separator(c: char) -> (r: bool)
    ensures
        c == '/' ==> r,
        r ==> (c == '/' || c == '\\'),
{
    std::path::is_separator(c)
}

/// A path separator: `/`, and with Windows paths also `\`.
pub open spec fn is_separator(c: char, windows: bool) -> bool {
    c == '/' || (windows && c == '\\')
}

/// Whether the character separates path components.
pub fn is_separator_exec(c: char, windows: bool) -> (r: bool)
    ensures
        r == is_separator(c, windows),
{
    c == '/' || (windows && c == '\\')
}

/// The path starts with a Windows drive prefix such as `C:`.
pub open spec fn drive_prefix(p: Seq<char>) -> bool {
    p.len() >= 2 && p[1] == ':' && (('a' <= p[0] && p[0] <= 'z') || ('A' <= p[0] && p[0] <= 'Z'))
}

/// A `..` component starts at position `i`.
pub open spec fn parent_at(p: Seq<char>, i: int, windows: bool) -> bool {
    0 <= i && i + 2 <= p.len() && p[i] == '.' && p[i + 1] == '.' && (i == 0 || is_separator(p[i - 1], windows))
        && (i + 2 == p.len() || is_separator(p[i + 2], windows))
}

/// The path contains a `..` component.
pub open spec fn has_parent_component(p: Seq<char>, windows: bool) -> bool {
    exists|i: int| #[trigger] parent_at(p, i, windows)
}

/// The path is absolute or climbs out of the folder it is resolved in: it
/// starts at a root (a leading separator), with Windows paths also at a
/// drive prefix, or it has a `..` component.
pub open spec fn escapes_root(p: Seq<char>, windows: bool) -> bool {
    ||| (p.len() > 0 && is_separator(p[0], windows))
    ||| (windows && drive_prefix(p))
    ||| has_parent_component(p, windows)
}

/// `base` joined with a relative path as the host joins paths: nothing goes
/// between them where `base` is empty, ends in a separator or, with Windows
/// paths, is a bare drive such as `C:`; otherwise the host's separator, `\`
/// with Windows paths and `/` elsewhere.
pub open spec fn host_joined_path(base: Seq<char>, rel: Seq<char>, windows: bool) -> Seq<char> {
    if base.len() == 0 || is_separator(base.last(), windows) || (windows && base.len() == 2 && drive_prefix(base)) {
        base + rel
    } else {
        base + seq![if windows { '\\' } else { '/' }] + rel
    }
}

/// `base` joined with a relative path, with one separator between them.
pub open spec fn joined_path(base: Seq<char>, rel: Seq<char>) -> Seq<char> {
    if base.len() == 0 || base.last() == '/' {
        base + rel
    } else {
        base + seq!['/'] + rel
    }
}

/// The nine scoped filesystem capabilities, in order.
pub open spec fn filesystem_capabilities() -> Seq<Seq<char>> {
    seq![
        "filesystem.read"@,
        "filesystem.write"@,
        "filesystem.copy"@,
        "filesystem.move"@,
        "filesystem.delete"@,
        "filesystem.create"@,
        "filesystem.list"@,
        "filesystem.metadata"@,
        "filesystem.permissions"@,
    ]
}

/// Reading, listing and inspecting leave the filesystem unchanged.
pub open spec fn filesystem_read_only(c: Seq<char>) -> bool {
    c == "filesystem.read"@ || c == "filesystem.list"@ || c == "filesystem.metadata"@ || c
        == "filesystem.permissions"@
}

/// The definition the scoped filesystem provider offers for a capability:
/// deletion is destructive and critical, other writes sensitive and medium-risk.
pub open spec fn filesystem_definition(c: Seq<char>) -> DefinitionView {
    let base = basic_definition(
        c,
        "Scoped universal "@ + c,
        seq![
            CapabilityRuntime::Linux,
            CapabilityRuntime::Windows,
            CapabilityRuntime::MacOS,
            CapabilityRuntime::Container,
        ],
        if filesystem_read_only(c) {
            Idempotency::ReadOnly
        } else if c == "filesystem.delete"@ {
            Idempotency::Destructive
        } else {
            Idempotency::NonIdempotent
        },
    );
    DefinitionView {
        metadata: MetadataView {
            required_permissions: seq![c],
            security_level: if c == "filesystem.delete"@ {
                SecurityLevel::Critical
            } else {
                SecurityLevel::Sensitive
            },
            risk_level: if c == "filesystem.delete"@ {
                RiskLevel::Critical
            } else {
                RiskLevel::Medium
            },
            ..base.metadata
        },
        ..base
    }
}

fn filesystem_definition_exec(c: &str) -> (r: CapabilityDefinition)
    ensures
        r@ == filesystem_definition(c@),
{
    let mut runtimes: Vec<CapabilityRuntime> = Vec::new();
    runtimes.push(CapabilityRuntime::Linux);
    runtimes.push(CapabilityRuntime::Windows);
    runtimes.push(CapabilityRuntime::MacOS);
    runtimes.push(CapabilityRuntime::Container);
    let read_only = str_eq(c, "filesystem.read") || str_eq(c, "filesystem.list") || str_eq(
        c,
        "filesystem.metadata",
    ) || str_eq(c, "filesystem.permissions");
    let delete = str_eq(c, "filesystem.delete");
    let description = concat2("Scoped universal ", c);
    let mut d = CapabilityDefinition::basic(
        c,
        description.as_str(),
        runtimes,
        if read_only {
            Idempotency::ReadOnly
        } else if delete {
            Idempotency::Destructive
        } else {
            Idempotency::NonIdempotent
        },
    );
    d.metadata.required_permissions.push(String::from_str(c));
    d.metadata.security_level = if delete {
        SecurityLevel::Critical
    } else {
        SecurityLevel::Sensitive
    };
    d.metadata.risk_level = if delete {
        RiskLevel::Critical
    } else {
        RiskLevel::Medium
    };
    assert(runtimes@ =~= seq![
        CapabilityRuntime::Linux,
        CapabilityRuntime::Windows,
        CapabilityRuntime::MacOS,
        CapabilityRuntime::Container,
    ]);
    assert(d@.metadata.required_permissions =~= seq![c@]);
    d
}

impl LocalFilesystemProvider {
    pub closed spec fn provider_view(&self) -> Seq<char> {
        self.provider_id@
    }

    pub closed spec fn runtime_view(&self) -> Seq<char> {
        self.runtime_id@
    }

    pub closed spec fn root_view(&self) -> Seq<char> {
        self.root@
    }

    /// Whether paths are read as Windows reads them.
    pub closed spec fn windows_view(&self) -> bool {
        self.windows_paths
    }

    /// The provider for this host: paths are read as Windows reads them where
    /// the host takes `\` as a separator.
    pub fn new(provider_id: &str, runtime_id: &str, root: &str) -> (r: Self)
        ensures
            r.provider_view() == provider_id@,
            r.runtime_view() == runtime_id@,
            r.root_view() == root@,
    {
        Self::with_path_style(provider_id, runtime_id, root, host_separator('\\'))
    }

    /// The provider with paths read as Windows reads them, or as other
    /// hosts do.
    pub fn with_path_style(provider_id: &str, runtime_id: &str, root: &str, windows_paths: bool) -> (r: Self)
        ensures
            r.provider_view() == provider_id@,
            r.runtime_view() == runtime_id@,
            r.root_view() == root@,
            r.windows_view() == windows_paths,
    {
        LocalFilesystemProvider {
            provider_id: String::from_str(provider_id),
            runtime_id: String::from_str(runtime_id),
            root: String::from_str(root),
            windows_paths,
        }
    }

    /// Whether paths are read as Windows reads them.
    pub fn windows_paths(&self) -> (r: bool)
        ensures
            r == self.windows_view(),
    {
        self.windows_paths
    }

    pub fn provider_id(&self) -> (r: &str)
        ensures
            r@ == self.provider_view(),
    {
        self.provider_id.as_str()
    }

    pub fn runtime_id(&self) -> (r: &str)
        ensures
            r@ == self.runtime_view(),
    {
        self.runtime_id.as_str()
    }

    pub fn root(&self) -> (r: &str)
        ensures
            r@ == self.root_view(),
    {
        self.root.as_str()
    }

    /// The scoped provider runs before every other.
    pub fn priority(&self) -> (r: u8)
        ensures
            r == 1,
    {
        1
    }

    /// The path the request names, resolved under the root: the request must
    /// name one, and it must be relative and never climb out of the root.
    pub fn path(&self, raw: Option<&str>) -> (r: Result<String, CapabilityError>)
        ensures
            match raw {
                None => r matches Err(e) && e.code == CapabilityErrorCode::InvalidInput && !e.retryable
                    && e.message@ == "input.path is required"@,
                Some(p) => if escapes_root(p@, self.windows_view()) {
                    r matches Err(e) && e.code == CapabilityErrorCode::PermissionDenied && !e.retryable
                        && e.message@ == "path must be a relative path within the provider root"@
                } else {
                    r matches Ok(full) && full@ == host_joined_path(self.root_view(), p@, self.windows_view())
                },
            },
    {
        match raw {
            None => Err(
                CapabilityError {
                    code: CapabilityErrorCode::InvalidInput,
                    message: String::from_str("input.path is required"),
                    retryable: false,
                },
            ),
            Some(p) => {
                if escapes_root_exec(p, self.windows_paths) {
                    Err(
                        CapabilityError {
                            code: CapabilityErrorCode::PermissionDenied,
                            message: String::from_str("path must be a relative path within the provider root"),
                            retryable: false,
                        },
                    )
                } else {
                    Ok(host_join_path(self.root.as_str(), p, self.windows_paths))
                }
            },
        }
    }

    /// One definition for each scoped filesystem capability.
    pub fn definitions(&self) -> (r: Vec<CapabilityDefinition>)
        ensures
            def_views(r@) == filesystem_capabilities().map_values(|c: Seq<char>| filesystem_definition(c)),
    {
        let names: [&'static str; 9] = [
            "filesystem.read",
            "filesystem.write",
            "filesystem.copy",
            "filesystem.move",
            "filesystem.delete",
            "filesystem.create",
            "filesystem.list",
            "filesystem.metadata",
            "filesystem.permissions",
        ];
        let ghost nv = names@.map_values(|n: &str| n@);
        assert(nv =~= filesystem_capabilities());
        let mut r: Vec<CapabilityDefinition> = Vec::new();
        let mut i: usize = 0;
        while i < 9
            invariant
                i <= 9,
                nv == names@.map_values(|n: &str| n@),
                def_views(r@) == nv.take(i as int).map_values(|c: Seq<char>| filesystem_definition(c)),
            decreases 9 - i,
        {
            let ghost prev = r@;
            r.push(filesystem_definition_exec(names[i]));
            assert(nv[i as int] == names@[i as int]@);
            assert(def_views(r@) =~= def_views(prev).push(filesystem_definition(nv[i as int])));
            assert(nv.take(i + 1) =~= nv.take(i as int).push(nv[i as int]));
            assert(def_views(r@) =~= nv.take(i + 1).map_values(|c: Seq<char>| filesystem_definition(c)));
            i += 1;
        }
        assert(nv.take(9) =~= nv);
        r
    }

    /// What an operation changes: nothing for reading, listing and
    /// inspecting, otherwise the operation itself.
    pub fn side_effects(op: &str) -> (r: Vec<String>)
        ensures
            filesystem_read_only(op@) ==> strs(r@) == Seq::<Seq<char>>::empty(),
            !filesystem_read_only(op@) ==> strs(r@) == seq![op@],
    {
        let mut r: Vec<String> = Vec::new();
        if !(str_eq(op, "filesystem.read") || str_eq(op, "filesystem.list") || str_eq(op, "filesystem.metadata")
            || str_eq(op, "filesystem.permissions")) {
            r.push(String::from_str(op));
        }
        assert(strs(r@) =~= (if filesystem_read_only(op@) {
            Seq::<Seq<char>>::empty()
        } else {
            seq![op@]
        }));
        r
    }
}

/// The character at `i` is a separator or a `.` component.
pub open spec fn base_char(p: Seq<char>, i: int, windows: bool) -> bool {
    is_separator(p[i], windows) || (p[i] == '.' && (i == 0 || is_separator(p[i - 1], windows)) && (i + 1 == p.len()
        || is_separator(p[i + 1], windows)))
}

/// A relative path that names the folder it is resolved in: every component
/// is `.`, or empty.
pub open spec fn names_base(p: Seq<char>, windows: bool) -> bool {
    forall|i: int| 0 <= i < p.len() ==> #[trigger] base_char(p, i, windows)
}

/// Whether a relative path names the folder it is resolved in.
pub fn names_base_exec(p: &str, windows: bool) -> (r: bool)
    ensures
        r == names_base(p@, windows),
{
    let v = chars_of(p);
    let mut i: usize = 0;
    while i < v.len()
        invariant
            i <= v.len(),
            v@ == p@,
            forall|k: int| 0 <= k < i ==> #[trigger] base_char(p@, k, windows),
        decreases v.len() - i,
    {
        let c = v[i];
        if !is_separator_exec(c, windows) {
            if c != '.' {
                assert(!base_char(p@, i as int, windows));
                return false;
            }
            if i > 0 && !is_separator_exec(v[i - 1], windows) {
                assert(!base_char(p@, i as int, windows));
                return false;
            }
            if i + 1 < v.len() && !is_separator_exec(v[i + 1], windows) {
                assert(!base_char(p@, i as int, windows));
                return false;
            }
        }
        assert(base_char(p@, i as int, windows));
        i += 1;
    }
    true
}

/// A filesystem operation the scoped provider performs, on resolved paths.
#[derive(Debug)]
pub enum FsOperation {
    Read { path: String },
    Write { path: String, content: String },
    Delete { path: String },
    Copy { from: String, to: String, target: String },
    Move { from: String, to: String, target: String },
    List { path: String },
    Metadata { path: String },
}

/// A filesystem operation as a value.
pub enum FsView {
    Read(Seq<char>),
    Write(Seq<char>, Seq<char>),
    Delete(Seq<char>),
    Copy(Seq<char>, Seq<char>, Seq<char>),
    Move(Seq<char>, Seq<char>, Seq<char>),
    List(Seq<char>),
    Metadata(Seq<char>),
}

impl View for FsOperation {
    type V = FsView;

    open spec fn view(&self) -> FsView {
        match self {
            FsOperation::Read { path } => FsView::Read(path@),
            FsOperation::Write { path, content } => FsView::Write(path@, content@),
            FsOperation::Delete { path } => FsView::Delete(path@),
            FsOperation::Copy { from, to, target } => FsView::Copy(from@, to@, target@),
            FsOperation::Move { from, to, target } => FsView::Move(from@, to@, target@),
            FsOperation::List { path } => FsView::List(path@),
            FsOperation::Metadata { path } => FsView::Metadata(path@),
        }
    }
}

/// A path resolved under the root, or the refusal's code and message.
pub open spec fn resolved(root: Seq<char>, raw: Option<Seq<char>>, windows: bool) -> Result<
    Seq<char>,
    (CapabilityErrorCode, Seq<char>),
> {
    match raw {
        None => Err((CapabilityErrorCode::InvalidInput, "input.path is required"@)),
        Some(p) => if escapes_root(p, windows) {
            Err((CapabilityErrorCode::PermissionDenied, "path must be a relative path within the provider root"@))
        } else {
            Ok(host_joined_path(root, p, windows))
        },
    }
}

/// The operation a filesystem request asks for, from its capability and its
/// `path`, `content` and `target` fields; the path is resolved first, and the
/// root itself is never deleted.
pub open spec fn fs_planned(
    root: Seq<char>,
    windows: bool,
    op: Seq<char>,
    path: Option<Seq<char>>,
    content: Option<Seq<char>>,
    target: Option<Seq<char>>,
) -> Result<FsView, (CapabilityErrorCode, Seq<char>)> {
    match resolved(root, path, windows) {
        Err(e) => Err(e),
        Ok(full) => if op == "filesystem.read"@ {
            Ok(FsView::Read(full))
        } else if op == "filesystem.write"@ || op == "filesystem.create"@ {
            match content {
                None => Err((CapabilityErrorCode::InvalidInput, "input.content is required"@)),
                Some(c) => Ok(FsView::Write(full, c)),
            }
        } else if op == "filesystem.delete"@ {
            if names_base(path->0, windows) {
                Err((CapabilityErrorCode::PermissionDenied, "cannot delete the provider root"@))
            } else {
                Ok(FsView::Delete(full))
            }
        } else if op == "filesystem.copy"@ || op == "filesystem.move"@ {
            match target {
                None => Err((CapabilityErrorCode::InvalidInput, "input.target is required"@)),
                Some(t) => match resolved(root, Some(t), windows) {
                    Err(e) => Err(e),
                    Ok(to) => if op == "filesystem.copy"@ {
                        Ok(FsView::Copy(full, to, t))
                    } else {
                        Ok(FsView::Move(full, to, t))
                    },
                },
            }
        } else if op == "filesystem.list"@ {
            Ok(FsView::List(full))
        } else if op == "filesystem.metadata"@ || op == "filesystem.permissions"@ {
            Ok(FsView::Metadata(full))
        } else {
            Err((CapabilityErrorCode::Unsupported, "unsupported filesystem operation '"@ + op + "'"@))
        },
    }
}

/// A planned operation, or the refusal's code and message.
pub open spec fn fs_outcome(r: Result<FsOperation, CapabilityError>) -> Result<FsView, (CapabilityErrorCode, Seq<char>)> {
    match r {
        Ok(o) => Ok(o@),
        Err(e) => Err((e.code, e.message@)),
    }
}

impl LocalFilesystemProvider {
    /// The operation a filesystem request asks for, on paths resolved under
    /// the root.
    pub fn plan(&self, op: &str, path: Option<&str>, content: Option<&str>, target: Option<&str>) -> (r: Result<
        FsOperation,
        CapabilityError,
    >)
        ensures
            fs_outcome(r) == fs_planned(
                self.root_view(),
                self.windows_view(),
                op@,
                opt_view(path),
                opt_view(content),
                opt_view(target),
            ),
            r matches Err(e) ==> !e.retryable,
    {
        let full = self.path(path)?;
        let raw = match path {
            Some(p) => p,
            None => "",
        };
        if str_eq(op, "filesystem.read") {
            return Ok(FsOperation::Read { path: full });
        }
        if str_eq(op, "filesystem.write") || str_eq(op, "filesystem.create") {
            return match content {
                None => Err(
                    CapabilityError {
                        code: CapabilityErrorCode::InvalidInput,
                        message: String::from_str("input.content is required"),
                        retryable: false,
                    },
                ),
                Some(c) => Ok(FsOperation::Write { path: full, content: String::from_str(c) }),
            };
        }
        if str_eq(op, "filesystem.delete") {
            if names_base_exec(raw, self.windows_paths) {
                return Err(
                    CapabilityError {
                        code: CapabilityErrorCode::PermissionDenied,
                        message: String::from_str("cannot delete the provider root"),
                        retryable: false,
                    },
                );
            }
            return Ok(FsOperation::Delete { path: full });
        }
        let copy = str_eq(op, "filesystem.copy");
        if copy || str_eq(op, "filesystem.move") {
            let t = match target {
                None => {
                    return Err(
                        CapabilityError {
                            code: CapabilityErrorCode::InvalidInput,
                            message: String::from_str("input.target is required"),
                            retryable: false,
                        },
                    );
                },
                Some(t) => t,
            };
            let to = self.path(Some(t))?;
            return if copy {
                Ok(FsOperation::Copy { from: full, to, target: String::from_str(t) })
            } else {
                Ok(FsOperation::Move { from: full, to, target: String::from_str(t) })
            };
        }
        if str_eq(op, "filesystem.list") {
            return Ok(FsOperation::List { path: full });
        }
        if str_eq(op, "filesystem.metadata") || str_eq(op, "filesystem.permissions") {
            return Ok(FsOperation::Metadata { path: full });
        }
        let m = concat3("unsupported filesystem operation '", op, "'");
        Err(CapabilityError { code: CapabilityErrorCode::Unsupported, message: m, retryable: false })
    }
}

/// The path lies under the root: it is the root joined with a relative path
/// that never climbs out of it.
pub open spec fn under_root(root: Seq<char>, full: Seq<char>, windows: bool) -> bool {
    exists|q: Seq<char>| !escapes_root(q, windows) && #[trigger] host_joined_path(root, q, windows) == full
}

/// The paths an operation touches.
pub open spec fn fs_paths(v: FsView) -> Seq<Seq<char>> {
    match v {
        FsView::Read(p) => seq![p],
        FsView::Write(p, _) => seq![p],
        FsView::Delete(p) => seq![p],
        FsView::Copy(a, b, _) => seq![a, b],
        FsView::Move(a, b, _) => seq![a, b],
        FsView::List(p) => seq![p],
        FsView::Metadata(p) => seq![p],
    }
}

/// The scoped provider stays in its root: every path a planned operation
/// touches lies under the root, and deleting the root itself is refused.
pub proof fn law_filesystem_stays_under_root(
    root: Seq<char>,
    windows: bool,
    op: Seq<char>,
    path: Option<Seq<char>>,
    content: Option<Seq<char>>,
    target: Option<Seq<char>>,
)
    ensures
        fs_planned(root, windows, op, path, content, target) matches Ok(v) ==> forall|i: int|
            0 <= i < fs_paths(v).len() ==> under_root(root, #[trigger] fs_paths(v)[i], windows),
        fs_planned(root, windows, op, path, content, target) matches Ok(FsView::Delete(_)) ==> !names_base(
            path->0,
            windows,
        ),
{
    if let Some(p) = path {
        if !escapes_root(p, windows) {
            assert(under_root(root, host_joined_path(root, p, windows), windows));
        }
    }
    if let Some(t) = target {
        if !escapes_root(t, windows) {
            assert(under_root(root, host_joined_path(root, t, windows), windows));
        }
    }
}

/// Whether a path starts at a root or drive, or has a `..` component.
pub fn escapes_root_exec(p: &str, windows: bool) -> (r: bool)
    ensures
        r == escapes_root(p@, windows),
{
    let v = chars_of(p);
    if v.len() > 0 && is_separator_exec(v[0], windows) {
        return true;
    }
    if windows && v.len() >= 2 && v[1] == ':' && (('a' <= v[0] && v[0] <= 'z') || ('A' <= v[0] && v[0] <= 'Z')) {
        return true;
    }
    let mut i: usize = 0;
    while v.len() >= 2 && i <= v.len() - 2
        invariant
            v@ == p@,
            i <= v.len(),
            forall|j: int| 0 <= j < i ==> !#[trigger] parent_at(p@, j, windows),
        decreases v.len() - i,
    {
        if v[i] == '.' && v[i + 1] == '.' && (i == 0 || is_separator_exec(v[i - 1], windows)) && (i + 2 == v.len()
            || is_separator_exec(v[i + 2], windows)) {
            assert(parent_at(p@, i as int, windows));
            return true;
        }
        i += 1;
    }
    assert forall|j: int| !parent_at(p@, j, windows) by {
        if 0 <= j && j + 2 <= p@.len() {
            assert(j < i);
        }
    }
    false
}

/// `base` joined with a relative path as the host joins paths.
pub fn host_join_path(base: &str, rel: &str, windows: bool) -> (r: String)
    ensures
        r@ == host_joined_path(base@, rel@, windows),
{
    if !windows {
        return join_path(base, rel);
    }
    let b = chars_of(base);
    let mut r = String::from_str(base);
    let drive = b.len() == 2 && b[1] == ':' && (('a' <= b[0] && b[0] <= 'z') || ('A' <= b[0] && b[0] <= 'Z'));
    if !(b.len() == 0 || is_separator_exec(b[b.len() - 1], true) || drive) {
        r.append("\\");
        proof {
            reveal_strlit("\\");
        }
    }
    r.append(rel);
    r
}

/// `base` joined with a relative path, with one separator between them.
pub fn join_path(base: &str, rel: &str) -> (r: String)
    ensures
        r@ == joined_path(base@, rel@),
{
    let b = chars_of(base);
    let mut r = String::from_str(base);
    if !(b.len() == 0 || b[b.len() - 1] == '/') {
        r.append("/");
        proof {
            reveal_strlit("/");
        }
    }
    r.append(rel);
    r
}

} // verus!
