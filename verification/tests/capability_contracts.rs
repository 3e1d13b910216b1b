use cognyx_runtime::capability::adapters::{
    escapes_root_exec, join_path, AdapterProvider, CapabilityAdapter, ContainerCapabilityAdapter,
    LinuxCapabilityAdapter, LocalFilesystemProvider, MacOSCapabilityAdapter, WindowsCapabilityAdapter,
};
use cognyx_runtime::capability::browser::browser_definitions;
use cognyx_runtime::capability::layer::{exhausted, settle, CapabilityProviderResult, ProviderOutcome, UniversalCapabilityLayer};
use cognyx_runtime::capability::model::{
    AuditPolicy, CapabilityDefinition, CapabilityError, CapabilityErrorCode, CapabilityRequest, CapabilityResult,
    CapabilityRuntime, CapabilityStatus, CapabilityVersion, Idempotency, RiskLevel, SecurityLevel,
};
use cognyx_runtime::capability::native::{
    definition, process_id, ApplicationRecord, ApplicationRegistry, NativeApplicationProvider,
    NativeProcessProvider, NativeTerminalProvider, WindowsClipboardProvider,
};
use cognyx_runtime::capability::registry::CapabilityRegistry;
use cognyx_runtime::capability::windows_providers::{
    hwnd_from_window_id, WindowsKeyboardProvider, WindowsMouseProvider, WindowsScreenCaptureProvider,
    WindowsWindowProvider,
};

fn request(id: &str) -> CapabilityRequest {
    CapabilityRequest {
        request_id: "req-1".into(),
        task_id: "task-1".into(),
        agent_id: "agent-1".into(),
        capability_id: id.into(),
        requested_version: Some(CapabilityVersion::v1()),
        runtime_hint: None,
        input: serde_json::Value::Null,
        timeout_ms: Some(1_000),
        trace_id: "trace-1".into(),
        span_id: "span-1".into(),
    }
}

fn versioned(id: &str, major: u16, minor: u16) -> CapabilityDefinition {
    let mut d = CapabilityDefinition::basic(id, "test capability", vec![CapabilityRuntime::Linux], Idempotency::ReadOnly);
    d.version = CapabilityVersion { major, minor };
    d
}

#[test]
fn cross_os_adapter_contracts_expose_universal_names() {
    let linux = AdapterProvider::new("linux", "linux-1", LinuxCapabilityAdapter);
    let windows = AdapterProvider::new("windows", "win-1", WindowsCapabilityAdapter);
    let macos = AdapterProvider::new("macos", "mac-1", MacOSCapabilityAdapter);
    let container = AdapterProvider::new("container", "ctr-1", ContainerCapabilityAdapter);
    for defs in [linux.definitions(), windows.definitions(), macos.definitions(), container.definitions()] {
        assert!(defs.iter().any(|d| d.capability_id == "filesystem.read"));
        assert!(defs.iter().any(|d| d.capability_id == "process.start"));
    }
}

#[test]
fn registry_versions_discovery_and_provider_priority_work() {
    let mut layer = UniversalCapabilityLayer::new(CapabilityRegistry::new());
    let linux = AdapterProvider::new("linux", "linux-1", LinuxCapabilityAdapter);
    layer.register_provider("linux", "linux-1", linux.priority(), linux.definitions()).unwrap();
    let definition = layer.registry().lookup("screen.capture", Some(&CapabilityVersion::v1())).unwrap();
    assert_eq!(definition.version, CapabilityVersion::v1());
    assert_eq!(layer.registry().provider_ids_for("screen.capture"), vec!["linux"]);
    let plan = layer.plan(&request("screen.capture"), &vec![]).unwrap();
    assert_eq!(plan.candidates, vec!["linux"]);
    assert_eq!(plan.deadline_ms, 1_000);
    assert_eq!(linux.resolve("screen.capture").unwrap(), "Wayland/X11");
}

#[test]
fn lookup_picks_the_newest_compatible_version() {
    let mut reg = CapabilityRegistry::new();
    reg.register(versioned("cap", 1, 2)).unwrap();
    reg.register(versioned("cap", 1, 0)).unwrap();
    reg.register(versioned("cap", 2, 0)).unwrap();
    assert_eq!(reg.lookup("cap", None).unwrap().version, CapabilityVersion { major: 2, minor: 0 });
    assert_eq!(reg.lookup("cap", Some(&CapabilityVersion { major: 1, minor: 1 })).unwrap().version, CapabilityVersion { major: 1, minor: 2 });
    assert!(reg.lookup("cap", Some(&CapabilityVersion { major: 1, minor: 3 })).is_none());
    assert!(reg.lookup("other", None).is_none());
    let err = reg.register(versioned("cap", 1, 2)).unwrap_err();
    assert_eq!(err, "capability 'cap' v1.2 is already registered");
    assert!(reg.unregister("cap", &CapabilityVersion { major: 2, minor: 0 }));
    assert!(!reg.unregister("cap", &CapabilityVersion { major: 2, minor: 0 }));
    assert_eq!(reg.lookup("cap", None).unwrap().version, CapabilityVersion { major: 1, minor: 2 });
    let listed: Vec<_> = reg.list().iter().map(|d| d.version).collect();
    assert_eq!(listed, vec![CapabilityVersion { major: 1, minor: 0 }, CapabilityVersion { major: 1, minor: 2 }]);
}

#[test]
fn search_ignores_case_in_identity_and_description() {
    let mut reg = CapabilityRegistry::new();
    reg.register(CapabilityDefinition::basic("Screen.Capture", "grab pixels", vec![], Idempotency::ReadOnly)).unwrap();
    reg.register(CapabilityDefinition::basic("mouse.move", "Move the POINTER", vec![], Idempotency::NonIdempotent)).unwrap();
    assert_eq!(reg.search("screen").len(), 1);
    assert_eq!(reg.search("pointer")[0].capability_id, "mouse.move");
    assert!(reg.search("keyboard").is_empty());
}

#[test]
fn windows_paths_stay_under_the_root() {
    let fs = LocalFilesystemProvider::with_path_style("fs", "rt", "C:\\data", true);
    assert!(fs.windows_paths());
    assert_eq!(fs.path(Some("a\\b.txt")).unwrap(), "C:\\data\\a\\b.txt");
    assert_eq!(fs.path(Some("a/b.txt")).unwrap(), "C:\\data\\a/b.txt");
    for bad in ["..\\outside", "a\\..\\..\\x", "\\x", "/x", "C:\\x", "d:x", "\\\\server\\share"] {
        let e = fs.path(Some(bad)).unwrap_err();
        assert_eq!(e.code, CapabilityErrorCode::PermissionDenied);
        assert_eq!(e.message, "path must be a relative path within the provider root");
        assert!(!e.retryable);
    }
    let e = fs.plan("filesystem.delete", Some(".\\"), None, None).unwrap_err();
    assert_eq!(e.message, "cannot delete the provider root");
    assert!(fs.plan("filesystem.read", Some("..\\outside"), None, None).is_err());
    let drive = LocalFilesystemProvider::with_path_style("fs", "rt", "D:", true);
    assert_eq!(drive.path(Some("x")).unwrap(), "D:x");
    let unix = LocalFilesystemProvider::with_path_style("fs", "rt", "/srv", false);
    assert!(!unix.windows_paths());
    assert_eq!(unix.path(Some("..\\name")).unwrap(), "/srv/..\\name");
    let term = NativeTerminalProvider::with_path_style("t", "rt", "C:\\w", vec!["git".to_string()], true);
    let args: Vec<Option<String>> = vec![];
    assert_eq!(
        term.plan(Some("git"), Some(&args), Some("..\\up"), None, None).err().unwrap().message,
        "working_directory must stay within the configured root"
    );
    assert_eq!(term.plan(Some("git"), Some(&args), Some("repo"), None, None).unwrap().working_directory, "C:\\w\\repo");
}

#[test]
fn layer_registration_adopts_the_provider() {
    let mut layer = UniversalCapabilityLayer::new(CapabilityRegistry::new());
    let d = CapabilityDefinition::basic("x.run", "x", vec![CapabilityRuntime::Linux], Idempotency::ReadOnly);
    layer.register_provider("p", "rt", 7, vec![d]).unwrap();
    assert_eq!(layer.registry().provider_ids_for("x.run"), vec!["p"]);
    assert!(layer.registry().lookup("x.run", None).is_some());
    assert_eq!(layer.register_provider("p", "rt", 1, vec![]).unwrap_err(), "provider 'p' is already registered");
}

#[test]
fn refreshed_providers_route_by_their_current_answers() {
    let mut layer = UniversalCapabilityLayer::new(CapabilityRegistry::new());
    let d = CapabilityDefinition::basic("x.run", "x", vec![CapabilityRuntime::Linux], Idempotency::ReadOnly);
    let e = CapabilityDefinition::basic("y.run", "y", vec![CapabilityRuntime::Linux], Idempotency::ReadOnly);
    layer.register_provider("p", "rt", 7, vec![d]).unwrap();
    assert!(layer.refresh_provider("p", "rt", 3, &vec![e]));
    assert!(layer.registry().provider_ids_for("x.run").is_empty());
    assert_eq!(layer.registry().provider_ids_for("y.run"), vec!["p"]);
    assert!(layer.registry().lookup("y.run", None).is_none());
    assert!(!layer.refresh_provider("q", "rt", 1, &vec![]));
}

#[test]
fn registering_a_version_adds_just_that_version() {
    let mut reg = CapabilityRegistry::new();
    reg.register(versioned("v.cap", 1, 2)).unwrap();
    reg.register(versioned("v.cap", 1, 0)).unwrap();
    reg.register(versioned("w.cap", 2, 0)).unwrap();
    reg.register(versioned("v.cap", 1, 1)).unwrap();
    assert!(reg.register(versioned("v.cap", 1, 1)).is_err());
    assert_eq!(reg.lookup("v.cap", None).unwrap().version, CapabilityVersion { major: 1, minor: 2 });
    assert_eq!(reg.lookup("v.cap", Some(&CapabilityVersion { major: 1, minor: 1 })).unwrap().version.minor, 2);
    assert_eq!(reg.lookup("w.cap", None).unwrap().version.major, 2);
}

#[test]
fn providers_are_ordered_by_priority_and_filtered() {
    let mut reg = CapabilityRegistry::new();
    let fs = LocalFilesystemProvider::new("fs", "rt-1", "/tmp/root");
    let linux = AdapterProvider::new("linux", "rt-1", LinuxCapabilityAdapter);
    let win = AdapterProvider::new("win", "rt-2", WindowsCapabilityAdapter);
    reg.register_provider("linux", "rt-1", linux.priority(), linux.definitions()).unwrap();
    reg.register_provider("fs", "rt-1", fs.priority(), fs.definitions()).unwrap();
    reg.register_provider("win", "rt-2", win.priority(), win.definitions()).unwrap();
    assert_eq!(
        reg.register_provider("fs", "rt-1", 1, vec![]).unwrap_err(),
        "provider 'fs' is already registered"
    );
    assert_eq!(reg.provider_ids_for("filesystem.read"), vec!["fs", "linux", "win"]);
    let c = reg.provider_candidates("filesystem.read", Some("rt-1"), &vec![]);
    assert_eq!(c, vec!["fs", "linux"]);
    let c = reg.provider_candidates("filesystem.read", None, &vec!["fs".to_string()]);
    assert_eq!(c.len(), 2);
    assert!(!c.contains(&"fs".to_string()));
    assert!(reg.unregister_provider("win"));
    assert!(!reg.unregister_provider("win"));
    assert_eq!(reg.provider_ids_for("filesystem.read"), vec!["fs", "linux"]);
}

#[test]
fn unavailable_provider_normalizes_to_runtime_unavailable() {
    let mut layer = UniversalCapabilityLayer::new(CapabilityRegistry::new());
    let d = CapabilityDefinition::basic("test.failover", "test", vec![CapabilityRuntime::Linux], Idempotency::ReadOnly);
    layer.register_provider("unavailable", "test", 100, vec![d]).unwrap();
    let result = layer.plan(&request("test.failover"), &vec!["unavailable".to_string()]).unwrap_err();
    assert_eq!(result.error.unwrap().code, CapabilityErrorCode::RuntimeUnavailable);
    assert_eq!(result.runtime_id, "unresolved");
    let missing = layer.plan(&request("nothing.here"), &vec![]).unwrap_err();
    assert_eq!(missing.error.unwrap().code, CapabilityErrorCode::CapabilityUnavailable);
}

#[test]
fn plan_refusals_carry_no_provider() {
    let mut layer = UniversalCapabilityLayer::new(CapabilityRegistry::new());
    let d = CapabilityDefinition::basic("test.failover", "test", vec![CapabilityRuntime::Linux], Idempotency::ReadOnly);
    layer.register_provider("unavailable", "test", 100, vec![d]).unwrap();
    let mut req = request("test.failover");
    req.runtime_hint = Some("linux-1".into());
    let busy = layer.plan(&req, &vec!["unavailable".to_string()]).unwrap_err();
    assert_eq!(busy.status, CapabilityStatus::Failed);
    assert_eq!(busy.capability_id, "test.failover");
    assert_eq!(busy.request_id, "req-1");
    assert_eq!(busy.runtime_id, "linux-1");
    assert!(busy.provider_id.is_none());
    assert!(busy.artifacts.is_empty() && busy.side_effects.is_empty());
    assert_eq!(busy.execution_time_ms, 0);
    let e = busy.error.unwrap();
    assert!(!e.retryable);
    assert_eq!(e.message, "No healthy provider is available for this capability");
    let missing = layer.plan(&request("nothing.here"), &vec![]).unwrap_err();
    assert_eq!(missing.capability_id, "nothing.here");
    assert!(missing.provider_id.is_none());
    assert_eq!(missing.runtime_id, "unresolved");
    let e = missing.error.unwrap();
    assert!(!e.retryable);
    assert_eq!(e.message, "No compatible capability definition is registered");
}

#[test]
fn provider_outcomes_settle_the_request() {
    let req = request("x.y");
    let done = settle(
        &req,
        "p",
        "rt",
        ProviderOutcome::Succeeded(CapabilityProviderResult {
            output: serde_json::Value::Bool(true),
            artifacts: vec!["a".into()],
            side_effects: vec![],
            metadata: serde_json::Value::Null,
        }),
        100,
        130,
    )
    .unwrap();
    assert_eq!(done.status, CapabilityStatus::Completed);
    assert_eq!(done.execution_time_ms, 30);
    assert_eq!(done.provider_id.as_deref(), Some("p"));
    let retry = settle(
        &req,
        "p",
        "rt",
        ProviderOutcome::Failed(CapabilityError { code: CapabilityErrorCode::Internal, message: "x".into(), retryable: true }),
        0,
        0,
    );
    assert!(retry.is_none());
    let failed = settle(
        &req,
        "p",
        "rt",
        ProviderOutcome::Failed(CapabilityError { code: CapabilityErrorCode::Internal, message: "x".into(), retryable: false }),
        50,
        10,
    )
    .unwrap();
    assert_eq!(failed.status, CapabilityStatus::Failed);
    assert_eq!(failed.execution_time_ms, 0);
    let timed = settle(&req, "p", "rt", ProviderOutcome::TimedOut, 0, 5).unwrap();
    assert_eq!(timed.status, CapabilityStatus::Timeout);
    assert!(timed.error.unwrap().retryable);
    let last: CapabilityResult = exhausted(&req);
    assert_eq!(last.error.unwrap().code, CapabilityErrorCode::ProviderUnavailable);
}

#[test]
fn adapter_tables_and_refusals() {
    assert_eq!(LinuxCapabilityAdapter.native_operation("process.list"), Some("/proc"));
    assert_eq!(WindowsCapabilityAdapter.native_operation("process.start"), Some("CreateProcess"));
    assert_eq!(MacOSCapabilityAdapter.native_operation("screen.capture"), Some("ScreenCaptureKit"));
    assert_eq!(ContainerCapabilityAdapter.native_operation("screen.capture"), None);
    let container = AdapterProvider::new("c", "ctr", ContainerCapabilityAdapter);
    assert_eq!(container.definitions().len(), 5);
    let err = container.resolve("screen.capture").unwrap_err();
    assert_eq!(err.code, CapabilityErrorCode::Unsupported);
    assert_eq!(err.message, "container cannot provide screen.capture");
    assert!(container.resolve("terminal.execute").is_err());
    let linux = AdapterProvider::new("l", "rt", LinuxCapabilityAdapter);
    let defs = linux.definitions();
    assert_eq!(defs.len(), 10);
    let write = defs.iter().find(|d| d.capability_id == "filesystem.write").unwrap();
    assert_eq!(write.metadata.security_level, SecurityLevel::Privileged);
    assert_eq!(write.metadata.risk_level, RiskLevel::High);
    assert_eq!(write.description, "Universal filesystem.write capability");
    let list = defs.iter().find(|d| d.capability_id == "process.list").unwrap();
    assert_eq!(list.metadata.idempotency, Idempotency::ReadOnly);
}

#[test]
fn scoped_paths_stay_under_the_root() {
    let fs = LocalFilesystemProvider::new("fs", "rt", "/srv/root");
    assert_eq!(fs.path(Some("hello.txt")).unwrap(), "/srv/root/hello.txt");
    assert_eq!(fs.path(Some("a/b")).unwrap(), "/srv/root/a/b");
    assert_eq!(fs.path(Some("../outside")).unwrap_err().code, CapabilityErrorCode::PermissionDenied);
    assert_eq!(fs.path(Some("/etc/passwd")).unwrap_err().code, CapabilityErrorCode::PermissionDenied);
    assert_eq!(fs.path(None).unwrap_err().code, CapabilityErrorCode::InvalidInput);
    assert!(!escapes_root_exec("a..b/c", false));
    assert!(escapes_root_exec("a/../b", false));
    assert!(!escapes_root_exec("..\\outside", false));
    assert!(escapes_root_exec("..\\outside", true));
    assert!(escapes_root_exec("a\\..", true));
    assert!(escapes_root_exec("\\x", true));
    assert!(escapes_root_exec("C:\\x", true));
    assert!(escapes_root_exec("c:x", true));
    assert!(!escapes_root_exec("c:x", false));
    assert!(!escapes_root_exec("1:x", true));
    assert!(!escapes_root_exec("a..\\b", true));
    assert_eq!(join_path("/r/", "x"), "/r/x");
    let defs = fs.definitions();
    assert_eq!(defs.len(), 9);
    let delete = defs.iter().find(|d| d.capability_id == "filesystem.delete").unwrap();
    assert_eq!(delete.metadata.idempotency, Idempotency::Destructive);
    assert_eq!(delete.metadata.security_level, SecurityLevel::Critical);
    assert!(LocalFilesystemProvider::side_effects("filesystem.read").is_empty());
    assert_eq!(LocalFilesystemProvider::side_effects("filesystem.copy"), vec!["filesystem.copy"]);
}

#[test]
fn native_providers_describe_their_capabilities() {
    let d = definition("process.list", "List", Idempotency::ReadOnly, "windows");
    assert_eq!(d.metadata.supported_runtimes, vec![CapabilityRuntime::Windows]);
    assert_eq!(d.metadata.audit_policy, AuditPolicy::Full);
    assert_eq!(d.metadata.required_permissions, vec!["process.list"]);
    assert_eq!(NativeApplicationProvider::new("apps", "rt").definitions("linux").len(), 4);
    assert_eq!(NativeProcessProvider::new("proc", "rt").definitions("macos").len(), 3);
    assert_eq!(WindowsClipboardProvider::new("clip", "rt").definitions("windows").len(), 2);
    let term = NativeTerminalProvider::new("t", "rt", "/w", vec!["Where.EXE".to_string()]);
    assert!(term.allows("where.exe"));
    assert!(!term.allows("not-allowed"));
    assert_eq!(term.working_directory(None).unwrap(), "/w/.");
    assert!(term.working_directory(Some("../x")).is_err());
    assert_eq!(term.definitions("linux")[0].metadata.risk_level, RiskLevel::Critical);
    assert_eq!(process_id(Some(42)).unwrap(), 42);
    assert!(process_id(Some(1 << 40)).is_err());
    assert!(process_id(None).is_err());
}

#[test]
fn application_registry_remembers_once() {
    let mut reg = ApplicationRegistry::new("rt");
    let app = ApplicationRecord {
        application_id: "app:/bin/ls".into(),
        name: "ls".into(),
        display_name: "ls".into(),
        executable: "/bin/ls".into(),
        runtime_id: "rt".into(),
    };
    assert!(reg.find_known("app:/bin/ls").is_none());
    reg.remember(app.clone());
    reg.remember(app.clone());
    assert_eq!(reg.find_known("app:/bin/ls").unwrap().executable, "/bin/ls");
    reg.replace_entries(vec![]);
    assert!(reg.find_known("app:/bin/ls").is_none());
}

#[test]
fn windows_providers_and_window_handles() {
    assert_eq!(WindowsScreenCaptureProvider::new("s", "w").definitions().len(), 1);
    let window_defs = WindowsWindowProvider::new("w", "w").definitions();
    assert_eq!(window_defs.len(), 9);
    assert_eq!(window_defs[0].metadata.security_level, SecurityLevel::Low);
    assert_eq!(window_defs[2].metadata.security_level, SecurityLevel::Sensitive);
    assert_eq!(WindowsKeyboardProvider::new("k", "w").definitions().len(), 3);
    assert_eq!(WindowsMouseProvider::new("m", "w").definitions().len(), 5);
    assert_eq!(hwnd_from_window_id("hwnd:1234").unwrap(), 1234);
    assert_eq!(hwnd_from_window_id("hwnd:+7").unwrap(), 7);
    assert!(hwnd_from_window_id("hwnd:").is_err());
    assert!(hwnd_from_window_id("hwnd:12a").is_err());
    assert!(hwnd_from_window_id("window:1").is_err());
    assert!(hwnd_from_window_id("hwnd:99999999999999999999999").is_err());
}

#[test]
fn browser_capabilities_and_versions() {
    let defs = browser_definitions();
    assert_eq!(defs.len(), 11);
    assert_eq!(defs[6].capability_id, "browser.close");
    assert_eq!(defs[6].metadata.idempotency, Idempotency::Destructive);
    assert_eq!(CapabilityVersion { major: 3, minor: 14 }.to_string(), "v3.14");
    assert!(CapabilityVersion { major: 1, minor: 4 }.compatible_with(&CapabilityVersion { major: 1, minor: 2 }));
    assert!(!CapabilityVersion { major: 2, minor: 4 }.compatible_with(&CapabilityVersion { major: 1, minor: 2 }));
}
