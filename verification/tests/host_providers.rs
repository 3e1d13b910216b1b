use cognyx_runtime::bus::BusClient;
use cognyx_runtime::capability::adapters::{FsOperation, LocalFilesystemProvider};
use cognyx_runtime::capability::browser::{
    escape_quotes_exec, forward_slashes_exec, BrowserInput, BrowserStep, ScriptFollow, UniversalBrowserProvider,
    PLAYWRIGHT_MISSING,
};
use cognyx_runtime::capability::discovery::{
    application_operation, launch_executable, path_match, search_not_found, window_title_hint,
    ApplicationOperation, DirItem,
};
use cognyx_runtime::capability::host_commands::{clipboard_command, clipboard_operation, ClipboardOperation};
use cognyx_runtime::capability::imaging::{bgra_to_rgba, EncodedImage};
use cognyx_runtime::capability::input_plans::{KeyCode, KeyEvent};
use cognyx_runtime::capability::model::CapabilityErrorCode;
use cognyx_runtime::capability::native::{ApplicationRecord, ApplicationRegistry, NativeTerminalProvider};
use cognyx_runtime::capability::processes::{
    find_process, listing_command, parse_process_listing, process_operation, split_lines, stop_command,
    ProcessEntry, ProcessOperation,
};
use cognyx_runtime::capability::window_search::{pick_launched_window, scan_key_strokes, titled_window_ids, WindowInfo};
use cognyx_runtime::capability::windows_providers::WindowsScreenCaptureProvider;
use ed25519_dalek::{Signature, SigningKey, Verifier};

fn input(session: Option<&str>, url: Option<&str>, selector: Option<&str>, text: Option<&str>) -> BrowserInput {
    BrowserInput {
        session_id: session.map(String::from),
        url: url.map(String::from),
        selector: selector.map(String::from),
        text: text.map(String::from),
    }
}

#[test]
fn browser_open_tracks_the_session_and_navigation_moves_it() {
    let mut p = UniversalBrowserProvider::new("browser", "host", "/tmp");
    assert_eq!(p.temp_dir(), "/tmp/cognyxos_browser_scripts");
    let step = p.prepare("browser.open", &input(None, Some("https://example.com"), None, None), "s1", 7).unwrap();
    match step {
        BrowserStep::Script { script, follow } => {
            assert!(script.contains("await p.goto('https://example.com',{waitUntil:'domcontentloaded',timeout:30000});"));
            assert!(script.contains("session_id:'s1'"));
            assert!(script.starts_with("const {chromium}=require('playwright');\n"));
            assert!(script.ends_with("process.exit(1);});"));
            match follow {
                ScriptFollow::TrackUrl { session_id } => assert_eq!(session_id, "s1"),
                _ => panic!("open must track the session"),
            }
        }
        _ => panic!("open runs a script"),
    }
    assert_eq!(p.session_url("s1"), "https://example.com");
    p.finish(&ScriptFollow::TrackUrl { session_id: "s1".into() }, Some("https://example.com/home"));
    assert_eq!(p.session_url("s1"), "https://example.com/home");
    p.finish(&ScriptFollow::TrackUrl { session_id: "other".into() }, Some("https://x"));
    assert_eq!(p.session_url("other"), "about:blank");
    match p.prepare("browser.tabs", &input(Some("s1"), None, None, None), "unused", 0).unwrap() {
        BrowserStep::Tabs { session_id, url } => {
            assert_eq!(session_id, "s1");
            assert_eq!(url, "https://example.com/home");
        }
        _ => panic!("tabs lists the session"),
    }
    assert!(matches!(p.prepare("browser.close", &input(Some("s1"), None, None, None), "u", 0).unwrap(), BrowserStep::Closed));
    assert_eq!(p.session_url("s1"), "about:blank");
}

#[test]
fn browser_open_without_url_is_blank() {
    let mut p = UniversalBrowserProvider::new("browser", "host", "/tmp/");
    p.prepare("browser.open", &input(None, None, None, None), "s2", 1).unwrap();
    assert_eq!(p.session_url("s2"), "about:blank");
    assert!(p.begin("browser.open", &input(None, Some("https://a.b"), None, None)).is_ok());
}

#[test]
fn browser_requests_refused() {
    let mut p = UniversalBrowserProvider::new("browser", "host", "/tmp");
    let e = p.prepare("browser.navigate", &input(Some("s"), None, None, None), "i", 0).err().unwrap();
    assert_eq!((e.code, e.message.as_str()), (CapabilityErrorCode::InvalidInput, "input.url required"));
    let e = p.prepare("browser.type", &input(Some("s"), None, None, Some("x")), "i", 0).err().unwrap();
    assert_eq!(e.message, "input.selector required");
    let e = p.prepare("browser.type", &input(Some("s"), None, Some("#q"), None), "i", 0).err().unwrap();
    assert_eq!(e.message, "input.text required");
    let e = p.prepare("browser.fly", &input(None, None, None, None), "i", 0).err().unwrap();
    assert_eq!((e.code, e.message.as_str()), (CapabilityErrorCode::Unsupported, "unsupported browser operation 'browser.fly'"));
    assert!(UniversalBrowserProvider::needs_playwright("browser.read"));
    assert!(!UniversalBrowserProvider::needs_playwright("browser.close"));
    assert!(!UniversalBrowserProvider::needs_playwright("browser.tabs"));
    let missing = UniversalBrowserProvider::playwright_missing();
    assert_eq!(missing.code, CapabilityErrorCode::RuntimeUnavailable);
    assert_eq!(missing.message, PLAYWRIGHT_MISSING);
    assert_eq!(UniversalBrowserProvider::side_effects("browser.read"), vec!["browser.read.executed".to_string()]);
}

#[test]
fn browser_scripts_escape_quotes() {
    assert_eq!(escape_quotes_exec("it's"), "it\\'s");
    assert_eq!(forward_slashes_exec("C:\\tmp\\a.png"), "C:/tmp/a.png");
    let mut p = UniversalBrowserProvider::new("browser", "host", "/tmp");
    match p.prepare("browser.click", &input(Some("s"), None, None, Some("Don't")), "i", 0).unwrap() {
        BrowserStep::Script { script, follow } => {
            assert!(script.contains("await page.getByText('Don\\'t').click();"));
            assert!(script.contains("const page=await b.newPage();\n  await page.goto('about:blank'"));
            assert!(matches!(follow, ScriptFollow::Clicked { .. }));
        }
        _ => panic!("click runs a script"),
    }
    match p.prepare("browser.click", &input(Some("s"), None, None, None), "i", 0).unwrap() {
        BrowserStep::Script { script, .. } => assert!(script.contains("await page.click('body');")),
        _ => panic!("click runs a script"),
    }
    match p.prepare("browser.type", &input(Some("s"), None, Some("#q"), Some("a'b")), "i", 0).unwrap() {
        BrowserStep::Script { script, follow } => {
            assert!(script.contains("await p.fill('#q','a\\'b');"));
            assert!(matches!(follow, ScriptFollow::Output));
        }
        _ => panic!("type runs a script"),
    }
    match p.prepare("browser.screenshot", &input(None, None, None, None), "abc", 0).unwrap() {
        BrowserStep::Script { script, follow } => {
            assert!(script.contains("await p.screenshot({path:'/tmp/cognyxos_browser_scripts/shot_abc.png'});"));
            match follow {
                ScriptFollow::Screenshot { path } => assert_eq!(path, "/tmp/cognyxos_browser_scripts/shot_abc.png"),
                _ => panic!("screenshot follows with the file"),
            }
        }
        _ => panic!("screenshot runs a script"),
    }
    match p.prepare("browser.back", &input(Some("s"), None, None, None), "i", 0).unwrap() {
        BrowserStep::Script { script, .. } => assert!(script.contains("await p.goBack();")),
        _ => panic!("back runs a script"),
    }
}

#[test]
fn filesystem_plans_stay_under_the_root() {
    let fs = LocalFilesystemProvider::new("fs", "host", "/srv/data");
    assert!(matches!(fs.plan("filesystem.read", Some("a.txt"), None, None).unwrap(), FsOperation::Read { path } if path == "/srv/data/a.txt"));
    assert!(matches!(fs.plan("filesystem.create", Some("b.txt"), Some("hi"), None).unwrap(), FsOperation::Write { path, content } if path == "/srv/data/b.txt" && content == "hi"));
    assert_eq!(fs.plan("filesystem.write", Some("b.txt"), None, None).unwrap_err().message, "input.content is required");
    let e = fs.plan("filesystem.delete", Some("./"), None, None).unwrap_err();
    assert_eq!((e.code, e.message.as_str()), (CapabilityErrorCode::PermissionDenied, "cannot delete the provider root"));
    assert!(matches!(fs.plan("filesystem.delete", Some("old.txt"), None, None).unwrap(), FsOperation::Delete { .. }));
    assert!(matches!(fs.plan("filesystem.move", Some("a"), None, Some("b/c")).unwrap(), FsOperation::Move { from, to, target } if from == "/srv/data/a" && to == "/srv/data/b/c" && target == "b/c"));
    assert_eq!(fs.plan("filesystem.copy", Some("a"), None, None).unwrap_err().message, "input.target is required");
    assert_eq!(fs.plan("filesystem.copy", Some("a"), None, Some("../x")).unwrap_err().code, CapabilityErrorCode::PermissionDenied);
    assert_eq!(fs.plan("filesystem.read", Some("/etc/passwd"), None, None).unwrap_err().code, CapabilityErrorCode::PermissionDenied);
    assert_eq!(fs.plan("filesystem.read", None, None, None).unwrap_err().message, "input.path is required");
    assert!(matches!(fs.plan("filesystem.permissions", Some("d"), None, None).unwrap(), FsOperation::Metadata { .. }));
    assert!(matches!(fs.plan("filesystem.list", Some("."), None, None).unwrap(), FsOperation::List { .. }));
    assert_eq!(fs.plan("filesystem.zip", Some("d"), None, None).unwrap_err().message, "unsupported filesystem operation 'filesystem.zip'");
}

#[test]
fn captured_pixels_become_opaque_rgba() {
    let mut px = vec![1, 2, 3, 4, 5, 6, 7, 8, 9];
    bgra_to_rgba(&mut px);
    assert_eq!(px, vec![3, 2, 1, 255, 7, 6, 5, 255, 9]);
    let image = EncodedImage::png(b"hello");
    assert_eq!(image.image_b64, "aGVsbG8=");
    assert_eq!(image.format, "png");
    assert!(WindowsScreenCaptureProvider::check_capability("screen.capture").is_ok());
    assert_eq!(WindowsScreenCaptureProvider::check_capability("screen.record").unwrap_err().code, CapabilityErrorCode::Unsupported);
    let shot = WindowsScreenCaptureProvider::capture_output(b"ab", 1920, 1080);
    assert_eq!(shot.image.image_b64, "YWI=");
    assert_eq!((shot.width, shot.height), (1920, 1080));
    assert_eq!(shot.artifact_id.len(), 36);
}

#[test]
fn process_listings_are_read() {
    let lines = split_lines("a\r\nb\n\nc\r");
    let texts: Vec<String> = lines.iter().map(|l| l.iter().collect()).collect();
    assert_eq!(texts, vec!["a", "b", "", "c\r"]);
    let csv = "\"notepad.exe\",\"1234\",\"Console\",\"1\",\"10,000 K\"\r\n\"bad\",\"x\"\r\n\"System\",\"4\",\"Services\",\"0\",\"144 K\"\r\n";
    let ps = parse_process_listing(csv, true);
    assert_eq!(
        ps,
        vec![
            ProcessEntry { process_id: 1234, name: "notepad.exe".into() },
            ProcessEntry { process_id: 4, name: "System".into() },
        ]
    );
    let unix = "    1 /sbin/init splash\n  200   kworker/0:1  \nPID COMMAND\n";
    let ps = parse_process_listing(unix, false);
    assert_eq!(
        ps,
        vec![
            ProcessEntry { process_id: 1, name: "/sbin/init splash".into() },
            ProcessEntry { process_id: 200, name: "kworker/0:1".into() },
        ]
    );
    assert_eq!(find_process(&ps, 200).unwrap().name, "kworker/0:1");
    assert!(find_process(&ps, 3).is_none());
    let many: String = (0..1500).map(|i| format!("{} p{}\n", i, i)).collect();
    assert_eq!(parse_process_listing(&many, false).len(), 1000);
}

#[test]
fn process_commands_and_operations() {
    let c = listing_command("windows");
    assert_eq!((c.program.as_str(), c.arguments.clone()), ("tasklist", vec!["/FO".to_string(), "CSV".into(), "/NH".into()]));
    assert_eq!(listing_command("macos").arguments, vec!["-axo".to_string(), "pid=,comm=".into()]);
    assert_eq!(listing_command("linux").arguments, vec!["-eo".to_string(), "pid=,comm=".into()]);
    let s = stop_command("windows", 42);
    assert_eq!((s.program.as_str(), s.arguments.clone()), ("taskkill", vec!["/PID".to_string(), "42".into(), "/T".into()]));
    let s = stop_command("linux", 42);
    assert_eq!((s.program.as_str(), s.arguments.clone()), ("kill", vec!["-TERM".to_string(), "42".into()]));
    assert_eq!(process_operation("process.list", None).unwrap(), ProcessOperation::List);
    assert_eq!(process_operation("process.stop", Some(7)).unwrap(), ProcessOperation::Stop(7));
    assert_eq!(process_operation("process.inspect", None).unwrap_err().message, "input.process_id must be a positive integer");
    assert_eq!(process_operation("process.inspect", Some(1 << 40)).unwrap_err().code, CapabilityErrorCode::InvalidInput);
    assert_eq!(process_operation("process.kill", Some(1)).unwrap_err().message, "unsupported process operation");
}

fn item(path: &str, name: &str, is_file: bool) -> DirItem {
    DirItem { path: path.into(), file_name: name.into(), is_file }
}

#[test]
fn discovery_finds_executables_once() {
    let mut reg = ApplicationRegistry::new("host");
    let dirs = vec![
        vec![item("/usr/bin/ls", "ls", true), item("/usr/bin/share", "share", false), item("/usr/bin/.hidden", ".hidden", true)],
        vec![item("/usr/bin/ls", "ls", true), item("/opt/tool.sh", "tool.sh", true)],
    ];
    let found = reg.discover(&dirs, false);
    let names: Vec<&str> = found.iter().map(|a| a.name.as_str()).collect();
    assert_eq!(names, vec!["ls", ".hidden", "tool"]);
    assert_eq!(found[0].application_id, "app:/usr/bin/ls");
    assert_eq!(found[2].executable, "/opt/tool.sh");
    assert_eq!(reg.find_known("app:/opt/tool.sh").unwrap().name, "tool");
    let win = vec![vec![item("C:\\W\\notepad.EXE", "notepad.EXE", true), item("C:\\W\\readme.txt", "readme.txt", true)]];
    let found = reg.discover(&win, true);
    assert_eq!(found.len(), 1);
    assert_eq!(found[0].name, "notepad");
    assert!(reg.find_known("app:/opt/tool.sh").is_none());
    let big: Vec<DirItem> = (0..300).map(|i| item(&format!("/b/x{}", i), &format!("x{}", i), true)).collect();
    assert_eq!(reg.discover(&vec![big], false).len(), 256);
}

#[test]
fn application_search_and_launch_decisions() {
    let hit = path_match("/usr/bin/gedit", "GEdit", "host");
    assert_eq!((hit.application_id.as_str(), hit.name.as_str(), hit.display_name.as_str()), ("app:/usr/bin/gedit", "gedit", "gedit"));
    let e = search_not_found("Paint");
    assert_eq!((e.code, e.message.as_str()), (CapabilityErrorCode::ApplicationNotFound, "no dynamically discovered application matches 'paint'"));
    let app = ApplicationRecord {
        application_id: "app:C:\\Windows\\notepad.exe".into(),
        name: "notepad".into(),
        display_name: "".into(),
        executable: "C:\\Windows\\notepad.exe".into(),
        runtime_id: "host".into(),
    };
    assert_eq!(window_title_hint(false, &app), "notepad");
    assert_eq!(window_title_hint(true, &app), "cognyxos-golden-test");
    assert_eq!(launch_executable(true, &app, Some("C:\\Isolated\\notepad.exe")), "C:\\Isolated\\notepad.exe");
    assert_eq!(launch_executable(false, &app, Some("C:\\Isolated\\notepad.exe")), "C:\\Windows\\notepad.exe");
    assert_eq!(launch_executable(true, &app, None), "C:\\Windows\\notepad.exe");
    assert_eq!(application_operation("application.list", None, None).unwrap(), ApplicationOperation::List);
    assert_eq!(
        application_operation("application.open", None, Some("app:x")).unwrap(),
        ApplicationOperation::Open { application_id: "app:x".into() }
    );
    assert_eq!(application_operation("application.search", None, None).unwrap_err().message, "input.query is required");
    assert_eq!(application_operation("application.inspect", None, None).unwrap_err().message, "input.application_id is required");
    assert!(!application_operation("application.search", None, None).unwrap_err().retryable);
    assert!(!application_operation("application.remove", None, None).unwrap_err().retryable);
    assert_eq!(application_operation("application.close", None, None).unwrap_err().code, CapabilityErrorCode::Unsupported);
}

#[test]
fn terminal_plans_only_allowlisted_programs() {
    let t = NativeTerminalProvider::new("term", "host", "/work", vec!["Git".to_string()]);
    let args = vec![Some("status".to_string())];
    let env = vec![("PATH".to_string(), Some("/bin".to_string())), ("N".to_string(), None)];
    let c = t.plan(Some("git"), Some(&args), Some("repo"), Some(&env), None).unwrap();
    assert_eq!(c.executable, "git");
    assert_eq!(c.arguments, vec!["status".to_string()]);
    assert_eq!(c.working_directory, "/work/repo");
    assert_eq!(c.timeout_ms, 30_000);
    assert_eq!(c.environment, Some(vec![("PATH".to_string(), "/bin".to_string())]));
    let c = t.plan(Some("GIT"), Some(&Vec::new()), None, None, Some(5)).unwrap();
    assert_eq!((c.working_directory.as_str(), c.timeout_ms, c.environment.is_none()), ("/work/.", 5, true));
    assert_eq!(t.plan(None, Some(&args), None, None, None).err().unwrap().message, "input.executable is required");
    assert_eq!(t.plan(Some("rm"), Some(&args), None, None, None).err().unwrap().code, CapabilityErrorCode::PermissionDenied);
    assert_eq!(t.plan(Some("git"), None, None, None, None).err().unwrap().message, "input.args must be an array");
    assert_eq!(t.plan(Some("git"), Some(&vec![None]), None, None, None).err().unwrap().message, "args must be strings");
    assert_eq!(
        t.plan(Some("git"), Some(&args), Some("../up"), None, None).err().unwrap().message,
        "working_directory must stay within the configured root"
    );
}

#[test]
fn clipboard_writes_through_base64() {
    match clipboard_operation("clipboard.write", Some("hi")).unwrap() {
        ClipboardOperation::Write { script } => {
            assert_eq!(script, "[Text.Encoding]::UTF8.GetString([Convert]::FromBase64String('aGk=')) | Set-Clipboard");
            let cmd = clipboard_command(&ClipboardOperation::Write { script: script.clone() });
            assert_eq!(cmd.program, "powershell.exe");
            assert_eq!(cmd.arguments[3], script);
        }
        _ => panic!("write sets the clipboard"),
    }
    let read = clipboard_operation("clipboard.read", None).unwrap();
    assert_eq!(clipboard_command(&read).arguments, vec!["-NoProfile", "-NonInteractive", "-Command", "Get-Clipboard -Raw"]);
    assert_eq!(clipboard_operation("clipboard.write", None).unwrap_err().message, "input.text is required");
    assert_eq!(clipboard_operation("clipboard.clear", None).unwrap_err().message, "unsupported clipboard operation");
}

fn window(handle: usize, pid: u32, class: &str, title: &str) -> WindowInfo {
    WindowInfo { handle, visible: true, process_id: pid, class_name: class.into(), title: title.into() }
}

#[test]
fn launched_window_is_picked() {
    let ws = vec![
        window(1, 10, "Notepad", "secrets.txt - Notepad"),
        window(2, 11, "Popup", "CognyxOS-Golden-Test.txt - Notepad"),
        window(3, 10, "Notepad", "CognyxOS-Golden-Test.txt - Notepad"),
        window(4, 99, "Notepad", "CognyxOS-Golden-Test.txt - Notepad"),
    ];
    assert_eq!(
        pick_launched_window(&ws, 10, "CognyxOS-Golden-Test", &vec![], true, true),
        Some(("hwnd:3".to_string(), "CognyxOS-Golden-Test.txt - Notepad".to_string()))
    );
    assert_eq!(pick_launched_window(&ws, 10, "cognyxos-golden-test", &vec![3], true, true), None);
    assert_eq!(
        pick_launched_window(&ws, 77, "cognyxos-golden-test", &vec![3], false, false).unwrap().0,
        "hwnd:4"
    );
    assert_eq!(titled_window_ids(&ws, "GOLDEN"), vec![2, 3, 4]);
    assert_eq!(titled_window_ids(&ws, ""), vec![1, 2, 3, 4]);
}

#[test]
fn layout_keys_type_characters() {
    let vk = |c: u16| KeyCode::Virtual(c);
    assert!(scan_key_strokes(-1).is_empty());
    assert_eq!(scan_key_strokes(0x41), vec![KeyEvent { key: vk(0x41), up: false }, KeyEvent { key: vk(0x41), up: true }]);
    assert_eq!(
        scan_key_strokes(0x141),
        vec![
            KeyEvent { key: vk(0x10), up: false },
            KeyEvent { key: vk(0x41), up: false },
            KeyEvent { key: vk(0x41), up: true },
            KeyEvent { key: vk(0x10), up: true },
        ]
    );
}

#[test]
fn bus_challenge_signature_verifies() {
    let client = BusClient::new("module-a", "/run/cognyx/bus.sock");
    assert_eq!(client.identity_id, "module-a");
    let sig = client.sign_challenge(b"challenge-42");
    assert_eq!(sig.len(), 64);
    assert_eq!(sig, client.sign_challenge(b"challenge-42"));
    let key = SigningKey::from_bytes(&client.signing_key);
    let signature = Signature::from_slice(&sig).unwrap();
    assert!(key.verifying_key().verify(b"challenge-42", &signature).is_ok());
    assert!(key.verifying_key().verify(b"challenge-43", &signature).is_err());
}

#[test]
fn terminal_rejects_unallowlisted_executables() {
    let terminal = NativeTerminalProvider::new("terminal", "native-test", ".", Vec::<String>::new());
    let refused = terminal.plan(Some("not-allowed"), Some(&Vec::new()), None, None, Some(10_000)).err().unwrap();
    assert_eq!(refused.code, CapabilityErrorCode::PermissionDenied);
}

#[test]
fn find_discovers_what_is_not_known() {
    let mut reg = ApplicationRegistry::new("host");
    let dirs = vec![vec![item("/usr/bin/ls", "ls", true), item("/opt/tool.sh", "tool.sh", true)]];
    let tool = reg.find("app:/opt/tool.sh", &dirs, false).unwrap();
    assert_eq!(tool.name, "tool");
    assert_eq!(tool.runtime_id, "host");
    assert!(reg.find_known("app:/usr/bin/ls").is_some());
    let nothing: Vec<Vec<DirItem>> = vec![];
    assert_eq!(reg.find("app:/usr/bin/ls", &nothing, false).unwrap().executable, "/usr/bin/ls");
    assert!(reg.find_known("app:/usr/bin/ls").is_some());
    assert!(reg.find("app:/missing", &nothing, false).is_none());
    assert!(reg.find_known("app:/usr/bin/ls").is_none());
}
