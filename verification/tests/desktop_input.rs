use cognyx_runtime::capability::input_plans::{
    focus_verdict, hotkey, mouse_command, press_key, typing_events, typing_plan, window_command, KeyCode, KeyEvent,
    MouseAction, MouseCommand, TypingMethod, WindowCommand,
};
use cognyx_runtime::capability::document_text::document_text;
use cognyx_runtime::capability::model::CapabilityErrorCode;
use cognyx_runtime::capability::windows_providers::{WindowsKeyboardProvider, WindowsMouseProvider};
use cognyx_runtime::capability::native::{
    check_launched_window, search_executable_name, search_matches, test_mode_arguments, ApplicationRecord,
};

fn down(k: KeyCode) -> KeyEvent {
    KeyEvent { key: k, up: false }
}

fn up(k: KeyCode) -> KeyEvent {
    KeyEvent { key: k, up: true }
}

#[test]
fn press_enter_goes_down_then_up() {
    let events = press_key(Some("Enter")).unwrap();
    assert_eq!(events, vec![down(KeyCode::Virtual(0x0D)), up(KeyCode::Virtual(0x0D))]);
}

#[test]
fn press_function_keys() {
    let events = press_key(Some("F5")).unwrap();
    assert_eq!(events[0], down(KeyCode::Virtual(0x74)));
    let events = press_key(Some("f24")).unwrap();
    assert_eq!(events[1], up(KeyCode::Virtual(0x87)));
    let err = press_key(Some("f25")).unwrap_err();
    assert_eq!(err.code, CapabilityErrorCode::InvalidInput);
    assert_eq!(err.message, "Invalid key");
    assert!(press_key(Some("f0")).is_err());
}

#[test]
fn press_single_character_and_errors() {
    let events = press_key(Some("A")).unwrap();
    assert_eq!(events, vec![down(KeyCode::Char('a')), up(KeyCode::Char('a'))]);
    assert_eq!(press_key(None).unwrap_err().message, "Missing key");
    assert_eq!(press_key(Some("banana")).unwrap_err().message, "Invalid key");
    assert_eq!(press_key(Some("PageDown")).unwrap()[0], down(KeyCode::Virtual(0x22)));
}

#[test]
fn hotkey_presses_in_order_and_releases_in_reverse() {
    let keys = vec![Some("Ctrl".to_string()), Some("Shift".to_string()), Some("s".to_string())];
    let events = hotkey(Some(&keys)).unwrap();
    assert_eq!(
        events,
        vec![
            down(KeyCode::Virtual(0x11)),
            down(KeyCode::Virtual(0x10)),
            down(KeyCode::Char('s')),
            up(KeyCode::Char('s')),
            up(KeyCode::Virtual(0x10)),
            up(KeyCode::Virtual(0x11)),
        ]
    );
}

#[test]
fn hotkey_errors() {
    assert_eq!(hotkey(None).unwrap_err().message, "Missing keys");
    let keys = vec![Some("ctrl".to_string()), None];
    assert_eq!(hotkey(Some(&keys)).unwrap_err().message, "Invalid key element");
    let keys = vec![Some("ctrl".to_string()), Some("enter".to_string())];
    let e = hotkey(Some(&keys)).unwrap_err();
    assert_eq!(e.code, CapabilityErrorCode::InvalidInput);
    assert_eq!(e.message, "Invalid key");
    assert_eq!(hotkey(Some(&Vec::new())).unwrap(), Vec::new());
}

#[test]
fn typing_uses_utf16_units() {
    assert_eq!(typing_events("hi"), vec![(0x68, false), (0x68, true), (0x69, false), (0x69, true)]);
    assert_eq!(
        typing_events("😀"),
        vec![(0xD83D, false), (0xD83D, true), (0xDE00, false), (0xDE00, true)]
    );
    assert!(typing_events("").is_empty());
}

#[test]
fn mouse_commands() {
    match mouse_command("mouse.double_click", Some(10), Some(20), None).unwrap() {
        MouseCommand::Pointer { x, y, actions } => {
            assert_eq!((x, y), (10, 20));
            assert_eq!(
                actions,
                vec![
                    MouseAction::Move,
                    MouseAction::LeftDown,
                    MouseAction::LeftUp,
                    MouseAction::LeftDown,
                    MouseAction::LeftUp,
                ]
            );
        }
        other => panic!("unexpected {:?}", other),
    }
    match mouse_command("mouse.right_click", Some(1), Some(2), None).unwrap() {
        MouseCommand::Pointer { actions, .. } => {
            assert_eq!(actions, vec![MouseAction::Move, MouseAction::RightDown, MouseAction::RightUp]);
        }
        other => panic!("unexpected {:?}", other),
    }
    assert_eq!(mouse_command("mouse.scroll", None, None, Some(-2)).unwrap(), MouseCommand::Wheel { data: (-240i32) as u32 });
    assert_eq!(mouse_command("mouse.scroll", None, None, Some(3)).unwrap(), MouseCommand::Wheel { data: 360 });
    assert_eq!(mouse_command("mouse.move", None, Some(1), None).unwrap_err().message, "Missing x");
    assert_eq!(mouse_command("mouse.click", Some(1), None, None).unwrap_err().message, "Missing y");
    assert_eq!(mouse_command("mouse.scroll", None, None, None).unwrap_err().message, "Missing delta");
    let e = mouse_command("mouse.drag", None, None, None).unwrap_err();
    assert_eq!(e.code, CapabilityErrorCode::Unsupported);
}

#[test]
fn window_commands() {
    assert_eq!(window_command("window.list", None, None, None, None, None).unwrap(), WindowCommand::List);
    assert_eq!(
        window_command("window.move", Some("hwnd:42"), Some(5), Some(6), None, None).unwrap(),
        WindowCommand::Move { handle: 42, x: 5, y: 6 }
    );
    assert_eq!(
        window_command("window.activate", Some("hwnd:7"), None, None, None, None).unwrap(),
        WindowCommand::Focus { handle: 7 }
    );
    assert_eq!(
        window_command("window.resize", Some("hwnd:7"), None, None, Some(800), Some(600)).unwrap(),
        WindowCommand::Resize { handle: 7, width: 800, height: 600 }
    );
    assert_eq!(
        window_command("window.close", None, None, None, None, None).unwrap_err().message,
        "Missing window_id"
    );
    assert_eq!(
        window_command("window.close", Some("42"), None, None, None, None).unwrap_err().message,
        "Invalid window_id format"
    );
    assert_eq!(
        window_command("window.resize", Some("hwnd:1"), None, None, Some(1), None).unwrap_err().message,
        "Missing height"
    );
    assert_eq!(
        window_command("window.shake", Some("hwnd:1"), None, None, None, None).unwrap_err().code,
        CapabilityErrorCode::Unsupported
    );
}

fn app(id: &str, name: &str, display: &str) -> ApplicationRecord {
    ApplicationRecord {
        application_id: id.into(),
        name: name.into(),
        display_name: display.into(),
        executable: format!("C:\\Apps\\{}.exe", name),
        runtime_id: "windows-host".into(),
    }
}

#[test]
fn search_keeps_matching_applications_in_order() {
    let apps = vec![app("1", "notepad", "Notepad"), app("2", "calc", "Calculator"), app("3", "wordpad", "WordPad")];
    let found = search_matches(&apps, "PAD");
    let ids: Vec<&str> = found.iter().map(|a| a.application_id.as_str()).collect();
    assert_eq!(ids, vec!["1", "3"]);
    assert!(search_matches(&apps, "paint").is_empty());
    assert_eq!(search_matches(&apps, "calcul")[0].application_id, "2");
}

#[test]
fn search_executable_names() {
    assert_eq!(search_executable_name("Notepad", "windows"), "notepad.exe");
    assert_eq!(search_executable_name("Gedit", "linux"), "gedit");
}

#[test]
fn test_mode_arguments_add_the_document_once() {
    let doc = "C:\\CognyxOSTestWorkspace\\CognyxOS-Golden-Test.txt";
    let args = test_mode_arguments(Vec::new(), doc).unwrap();
    assert_eq!(args, vec![doc.to_string()]);
    let args = test_mode_arguments(vec![doc.to_uppercase()], doc).unwrap();
    assert_eq!(args, vec![doc.to_uppercase()]);
    let e = test_mode_arguments(vec!["C:\\Windows\\win.ini".to_string()], doc).unwrap_err();
    assert_eq!(e.message, "TEST_TARGET_UNSAFE: spawn arguments include a protected path");
}

#[test]
fn launched_window_checks() {
    let good = Some(("hwnd:1".to_string(), "CognyxOS-Golden-Test.txt - Notepad".to_string()));
    assert!(check_launched_window(&good, true).is_ok());
    let secret = Some(("hwnd:2".to_string(), "passwords.txt - Notepad".to_string()));
    assert_eq!(
        check_launched_window(&secret, false).unwrap_err().message,
        "TEST_TARGET_UNSAFE: window hwnd:2 title 'passwords.txt - Notepad' is protected"
    );
    let other = Some(("hwnd:3".to_string(), "Untitled - Notepad".to_string()));
    assert!(check_launched_window(&other, false).is_ok());
    assert_eq!(
        check_launched_window(&other, true).unwrap_err().message,
        "TEST_TARGET_UNSAFE: window hwnd:3 title 'Untitled - Notepad' is not the golden test document"
    );
    assert!(check_launched_window(&None, true).is_err());
    assert!(check_launched_window(&None, false).is_ok());
}

#[test]
fn typing_plans_follow_the_mode() {
    let plan = typing_plan(Some("hi"), None, false).unwrap();
    assert_eq!(plan.focus, None);
    assert_eq!(plan.method, TypingMethod::Unicode(typing_events("hi")));
    let plan = typing_plan(Some("hi"), Some("hwnd:9"), true).unwrap();
    assert_eq!((plan.focus, plan.method), (Some(9), TypingMethod::Document { handle: 9 }));
    let plan = typing_plan(Some("hi"), Some(""), true).unwrap();
    assert_eq!((plan.focus, plan.method), (None, TypingMethod::LayoutKeys));
    assert_eq!(typing_plan(None, None, false).unwrap_err().message, "Missing text");
    assert_eq!(typing_plan(Some("x"), Some("9"), false).unwrap_err().message, "Invalid window_id format");
    assert!(focus_verdict(false, false).is_ok());
    assert!(focus_verdict(true, true).is_ok());
    assert_eq!(
        focus_verdict(false, true).unwrap_err().message,
        "TEST_TARGET_UNSAFE: focus could not be verified before keyboard input"
    );
}

#[test]
fn input_refusals_are_not_retried() {
    assert!(!press_key(Some("banana")).unwrap_err().retryable);
    assert!(!hotkey(None).unwrap_err().retryable);
    assert!(!mouse_command("mouse.drag", None, None, None).unwrap_err().retryable);
    assert!(!mouse_command("mouse.move", None, Some(1), None).unwrap_err().retryable);
    let e = window_command("window.close", Some("42"), None, None, None, None).unwrap_err();
    assert_eq!(e.code, CapabilityErrorCode::InvalidInput);
    assert!(!e.retryable);
    let e = window_command("window.shake", Some("hwnd:1"), None, None, None, None).unwrap_err();
    assert_eq!(e.code, CapabilityErrorCode::Unsupported);
    assert_eq!(e.message, "Unsupported capability");
    assert!(!e.retryable);
}

#[test]
fn input_providers_report_success() {
    let mouse = WindowsMouseProvider::new("mouse", "win-1");
    let command = mouse_command("mouse.click", Some(3), Some(4), None).unwrap();
    let report = mouse.report(&command);
    assert!(report.success);
    assert_eq!(report.side_effects, vec!["mouse.coordinate_input".to_string()]);
    let keyboard = WindowsKeyboardProvider::new("keyboard", "win-1");
    let report = keyboard.report(&press_key(Some("Enter")).unwrap());
    assert!(report.success);
    assert!(report.side_effects.is_empty());
}

fn texts(items: &[&str]) -> Vec<String> {
    items.iter().map(|t| t.to_string()).collect()
}

#[test]
fn document_text_keeps_the_longest_content() {
    let found = texts(&["notes", "  hello world  ", "Ln 1, Col 12", "UTF-8", "Windows (CRLF)", "hi", "hello world"]);
    assert_eq!(document_text("*notes - Notepad", &found, false), "hello world");
    assert_eq!(document_text("*notes - Notepad", &found, true), "hello world\nhi");
    assert_eq!(document_text("notes - Notepad", &texts(&["NOTES - NOTEPAD", "plain text", "100 characters"]), true), "");
    assert_eq!(document_text("", &texts(&[]), false), "");
    assert_eq!(document_text("t", &texts(&["ab", "cd", "abc"]), false), "abc");
    assert_eq!(document_text("t", &texts(&["ab", "cd"]), false), "ab");
}
