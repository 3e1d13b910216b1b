use cognyx_runtime::capability::gui_test::{
    golden_document_choice, gui_test_flag, isolated_notepad_path, requested_document,
};
use cognyx_runtime::capability::gui_test::{
    check_test_document, is_notepad_application, is_protected_path, is_protected_title, is_test_owned_title,
    normalize_windows_path, test_workspace,
};

#[test]
fn env_and_token_titles_are_protected() {
    assert!(is_protected_title("*.env - Notepad"));
    assert!(is_protected_title("secrets.txt - Notepad"));
    assert!(is_protected_title("api token notes"));
    assert!(!is_protected_title("CognyxOS-Golden-Test.txt - Notepad"));
}

#[test]
fn only_test_workspace_paths_are_allowed() {
    assert!(is_protected_path(r"C:\Users\someone\Documents\notes.txt"));
    assert!(is_protected_path(r"C:\Users\someone\Desktop\file.txt"));
    assert!(is_protected_path(r"C:\CognyxOSTestWorkspace\.env"));
    assert!(!is_protected_path(r"C:\CognyxOSTestWorkspace\CognyxOS-Golden-Test.txt"));
    assert!(!is_protected_path(r"\\?\C:\CognyxOSTestWorkspace\CognyxOS-Golden-Test.txt"));
}

#[test]
fn golden_title_is_the_only_owned_marker() {
    assert!(is_test_owned_title("*CognyxOS-Golden-Test.txt - Notepad"));
    assert!(!is_test_owned_title("Untitled - Notepad"));
    assert!(!is_test_owned_title("*.env - Notepad"));
}

#[test]
fn notepad_identity_matches_discovered_names() {
    assert!(is_notepad_application("Notepad", r"C:\Windows\System32\notepad.exe"));
    assert!(!is_notepad_application("Calculator", r"C:\Windows\System32\calc.exe"));
}

#[test]
fn normalization_lowercases_unifies_separators_and_trims() {
    assert_eq!(normalize_windows_path("C:/Foo/Bar/"), r"c:\foo\bar");
    assert_eq!(normalize_windows_path(r"\\?\C:\Work\"), r"c:\work");
    assert_eq!(normalize_windows_path(r"C:\"), r"c:\");
    assert_eq!(normalize_windows_path(r"C:\\\"), r"c:\");
    assert_eq!(test_workspace(), r"C:\CognyxOSTestWorkspace");
}

#[test]
fn workspace_itself_is_not_protected_but_siblings_are() {
    assert!(!is_protected_path(r"C:\CognyxOSTestWorkspace"));
    assert!(!is_protected_path("c:/cognyxostestworkspace/"));
    assert!(is_protected_path(r"C:\CognyxOSTestWorkspaceEvil\file.txt"));
    assert!(is_protected_path(r"C:\CognyxOSTestWorkspace\my-token.txt"));
}

#[test]
fn notepad_is_recognized_by_executable_alone() {
    assert!(is_notepad_application("Editor", "C:/Windows/notepad.exe"));
    assert!(is_notepad_application("NOTEPAD++", "C:/Apps/npp.exe"));
}

#[test]
fn validate_rejects_personal_and_wrong_names() {
    let ws = r"C:\CognyxOSTestWorkspace";
    assert!(check_test_document(r"C:\Windows\notepad.exe", r"C:\Windows\notepad.exe", ws, "notepad.exe").is_err());
    assert!(check_test_document(
        r"C:\CognyxOSTestWorkspace\notes.txt",
        r"C:\CognyxOSTestWorkspace\notes.txt",
        ws,
        "notes.txt"
    )
    .is_err());
    assert!(check_test_document(
        r"C:\CognyxOSTestWorkspace\CognyxOS-Golden-Test.txt",
        r"C:\CognyxOSTestWorkspace\CognyxOS-Golden-Test.txt",
        ws,
        "CognyxOS-Golden-Test.txt"
    )
    .is_ok());
}

#[test]
fn refused_documents_say_why() {
    let ws = r"C:\CognyxOSTestWorkspace";
    let err = check_test_document(r"C:\Windows\notepad.exe", r"C:\Windows\notepad.exe", ws, "notepad.exe")
        .unwrap_err();
    assert_eq!(
        err,
        r"TEST_TARGET_UNSAFE: document 'C:\Windows\notepad.exe' is protected or outside the test workspace"
    );
    let err = check_test_document(
        r"C:\CognyxOSTestWorkspace\notes.txt",
        r"C:\CognyxOSTestWorkspace\notes.txt",
        ws,
        "notes.txt",
    )
    .unwrap_err();
    assert_eq!(
        err,
        r"TEST_TARGET_UNSAFE: filename 'C:\CognyxOSTestWorkspace\notes.txt' is not a CognyxOS test document"
    );
}

#[test]
fn gui_test_mode_settings() {
    assert!(gui_test_flag(Some("1")));
    assert!(gui_test_flag(Some("TRUE")));
    assert!(gui_test_flag(Some("Yes")));
    assert!(!gui_test_flag(Some("on")));
    assert!(!gui_test_flag(None));
    assert_eq!(golden_document_choice(None, true), "C:\\CognyxOSTestWorkspace\\CognyxOS-Golden-Test.txt");
    assert_eq!(golden_document_choice(Some("  "), true), "C:\\CognyxOSTestWorkspace\\CognyxOS-Golden-Test.txt");
    assert_eq!(golden_document_choice(Some("D:\\x.txt"), true), "D:\\x.txt");
    assert_eq!(isolated_notepad_path(None, true), "C:\\Windows\\System32\\notepad.exe");
    assert_eq!(isolated_notepad_path(Some("D:\\Win\\"), true), "D:\\Win\\System32\\notepad.exe");
    assert_eq!(requested_document("cognyxos-a.txt", false, true), "C:\\CognyxOSTestWorkspace\\cognyxos-a.txt");
    assert_eq!(requested_document("C:\\other.txt", true, true), "C:\\other.txt");
    assert_eq!(requested_document("cognyxos-a.txt", false, false), "C:\\CognyxOSTestWorkspace/cognyxos-a.txt");
    assert_eq!(golden_document_choice(None, false), "C:\\CognyxOSTestWorkspace/CognyxOS-Golden-Test.txt");
    assert_eq!(isolated_notepad_path(Some("C:"), true), "C:System32\\notepad.exe");
}
