//! The isolated Windows GUI test mode: which windows and documents a test may
//! touch. Only the test workspace is ever a permitted target.
use vstd::prelude::*;
use crate::capability::adapters::{host_join_path, host_joined_path};
use crate::text::{
    chars_eq, chars_of, contains, contains_lit, ends_with, ends_with_lit, lemma_encode_utf8_drop_ascii,
    lower, lower_char, lower_char_exec, starts_with, starts_with_lit, string_of, to_lower,
};

verus! {

/// The environment variable that turns the test mode on.
pub const GUI_TEST_ENV: &'static str = "COGNYX_GUI_TEST";

/// The environment variable that names the test document.
pub const GUI_TEST_DOCUMENT_ENV: &'static str = "COGNYX_GUI_TEST_DOCUMENT";

/// The only folder the test mode may touch.
pub const TEST_WORKSPACE: &'static str = "C:\\CognyxOSTestWorkspace";

/// The file name of the golden test document.
pub const GOLDEN_FILENAME: &'static str = "CognyxOS-Golden-Test.txt";

/// The marker a test-owned window title carries.
pub const GOLDEN_TITLE_MARKER: &'static str = "cognyxos-golden-test";

/// The test workspace folder.
pub fn test_workspace() -> (r: String)
    ensures
        r@ == TEST_WORKSPACE@,
{
    String::from_str(TEST_WORKSPACE)
}

/// Words that mark a window title as holding something secret.
pub open spec fn protected_title_words() -> Seq<Seq<char>> {
    seq![
        ".env"@,
        "credentials"@,
        "credential"@,
        "secrets"@,
        "secret"@,
        "password"@,
        "passwd"@,
        "token"@,
    ]
}

/// The lower-cased title mentions one of the protected words.
pub open spec fn protected_title(title: Seq<char>) -> bool {
    exists|i: int| 0 <= i < protected_title_words().len() && contains(lower(title), #[trigger] protected_title_words()[i])
}

/// Whether a window title suggests secrets: `.env`, credentials, secrets,
/// passwords or tokens, in any letter case.
pub fn is_protected_title(title: &str) -> (r: bool)
    ensures
        r == protected_title(title@),
{
    let t = to_lower(title);
    let words: [&str; 8] = [
        ".env",
        "credentials",
        "credential",
        "secrets",
        "secret",
        "password",
        "passwd",
        "token",
    ];
    assert(words@.map_values(|w: &str| w@) =~= protected_title_words());
    let mut i: usize = 0;
    while i < 8
        invariant
            i <= 8,
            t@ == lower(title@),
            words@.map_values(|w: &str| w@) == protected_title_words(),
            forall|k: int| 0 <= k < i ==> !contains(lower(title@), #[trigger] protected_title_words()[k]),
        decreases 8 - i,
    {
        assert(protected_title_words()[i as int] == words@[i as int]@);
        if contains_lit(&t, words[i]) {
            return true;
        }
        i += 1;
    }
    false
}

/// The title carries the golden marker and nothing protected.
pub open spec fn test_owned_title(title: Seq<char>) -> bool {
    contains(lower(title), GOLDEN_TITLE_MARKER@) && !protected_title(lower(title))
}

/// Whether a window title belongs to the golden test document.
pub fn is_test_owned_title(title: &str) -> (r: bool)
    ensures
        r == test_owned_title(title@),
{
    let t = to_lower(title);
    let lowered = string_of(&t);
    contains_lit(&t, GOLDEN_TITLE_MARKER) && !is_protected_title(lowered.as_str())
}

/// Backslash for a forward slash; every other character is kept.
pub open spec fn backslashed(c: char) -> char {
    if c == '/' {
        '\\'
    } else {
        c
    }
}

/// Forward slashes turned into backslashes, then ASCII lower-cased.
pub open spec fn unify(s: Seq<char>) -> Seq<char> {
    s.map_values(|c: char| lower_char(backslashed(c)))
}

fn unify_exec(s: &str) -> (r: Vec<char>)
    ensures
        r@ == unify(s@),
{
    let v = chars_of(s);
    let mut r: Vec<char> = Vec::new();
    let mut i: usize = 0;
    while i < v.len()
        invariant
            i <= v.len(),
            v@ == s@,
            r@ == unify(s@).subrange(0, i as int),
        decreases v.len() - i,
    {
        let c = if v[i] == '/' {
            '\\'
        } else {
            v[i]
        };
        r.push(lower_char_exec(c));
        i += 1;
    }
    r
}

/// The extended-length path prefix.
pub open spec fn verbatim_prefix() -> Seq<char> {
    seq!['\\', '\\', '?', '\\']
}

/// Trailing backslashes dropped while the text is longer than three bytes.
pub open spec fn trim_separators(s: Seq<char>) -> Seq<char>
    decreases s.len(),
{
    if s.len() > 0 && s.last() == '\\' && vstd::utf8::encode_utf8(s).len() > 3 {
        trim_separators(s.drop_last())
    } else {
        s
    }
}

/// A Windows path in canonical form for comparison: backslashes, lower case,
/// no extended-length prefix, no trailing separators (but a drive root keeps one).
pub open spec fn normalized_path(path: Seq<char>) -> Seq<char> {
    let u = unify(path);
    let v = if starts_with(u, verbatim_prefix()) {
        u.subrange(4, u.len() as int)
    } else {
        u
    };
    trim_separators(v)
}

/// The canonical comparison form of a Windows path.
pub fn normalize_windows_path(path: &str) -> (r: String)
    ensures
        r@ == normalized_path(path@),
{
    let u = unify_exec(path);
    let prefix = ['\\', '\\', '?', '\\'];
    let mut has_prefix = u.len() >= 4;
    let mut k: usize = 0;
    while has_prefix && k < 4
        invariant
            k <= 4,
            has_prefix ==> u.len() >= 4,
            prefix@ == verbatim_prefix(),
            has_prefix ==> forall|j: int| 0 <= j < k ==> u@[j] == prefix@[j],
            !has_prefix ==> !starts_with(u@, verbatim_prefix()),
        decreases 4 - k + (if has_prefix { 1int } else { 0int }),
    {
        if u[k] != prefix[k] {
            assert(u@.subrange(0, 4)[k as int] != verbatim_prefix()[k as int]);
            has_prefix = false;
        } else {
            k += 1;
        }
    }
    if has_prefix {
        assert(u@.subrange(0, 4) =~= verbatim_prefix());
    }
    let mut v: Vec<char> = Vec::new();
    let start: usize = if has_prefix {
        4
    } else {
        0
    };
    let mut i: usize = start;
    while i < u.len()
        invariant
            start <= i <= u.len(),
            v@ == u@.subrange(start as int, i as int),
        decreases u.len() - i,
    {
        v.push(u[i]);
        i += 1;
    }
    let ghost v0 = v@;
    assert(v0 == (if starts_with(u@, verbatim_prefix()) {
        u@.subrange(4, u@.len() as int)
    } else {
        u@
    }));
    let mut bytes = crate::text::utf8_len(&v);
    while v.len() > 0 && v[v.len() - 1] == '\\' && bytes > 3
        invariant
            bytes == vstd::utf8::encode_utf8(v@).len(),
            trim_separators(v@) == trim_separators(v0),
        decreases v.len(),
    {
        proof {
            lemma_encode_utf8_drop_ascii(v@);
        }
        v.pop();
        bytes = bytes - 1;
    }
    string_of(&v)
}

/// Words that mark a path as holding something secret.
pub open spec fn protected_path_words() -> Seq<Seq<char>> {
    seq![".env"@, "credential"@, "secret"@, "password"@, "token"@]
}

/// The canonical workspace path.
pub open spec fn workspace_path() -> Seq<char> {
    normalized_path(TEST_WORKSPACE@)
}

/// A path is protected unless it lies in the test workspace and names nothing
/// secret.
pub open spec fn protected_path(path: Seq<char>) -> bool {
    let n = normalized_path(path);
    (exists|i: int| 0 <= i < protected_path_words().len() && contains(n, #[trigger] protected_path_words()[i]))
        || !(n == workspace_path() || starts_with(n, workspace_path().push('\\')))
}

/// Whether a path must not be touched by the test mode: everything outside the
/// test workspace, and anything inside it that names secrets.
pub fn is_protected_path(path: &str) -> (r: bool)
    ensures
        r == protected_path(path@),
{
    let n = chars_of(normalize_windows_path(path).as_str());
    let words: [&str; 5] = [".env", "credential", "secret", "password", "token"];
    assert(words@.map_values(|w: &str| w@) =~= protected_path_words());
    let mut i: usize = 0;
    while i < 5
        invariant
            i <= 5,
            n@ == normalized_path(path@),
            words@.map_values(|w: &str| w@) == protected_path_words(),
            forall|k: int| 0 <= k < i ==> !contains(n@, #[trigger] protected_path_words()[k]),
        decreases 5 - i,
    {
        assert(protected_path_words()[i as int] == words@[i as int]@);
        if contains_lit(&n, words[i]) {
            return true;
        }
        i += 1;
    }
    let mut w = chars_of(normalize_windows_path(TEST_WORKSPACE).as_str());
    if chars_eq(&n, &w) {
        return false;
    }
    w.push('\\');
    let inside = crate::text::starts_with_exec(&n, &w);
    !inside
}

/// The name mentions Notepad, or the executable is `notepad.exe`.
pub open spec fn notepad_application(name: Seq<char>, executable: Seq<char>) -> bool {
    let e = unify(executable);
    contains(lower(name), "notepad"@) || ends_with(e, "\\notepad.exe"@) || ends_with(e, "notepad.exe"@)
}

/// Whether a discovered application is Notepad.
pub fn is_notepad_application(name: &str, executable: &str) -> (r: bool)
    ensures
        r == notepad_application(name@, executable@),
{
    let n = to_lower(name);
    let e = unify_exec(executable);
    contains_lit(&n, "notepad") || ends_with_lit(&e, "\\notepad.exe") || ends_with_lit(&e, "notepad.exe")
}

/// The lower-cased file name begins `cognyxos-` and ends `.txt`.
pub open spec fn test_document_name(file_name: Seq<char>) -> bool {
    starts_with(lower(file_name), "cognyxos-"@) && ends_with(lower(file_name), ".txt"@)
}

/// What a test document check decides, given the requested path, the path it
/// resolves to, the resolved workspace and the requested file's name: refused
/// when either path is protected, when neither lies in the workspace, or when
/// the name is not a test document's.
pub open spec fn document_verdict(
    requested: Seq<char>,
    resolved: Seq<char>,
    resolved_workspace: Seq<char>,
    file_name: Seq<char>,
) -> Result<(), Seq<char>> {
    let raw = normalized_path(requested);
    let resolved_n = normalized_path(resolved);
    if protected_path(raw) || protected_path(resolved_n) {
        Err(
            "TEST_TARGET_UNSAFE: document '"@ + requested
                + "' is protected or outside the test workspace"@,
        )
    } else if !(starts_with(resolved_n, normalized_path(resolved_workspace)) || starts_with(
        raw,
        workspace_path(),
    )) {
        Err("TEST_TARGET_UNSAFE: document '"@ + requested + "' is outside "@ + TEST_WORKSPACE@)
    } else if !test_document_name(file_name) {
        Err("TEST_TARGET_UNSAFE: filename '"@ + requested + "' is not a CognyxOS test document"@)
    } else {
        Ok(())
    }
}

/// Checks a test document once its paths are resolved: `requested` is the path
/// asked for (made absolute under the workspace), `resolved` the path it
/// resolves to on disk, `resolved_workspace` the workspace as resolved on disk,
/// and `file_name` the requested path's last component.
pub fn check_test_document(requested: &str, resolved: &str, resolved_workspace: &str, file_name: &str) -> (r: Result<(), String>)
    ensures
        match (r, document_verdict(requested@, resolved@, resolved_workspace@, file_name@)) {
            (Ok(()), Ok(())) => true,
            (Err(m), Err(e)) => m@ == e,
            _ => false,
        },
{
    let raw = normalize_windows_path(requested);
    let resolved_n = normalize_windows_path(resolved);
    if is_protected_path(raw.as_str()) || is_protected_path(resolved_n.as_str()) {
        let mut m = String::from_str("TEST_TARGET_UNSAFE: document '");
        m.append(requested);
        m.append("' is protected or outside the test workspace");
        return Err(m);
    }
    let rv = chars_of(resolved_n.as_str());
    let wv = chars_of(normalize_windows_path(resolved_workspace).as_str());
    let raw_v = chars_of(raw.as_str());
    let tw = chars_of(normalize_windows_path(TEST_WORKSPACE).as_str());
    if !(crate::text::starts_with_exec(&rv, &wv) || crate::text::starts_with_exec(&raw_v, &tw)) {
        let mut m = String::from_str("TEST_TARGET_UNSAFE: document '");
        m.append(requested);
        m.append("' is outside ");
        m.append(TEST_WORKSPACE);
        return Err(m);
    }
    let name = to_lower(file_name);
    if !(starts_with_lit(&name, "cognyxos-") && ends_with_lit(&name, ".txt")) {
        let mut m = String::from_str("TEST_TARGET_UNSAFE: filename '");
        m.append(requested);
        m.append("' is not a CognyxOS test document");
        return Err(m);
    }
    Ok(())
}


/// The value of the test-mode variable turns the mode on when it is `1`,
/// `true` or `yes`, in any ASCII letter case.
pub open spec fn gui_test_on(value: Option<Seq<char>>) -> bool {
    match value {
        Some(v) => lower(v) == "1"@ || lower(v) == "true"@ || lower(v) == "yes"@,
        None => false,
    }
}

/// Whether the test-mode variable's value turns the mode on.
pub fn gui_test_flag(value: Option<&str>) -> (r: bool)
    ensures
        r == gui_test_on(
            match value {
                Some(v) => Some(v@),
                None => None,
            },
        ),
{
    match value {
        Some(v) => {
            let l = to_lower(v);
            chars_eq(&l, &chars_of("1")) || chars_eq(&l, &chars_of("true")) || chars_eq(&l, &chars_of("yes"))
        },
        None => false,
    }
}

/// Every character of the text is white space.
pub open spec fn all_whitespace(c: Seq<char>) -> bool {
    forall|i: int| 0 <= i < c.len() ==> crate::capability::processes::is_whitespace(#[trigger] c[i])
}

/// The golden test document: the configured path where one is configured and
/// is not blank, else the golden file in the test workspace, joined as the
/// host joins paths (`windows` for Windows paths).
pub open spec fn golden_document(configured: Option<Seq<char>>, windows: bool) -> Seq<char> {
    match configured {
        Some(c) => if !all_whitespace(c) {
            c
        } else {
            host_joined_path(TEST_WORKSPACE@, GOLDEN_FILENAME@, windows)
        },
        None => host_joined_path(TEST_WORKSPACE@, GOLDEN_FILENAME@, windows),
    }
}

/// The golden test document, from the document variable's value.
pub fn golden_document_choice(configured: Option<&str>, windows: bool) -> (r: String)
    ensures
        r@ == golden_document(
            match configured {
                Some(c) => Some(c@),
                None => None,
            },
            windows,
        ),
{
    match configured {
        Some(c) => {
            let v = chars_of(c);
            let mut i: usize = 0;
            while i < v.len()
                invariant
                    i <= v.len(),
                    v@ == c@,
                    configured == Some(c),
                    forall|k: int| 0 <= k < i ==> crate::capability::processes::is_whitespace(#[trigger] v@[k]),
                decreases v.len() - i,
            {
                if !crate::capability::processes::is_whitespace_exec(v[i]) {
                    assert(!crate::capability::processes::is_whitespace(c@[i as int]));
                    return String::from_str(c);
                }
                i += 1;
            }
            host_join_path(TEST_WORKSPACE, GOLDEN_FILENAME, windows)
        },
        None => host_join_path(TEST_WORKSPACE, GOLDEN_FILENAME, windows),
    }
}

/// Where the classic Notepad lives: under `System32` of the Windows folder,
/// `C:\Windows` where none is configured; joined as the host joins paths.
pub fn isolated_notepad_path(windir: Option<&str>, windows: bool) -> (r: String)
    ensures
        r@ == host_joined_path(
            host_joined_path(
                match windir {
                    Some(w) => w@,
                    None => "C:\\Windows"@,
                },
                "System32"@,
                windows,
            ),
            "notepad.exe"@,
            windows,
        ),
{
    let base = match windir {
        Some(w) => w,
        None => "C:\\Windows",
    };
    let system = host_join_path(base, "System32", windows);
    host_join_path(system.as_str(), "notepad.exe", windows)
}

/// The document path a test asks for: an absolute path as it is, a relative
/// one under the test workspace, joined as the host joins paths.
pub fn requested_document(path: &str, absolute: bool, windows: bool) -> (r: String)
    ensures
        absolute ==> r@ == path@,
        !absolute ==> r@ == host_joined_path(TEST_WORKSPACE@, path@, windows),
{
    if absolute {
        String::from_str(path)
    } else {
        host_join_path(TEST_WORKSPACE, path, windows)
    }
}

} // verus!

