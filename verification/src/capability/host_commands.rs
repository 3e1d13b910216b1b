//! The commands the terminal and clipboard providers run: an allowlisted
//! executable with its arguments, never through a shell, and the PowerShell
//! clipboard cmdlets.
use vstd::prelude::*;
use crate::capability::adapters::{escapes_root, host_joined_path};
use crate::capability::imaging::{base64_len, base64_standard};
use crate::capability::input_plans::opt_texts;
use crate::capability::model::{CapabilityError, CapabilityErrorCode};
use crate::capability::native::{err, NativeTerminalProvider};
use crate::capability::processes::HostCommand;
use crate::text::{concat3, lower, str_eq, strs, utf8_bytes};

verus! {

/// A program run by the terminal provider: the allowlisted executable, its
/// arguments, its working directory, how long it may run, and, where the
/// request gives one, the whole environment it runs with.
pub struct TerminalCommand {
    pub executable: String,
    pub arguments: Vec<String>,
    pub working_directory: String,
    pub timeout_ms: u64,
    pub environment: Option<Vec<(String, String)>>,
}

/// The environment's entries with text values, in order.
pub open spec fn text_entries(env: Seq<(Seq<char>, Option<Seq<char>>)>) -> Seq<(Seq<char>, Seq<char>)>
    decreases env.len(),
{
    if env.len() == 0 {
        Seq::empty()
    } else {
        let prev = text_entries(env.drop_last());
        match env.last().1 {
            Some(v) => prev.push((env.last().0, v)),
            None => prev,
        }
    }
}

/// The view of an environment as the request gives it.
pub open spec fn env_view(env: Seq<(String, Option<String>)>) -> Seq<(Seq<char>, Option<Seq<char>>)> {
    env.map_values(
        |e: (String, Option<String>)|
            (
                e.0@,
                match e.1 {
                    Some(v) => Some(v@),
                    None => None,
                },
            ),
    )
}

/// The view of an environment as the program gets it.
pub open spec fn pairs_view(env: Seq<(String, String)>) -> Seq<(Seq<char>, Seq<char>)> {
    env.map_values(|e: (String, String)| (e.0@, e.1@))
}

/// Every argument is text.
pub open spec fn all_texts(args: Seq<Option<Seq<char>>>) -> bool {
    forall|i: int| 0 <= i < args.len() ==> (#[trigger] args[i]) is Some
}

/// The texts of arguments that are all text.
pub open spec fn texts_of(args: Seq<Option<Seq<char>>>) -> Seq<Seq<char>> {
    args.map_values(|o: Option<Seq<char>>| o->0)
}

/// The working directory a request names, `.` where it names none.
pub open spec fn working_directory_of(raw: Option<Seq<char>>) -> Seq<char> {
    match raw {
        Some(p) => p,
        None => "."@,
    }
}

/// A program to run as a value: executable, arguments, working directory,
/// time limit and environment.
pub type TerminalView = (Seq<char>, Seq<Seq<char>>, Seq<char>, u64, Option<Seq<(Seq<char>, Seq<char>)>>);

/// What a terminal request runs, or the refusal's code and message: the
/// executable must be allowlisted (ignoring ASCII case), the arguments must be
/// a list of texts, and the working directory must stay under the root; the
/// time limit is thirty seconds unless the request sets one.
pub open spec fn terminal_planned(
    root: Seq<char>,
    windows: bool,
    allowed: Seq<Seq<char>>,
    executable: Option<Seq<char>>,
    args: Option<Seq<Option<Seq<char>>>>,
    working_directory: Option<Seq<char>>,
    environment: Option<Seq<(Seq<char>, Option<Seq<char>>)>>,
    timeout_ms: Option<u64>,
) -> Result<TerminalView, (CapabilityErrorCode, Seq<char>)> {
    match executable {
        None => Err((CapabilityErrorCode::InvalidInput, "input.executable is required"@)),
        Some(e) => if !allowed.contains(lower(e)) {
            Err((CapabilityErrorCode::PermissionDenied, "executable is not in this provider's allowlist"@))
        } else {
            match args {
                None => Err((CapabilityErrorCode::InvalidInput, "input.args must be an array"@)),
                Some(a) => if !all_texts(a) {
                    Err((CapabilityErrorCode::InvalidInput, "args must be strings"@))
                } else if escapes_root(working_directory_of(working_directory), windows) {
                    Err((CapabilityErrorCode::PermissionDenied, "working_directory must stay within the configured root"@))
                } else {
                    Ok(
                        (
                            e,
                            texts_of(a),
                            host_joined_path(root, working_directory_of(working_directory), windows),
                            match timeout_ms {
                                Some(t) => t,
                                None => 30_000,
                            },
                            match environment {
                                Some(env) => Some(text_entries(env)),
                                None => None,
                            },
                        ),
                    )
                },
            }
        },
    }
}

/// The terminal runs only what its allowlist names, and only under its root:
/// the executable of every planned program is allowlisted, ignoring ASCII
/// case, and its working directory lies under the root.
pub proof fn law_terminal_runs_only_allowlisted(
    root: Seq<char>,
    windows: bool,
    allowed: Seq<Seq<char>>,
    executable: Option<Seq<char>>,
    args: Option<Seq<Option<Seq<char>>>>,
    working_directory: Option<Seq<char>>,
    environment: Option<Seq<(Seq<char>, Option<Seq<char>>)>>,
    timeout_ms: Option<u64>,
)
    ensures
        terminal_planned(root, windows, allowed, executable, args, working_directory, environment, timeout_ms)
            matches Ok(v) ==> allowed.contains(lower(v.0)) && crate::capability::adapters::under_root(
            root,
            v.2,
            windows,
        ),
{
    let w = working_directory_of(working_directory);
    if !escapes_root(w, windows) {
        assert(crate::capability::adapters::under_root(root, host_joined_path(root, w, windows), windows));
    }
}

/// A planned program, or the refusal's code and message.
pub open spec fn terminal_outcome(r: Result<TerminalCommand, CapabilityError>) -> Result<
    TerminalView,
    (CapabilityErrorCode, Seq<char>),
> {
    match r {
        Ok(c) => Ok(
            (
                c.executable@,
                strs(c.arguments@),
                c.working_directory@,
                c.timeout_ms,
                match c.environment {
                    Some(env) => Some(pairs_view(env@)),
                    None => None,
                },
            ),
        ),
        Err(e) => Err((e.code, e.message@)),
    }
}

fn text_entries_exec(env: &Vec<(String, Option<String>)>) -> (r: Vec<(String, String)>)
    ensures
        pairs_view(r@) == text_entries(env_view(env@)),
{
    let ghost ev = env_view(env@);
    let mut r: Vec<(String, String)> = Vec::new();
    let mut i: usize = 0;
    while i < env.len()
        invariant
            i <= env.len(),
            ev == env_view(env@),
            pairs_view(r@) == text_entries(ev.take(i as int)),
        decreases env.len() - i,
    {
        assert(ev.take(i + 1).drop_last() =~= ev.take(i as int));
        assert(ev.take(i + 1).last() == ev[i as int]);
        let (k, v) = &env[i];
        match v {
            Some(v) => {
                let ghost prev = r@;
                r.push((String::from_str(k.as_str()), String::from_str(v.as_str())));
                assert(pairs_view(r@) =~= pairs_view(prev).push((k@, v@)));
            },
            None => {},
        }
        i += 1;
    }
    assert(ev.take(env.len() as int) =~= ev);
    r
}

impl NativeTerminalProvider {
    /// What a terminal request runs, from its `executable`, `args`,
    /// `working_directory` and `environment` fields and its time limit; `args`
    /// holds each element of the request's list, or nothing where an element
    /// is not text, and each environment entry its value where it is text.
    pub fn plan(
        &self,
        executable: Option<&str>,
        args: Option<&Vec<Option<String>>>,
        working_directory: Option<&str>,
        environment: Option<&Vec<(String, Option<String>)>>,
        timeout_ms: Option<u64>,
    ) -> (r: Result<TerminalCommand, CapabilityError>)
        ensures
            terminal_outcome(r) == terminal_planned(
                self.root@,
                self.windows_paths,
                self.allowed(),
                match executable {
                    Some(e) => Some(e@),
                    None => None,
                },
                match args {
                    Some(a) => Some(opt_texts(a@)),
                    None => None,
                },
                match working_directory {
                    Some(w) => Some(w@),
                    None => None,
                },
                match environment {
                    Some(env) => Some(env_view(env@)),
                    None => None,
                },
                timeout_ms,
            ),
            r matches Err(e) ==> !e.retryable,
    {
        let e = match executable {
            Some(e) => e,
            None => return Err(err(CapabilityErrorCode::InvalidInput, "input.executable is required")),
        };
        if !self.allows(e) {
            return Err(err(CapabilityErrorCode::PermissionDenied, "executable is not in this provider's allowlist"));
        }
        let a = match args {
            Some(a) => a,
            None => return Err(err(CapabilityErrorCode::InvalidInput, "input.args must be an array")),
        };
        let ghost av = opt_texts(a@);
        let mut arguments: Vec<String> = Vec::new();
        let mut i: usize = 0;
        while i < a.len()
            invariant
                i <= a.len(),
                av == opt_texts(a@),
                executable == Some(e),
                self.allowed().contains(lower(e@)),
                args == Some(a),
                forall|k: int| 0 <= k < i ==> (#[trigger] av[k]) is Some,
                strs(arguments@) == texts_of(av.take(i as int)),
            decreases a.len() - i,
        {
            match &a[i] {
                Some(s) => {
                    let ghost prev = arguments@;
                    arguments.push(String::from_str(s.as_str()));
                    assert(strs(arguments@) =~= strs(prev).push(s@));
                    assert(texts_of(av.take(i + 1)) =~= texts_of(av.take(i as int)).push(av[i as int]->0));
                },
                None => {
                    assert(av[i as int] is None);
                    assert(!all_texts(av));
                    return Err(err(CapabilityErrorCode::InvalidInput, "args must be strings"));
                },
            }
            i += 1;
        }
        assert(av.take(a.len() as int) =~= av);
        let cwd = self.working_directory(working_directory)?;
        let env = match environment {
            Some(env) => Some(text_entries_exec(env)),
            None => None,
        };
        let limit = match timeout_ms {
            Some(t) => t,
            None => 30_000,
        };
        Ok(
            TerminalCommand {
                executable: String::from_str(e),
                arguments,
                working_directory: cwd,
                timeout_ms: limit,
                environment: env,
            },
        )
    }
}

/// The message of a program that outlives its time limit.
pub fn terminal_timed_out() -> (r: CapabilityError)
    ensures
        r.code == CapabilityErrorCode::Timeout,
        r.message@ == "terminal process timed out"@,
        !r.retryable,
{
    err(CapabilityErrorCode::Timeout, "terminal process timed out")
}

/// What a clipboard request asks for.
#[derive(Debug, PartialEq, Eq)]
pub enum ClipboardOperation {
    /// Read the clipboard's text.
    Read,
    /// Run the PowerShell script that sets the clipboard.
    Write { script: String },
}

/// The PowerShell script that puts a text on the clipboard: the text travels
/// as base64 of its UTF-8 bytes, so that no quoting can break the script.
pub open spec fn clipboard_script(text: Seq<char>) -> Seq<char> {
    "[Text.Encoding]::UTF8.GetString([Convert]::FromBase64String('"@ + base64_standard(
        vstd::utf8::encode_utf8(text),
    ) + "')) | Set-Clipboard"@
}

/// The operation a clipboard request asks for, from its capability and its
/// `text` field.
pub fn clipboard_operation(op: &str, text: Option<&str>) -> (r: Result<ClipboardOperation, CapabilityError>)
    requires
        text matches Some(t) ==> base64_len(vstd::utf8::encode_utf8(t@).len()) <= usize::MAX,
    ensures
        op@ == "clipboard.read"@ ==> r matches Ok(ClipboardOperation::Read),
        op@ != "clipboard.read"@ && op@ == "clipboard.write"@ ==> match text {
            Some(t) => r matches Ok(ClipboardOperation::Write { script }) && script@ == clipboard_script(t@),
            None => r matches Err(e) && e.code == CapabilityErrorCode::InvalidInput && e.message@
                == "input.text is required"@,
        },
        op@ != "clipboard.read"@ && op@ != "clipboard.write"@ ==> (r matches Err(e) && e.code
            == CapabilityErrorCode::Unsupported && e.message@ == "unsupported clipboard operation"@),
        r matches Err(e) ==> !e.retryable,
{
    if str_eq(op, "clipboard.read") {
        return Ok(ClipboardOperation::Read);
    }
    if str_eq(op, "clipboard.write") {
        let t = match text {
            Some(t) => t,
            None => return Err(err(CapabilityErrorCode::InvalidInput, "input.text is required")),
        };
        let bytes = utf8_bytes(t);
        let encoded = crate::capability::imaging::encode_base64(bytes.as_slice());
        let script = concat3(
            "[Text.Encoding]::UTF8.GetString([Convert]::FromBase64String('",
            encoded.as_str(),
            "')) | Set-Clipboard",
        );
        return Ok(ClipboardOperation::Write { script });
    }
    Err(err(CapabilityErrorCode::Unsupported, "unsupported clipboard operation"))
}

/// The PowerShell command that runs a script without a profile or prompts.
pub fn powershell_command(script: &str) -> (r: HostCommand)
    ensures
        r.program@ == "powershell.exe"@,
        strs(r.arguments@) == seq!["-NoProfile"@, "-NonInteractive"@, "-Command"@, script@],
{
    let mut arguments: Vec<String> = Vec::new();
    arguments.push(String::from_str("-NoProfile"));
    arguments.push(String::from_str("-NonInteractive"));
    arguments.push(String::from_str("-Command"));
    arguments.push(String::from_str(script));
    assert(strs(arguments@) =~= seq!["-NoProfile"@, "-NonInteractive"@, "-Command"@, script@]);
    HostCommand { program: String::from_str("powershell.exe"), arguments }
}

/// The command of a clipboard operation: `Get-Clipboard -Raw` to read, the
/// writing script to write.
pub fn clipboard_command(operation: &ClipboardOperation) -> (r: HostCommand)
    ensures
        r.program@ == "powershell.exe"@,
        operation matches ClipboardOperation::Read ==> strs(r.arguments@) == seq![
            "-NoProfile"@,
            "-NonInteractive"@,
            "-Command"@,
            "Get-Clipboard -Raw"@,
        ],
        operation matches ClipboardOperation::Write { script } ==> strs(r.arguments@) == seq![
            "-NoProfile"@,
            "-NonInteractive"@,
            "-Command"@,
            script@,
        ],
{
    match operation {
        ClipboardOperation::Read => powershell_command("Get-Clipboard -Raw"),
        ClipboardOperation::Write { script } => powershell_command(script.as_str()),
    }
}

/// What a clipboard request changes: writing updates the clipboard.
pub fn clipboard_side_effects(op: &str) -> (r: Vec<String>)
    ensures
        op@ == "clipboard.write"@ ==> strs(r@) == seq!["clipboard.updated"@],
        op@ != "clipboard.write"@ ==> strs(r@) == Seq::<Seq<char>>::empty(),
{
    let mut r: Vec<String> = Vec::new();
    if str_eq(op, "clipboard.write") {
        r.push(String::from_str("clipboard.updated"));
    }
    assert(strs(r@) =~= (if op@ == "clipboard.write"@ {
        seq!["clipboard.updated"@]
    } else {
        Seq::<Seq<char>>::empty()
    }));
    r
}

} // verus!
