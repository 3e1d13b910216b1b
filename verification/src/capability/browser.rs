//! The browser automation capabilities.
use vstd::prelude::*;
use crate::capability::model::{
    basic_definition, CapabilityDefinition, CapabilityRuntime, DefinitionView, Idempotency, MetadataView,
    RiskLevel, SecurityLevel,
};
use crate::capability::registry::def_views;
use crate::capability::model::{now_ms, CapabilityError, CapabilityErrorCode};
use crate::capability::native::err;
use crate::capability::adapters::{join_path, joined_path};
use crate::text::{chars_of, concat2, concat3, str_eq, string_of, strs};
use crate::virtualization::backend::fresh_id;
use crate::worker::registry::opt_string_view;
use dashmap::DashMap;

verus! {

/// A browser capability: runs on desktop hosts, needs its own permission,
/// sensitive but low-risk.
pub open spec fn browser_definition(id: Seq<char>, description: Seq<char>, idempotency: Idempotency) -> DefinitionView {
    let base = basic_definition(
        id,
        description,
        seq![CapabilityRuntime::Windows, CapabilityRuntime::Linux, CapabilityRuntime::MacOS],
        idempotency,
    );
    DefinitionView {
        metadata: MetadataView {
            required_permissions: seq![id],
            security_level: SecurityLevel::Sensitive,
            risk_level: RiskLevel::Low,
            ..base.metadata
        },
        ..base
    }
}

/// A browser capability definition.
pub fn def(id: &str, description: &str, idempotency: Idempotency) -> (r: CapabilityDefinition)
    ensures
        r@ == browser_definition(id@, description@, idempotency),
{
    let mut runtimes: Vec<CapabilityRuntime> = Vec::new();
    runtimes.push(CapabilityRuntime::Windows);
    runtimes.push(CapabilityRuntime::Linux);
    runtimes.push(CapabilityRuntime::MacOS);
    let mut d = CapabilityDefinition::basic(id, description, runtimes, idempotency);
    d.metadata.required_permissions.push(String::from_str(id));
    d.metadata.security_level = SecurityLevel::Sensitive;
    d.metadata.risk_level = RiskLevel::Low;
    assert(runtimes@ =~= seq![CapabilityRuntime::Windows, CapabilityRuntime::Linux, CapabilityRuntime::MacOS]);
    assert(d@.metadata.required_permissions =~= seq![id@]);
    d
}

/// The browser capabilities: identity, description and idempotency.
pub open spec fn browser_table() -> Seq<(Seq<char>, Seq<char>, Idempotency)> {
    seq![
        ("browser.open"@, "Open a headless browser session and navigate to a URL"@, Idempotency::NonIdempotent),
        ("browser.navigate"@, "Navigate the active session to a new URL"@, Idempotency::NonIdempotent),
        ("browser.read"@, "Read the text content of the current page"@, Idempotency::ReadOnly),
        ("browser.click"@, "Click a page element identified by CSS selector or text"@, Idempotency::NonIdempotent),
        ("browser.type"@, "Type text into a page element identified by CSS selector"@, Idempotency::NonIdempotent),
        ("browser.screenshot"@, "Capture the current page as a PNG screenshot"@, Idempotency::ReadOnly),
        ("browser.close"@, "Close a browser session"@, Idempotency::Destructive),
        ("browser.tabs"@, "List the tabs in the current session"@, Idempotency::ReadOnly),
        ("browser.back"@, "Navigate back in browser history"@, Idempotency::NonIdempotent),
        ("browser.forward"@, "Navigate forward in browser history"@, Idempotency::NonIdempotent),
        ("browser.reload"@, "Reload the current page"@, Idempotency::NonIdempotent),
    ]
}

/// One definition for each browser capability, in order.
pub fn browser_definitions() -> (r: Vec<CapabilityDefinition>)
    ensures
        def_views(r@) == browser_table().map_values(
            |e: (Seq<char>, Seq<char>, Idempotency)| browser_definition(e.0, e.1, e.2),
        ),
{
    let t: [(&'static str, &'static str, Idempotency); 11] = [
        ("browser.open", "Open a headless browser session and navigate to a URL", Idempotency::NonIdempotent),
        ("browser.navigate", "Navigate the active session to a new URL", Idempotency::NonIdempotent),
        ("browser.read", "Read the text content of the current page", Idempotency::ReadOnly),
        ("browser.click", "Click a page element identified by CSS selector or text", Idempotency::NonIdempotent),
        ("browser.type", "Type text into a page element identified by CSS selector", Idempotency::NonIdempotent),
        ("browser.screenshot", "Capture the current page as a PNG screenshot", Idempotency::ReadOnly),
        ("browser.close", "Close a browser session", Idempotency::Destructive),
        ("browser.tabs", "List the tabs in the current session", Idempotency::ReadOnly),
        ("browser.back", "Navigate back in browser history", Idempotency::NonIdempotent),
        ("browser.forward", "Navigate forward in browser history", Idempotency::NonIdempotent),
        ("browser.reload", "Reload the current page", Idempotency::NonIdempotent),
    ];
    let ghost tv = t@.map_values(|e: (&str, &str, Idempotency)| (e.0@, e.1@, e.2));
    assert(tv =~= browser_table());
    let mut r: Vec<CapabilityDefinition> = Vec::new();
    let mut i: usize = 0;
    while i < 11
        invariant
            i <= 11,
            tv == t@.map_values(|e: (&str, &str, Idempotency)| (e.0@, e.1@, e.2)),
            def_views(r@) == tv.take(i as int).map_values(
                |e: (Seq<char>, Seq<char>, Idempotency)| browser_definition(e.0, e.1, e.2),
            ),
        decreases 11 - i,
    {
        let (id, description, idempotency) = t[i];
        let ghost prev = r@;
        r.push(def(id, description, idempotency));
        assert(tv[i as int] == (id@, description@, idempotency));
        assert(def_views(r@) =~= def_views(prev).push(browser_definition(id@, description@, idempotency)));
        assert(tv.take(i + 1) =~= tv.take(i as int).push(tv[i as int]));
        assert(def_views(r@) =~= tv.take(i + 1).map_values(
            |e: (Seq<char>, Seq<char>, Idempotency)| browser_definition(e.0, e.1, e.2),
        ));
        i += 1;
    }
    assert(tv.take(11) =~= tv);
    r
}


/// A browser session the provider tracks: where it last was.
pub struct BrowserSessionState {
    pub session_id: String,
    pub current_url: String,
    pub created_at_ms: u64,
}

/// A tracked browser session as a value.
pub struct SessionView {
    pub session_id: Seq<char>,
    pub current_url: Seq<char>,
    pub created_at_ms: u64,
}

impl View for BrowserSessionState {
    type V = SessionView;

    open spec fn view(&self) -> SessionView {
        SessionView {
            session_id: self.session_id@,
            current_url: self.current_url@,
            created_at_ms: self.created_at_ms,
        }
    }
}

impl Clone for BrowserSessionState {
    fn clone(&self) -> (r: Self)
        ensures
            r@ == self@,
    {
        BrowserSessionState {
            session_id: self.session_id.clone(),
            current_url: self.current_url.clone(),
            created_at_ms: self.created_at_ms,
        }
    }
}

/// The sessions a table holds, by session identity.
pub uninterp spec fn session_table(m: DashMap<String, BrowserSessionState>) -> Map<Seq<char>, SessionView>;

/// The table the sessions are kept in.
pub type SessionTable = DashMap<String, BrowserSessionState>;

/// No sessions.
pub open spec fn no_sessions() -> Map<Seq<char>, SessionView> {
    Map::empty()
}

/// `DashMap::new`: no sessions.
#[verifier::external_body]
fn sessions_new() -> (r: SessionTable)
    ensures
        session_table(r) == no_sessions(),
{
    DashMap::new()
}

/// `DashMap::insert`: the key now maps to the session; other keys are unchanged.
#[verifier::external_body]
fn sessions_insert(m: &mut DashMap<String, BrowserSessionState>, k: String, v: BrowserSessionState)
    ensures
        session_table(*final(m)) == session_table(*old(m)).insert(k@, v@),
{
    m.insert(k, v);
}

/// `DashMap::remove`: the key is gone, if it was there.
#[verifier::external_body]
fn sessions_remove(m: &mut DashMap<String, BrowserSessionState>, k: &str)
    ensures
        session_table(*final(m)) == session_table(*old(m)).remove(k@),
{
    m.remove(k);
}

/// `DashMap::get`, cloning the session found under the key.
#[verifier::external_body]
fn sessions_get(m: &DashMap<String, BrowserSessionState>, k: &str) -> (r: Option<BrowserSessionState>)
    ensures
        r is Some <==> session_table(*m).contains_key(k@),
        r matches Some(v) ==> v@ == session_table(*m)[k@],
{
    m.get(k).map(|e| e.value().clone())
}

/// A text, or a default where there is none.
pub open spec fn text_or(t: Option<Seq<char>>, d: Seq<char>) -> Seq<char> {
    match t {
        Some(s) => s,
        None => d,
    }
}

/// The page a session is on; a session that is not tracked is on a blank page.
pub open spec fn session_url_of(m: Map<Seq<char>, SessionView>, session_id: Seq<char>) -> Seq<char> {
    if m.contains_key(session_id) {
        m[session_id].current_url
    } else {
        "about:blank"@
    }
}

/// The table with the tracked session `session_id`, if there is one, now on `url`.
pub open spec fn url_updated(m: Map<Seq<char>, SessionView>, session_id: Seq<char>, url: Seq<char>) -> Map<
    Seq<char>,
    SessionView,
> {
    if m.contains_key(session_id) {
        m.insert(session_id, SessionView { current_url: url, ..m[session_id] })
    } else {
        m
    }
}

/// A single quote escaped with a backslash, so that a text can stand inside a
/// single-quoted script literal.
pub open spec fn escape_quotes(s: Seq<char>) -> Seq<char>
    decreases s.len(),
{
    if s.len() == 0 {
        Seq::empty()
    } else {
        escape_quotes(s.drop_last()) + if s.last() == '\'' {
            seq!['\\', '\'']
        } else {
            seq![s.last()]
        }
    }
}

/// Every backslash turned into a forward slash.
pub open spec fn forward_slashes(s: Seq<char>) -> Seq<char> {
    s.map_values(|c: char| if c == '\\' { '/' } else { c })
}

/// The text with its single quotes escaped.
pub fn escape_quotes_exec(s: &str) -> (r: String)
    ensures
        r@ == escape_quotes(s@),
{
    let v = chars_of(s);
    let mut out: Vec<char> = Vec::new();
    let mut i: usize = 0;
    while i < v.len()
        invariant
            i <= v.len(),
            v@ == s@,
            out@ == escape_quotes(v@.take(i as int)),
        decreases v.len() - i,
    {
        assert(v@.take(i + 1).drop_last() =~= v@.take(i as int));
        assert(v@.take(i + 1).last() == v@[i as int]);
        let ghost prev = out@;
        if v[i] == '\'' {
            out.push('\\');
            out.push('\'');
            assert(out@ =~= prev + seq!['\\', '\'']);
        } else {
            out.push(v[i]);
            assert(out@ =~= prev + seq![v@[i as int]]);
        }
        i += 1;
    }
    assert(v@.take(v.len() as int) =~= v@);
    string_of(&out)
}

/// The text with every backslash turned into a forward slash.
pub fn forward_slashes_exec(s: &str) -> (r: String)
    ensures
        r@ == forward_slashes(s@),
{
    let v = chars_of(s);
    let mut out: Vec<char> = Vec::new();
    let mut i: usize = 0;
    while i < v.len()
        invariant
            i <= v.len(),
            v@ == s@,
            out@ == forward_slashes(s@).take(i as int),
        decreases v.len() - i,
    {
        let c = if v[i] == '\\' {
            '/'
        } else {
            v[i]
        };
        out.push(c);
        assert(out@ =~= forward_slashes(s@).take(i + 1));
        i += 1;
    }
    assert(forward_slashes(s@).take(v.len() as int) =~= forward_slashes(s@));
    string_of(&out)
}

/// The start of every page script: load Playwright and launch a headless Chromium.
pub const SCRIPT_HEAD: &'static str = "const {chromium}=require('playwright');\n(async()=>{\n  const b=await chromium.launch({headless:true});\n";

/// A new page `p` going to the URL that follows.
pub const GOTO_P: &'static str = "  const p=await b.newPage();\n  await p.goto('";

/// A new page `page` going to the URL that follows.
pub const GOTO_PAGE: &'static str = "  const page=await b.newPage();\n  await page.goto('";

/// The end of the navigation to the URL.
pub const AFTER_URL: &'static str = "',{waitUntil:'domcontentloaded',timeout:30000});\n";

/// The end of every page script: close the browser; a failure prints its
/// message and exits with a failure status.
pub const SCRIPT_TAIL: &'static str = "  await b.close();\n})().catch(e=>{console.error(JSON.stringify({error:e.message}));process.exit(1);});";

/// Printing the page's URL and title.
pub const URL_AND_TITLE: &'static str = "  console.log(JSON.stringify({url:p.url(),title:await p.title()}));\n";

/// Printing the page's text, title and URL.
pub const READ_BODY: &'static str = "  const text=await p.innerText('body');\n  console.log(JSON.stringify({text,title:await p.title(),url:p.url()}));\n";

/// A script that opens `url` on page `p` and then runs `body`.
pub open spec fn page_script(url: Seq<char>, body: Seq<char>) -> Seq<char> {
    SCRIPT_HEAD@ + GOTO_P@ + url + AFTER_URL@ + body + SCRIPT_TAIL@
}

/// A script that opens `url` on page `page` and then runs `body`.
pub open spec fn click_script(url: Seq<char>, body: Seq<char>) -> Seq<char> {
    SCRIPT_HEAD@ + GOTO_PAGE@ + url + AFTER_URL@ + body + SCRIPT_TAIL@
}

fn page_script_exec(named_page: bool, url: &str, body: &str) -> (r: String)
    ensures
        named_page ==> r@ == click_script(url@, body@),
        !named_page ==> r@ == page_script(url@, body@),
{
    let mut s = String::from_str(SCRIPT_HEAD);
    if named_page {
        s.append(GOTO_PAGE);
    } else {
        s.append(GOTO_P);
    }
    s.append(url);
    s.append(AFTER_URL);
    s.append(body);
    s.append(SCRIPT_TAIL);
    s
}

/// Opening a session: print the session identity and the URL reached.
pub open spec fn open_body(session_id: Seq<char>) -> Seq<char> {
    "  const u=p.url();\n  console.log(JSON.stringify({session_id:'"@ + session_id + "',url:u}));\n"@
}

/// The click a request asks for: by selector, else by text, else on the page body.
pub open spec fn click_expr(selector: Option<Seq<char>>, text: Option<Seq<char>>) -> Seq<char> {
    let s = escape_quotes(text_or(selector, ""@));
    let t = escape_quotes(text_or(text, ""@));
    if s.len() > 0 {
        "page.locator('"@ + s + "').click()"@
    } else if t.len() > 0 {
        "page.getByText('"@ + t + "').click()"@
    } else {
        "page.click('body')"@
    }
}

/// Clicking, waiting for the page to load, and printing the URL reached.
pub open spec fn click_body(expr: Seq<char>) -> Seq<char> {
    "  await "@ + expr
        + ";\n  await page.waitForLoadState('domcontentloaded');\n  console.log(JSON.stringify({clicked:true,url:page.url()}));\n"@
}

/// Filling the element `selector` with `text`.
pub open spec fn type_body(selector: Seq<char>, text: Seq<char>) -> Seq<char> {
    "  await p.fill('"@ + selector + "','"@ + text + "');\n  console.log(JSON.stringify({typed:true}));\n"@
}

/// Saving a screenshot of the page at `path`.
pub open spec fn screenshot_body(path: Seq<char>) -> Seq<char> {
    "  await p.screenshot({path:'"@ + path + "'});\n  console.log(JSON.stringify({success:true}));\n"@
}

/// Going back, forward or reloading, then printing the URL and title.
pub open spec fn history_body(action: Seq<char>) -> Seq<char> {
    "  await "@ + action + ";\n"@ + URL_AND_TITLE@
}

/// The page call of a history capability.
pub open spec fn history_action(op: Seq<char>) -> Seq<char> {
    if op == "browser.back"@ {
        "p.goBack()"@
    } else if op == "browser.forward"@ {
        "p.goForward()"@
    } else {
        "p.reload()"@
    }
}

/// The browser request fields the provider reads.
pub struct BrowserInput {
    pub session_id: Option<String>,
    pub url: Option<String>,
    pub selector: Option<String>,
    pub text: Option<String>,
}

/// The browser request fields as values.
pub struct BrowserInputView {
    pub session_id: Option<Seq<char>>,
    pub url: Option<Seq<char>>,
    pub selector: Option<Seq<char>>,
    pub text: Option<Seq<char>>,
}

impl View for BrowserInput {
    type V = BrowserInputView;

    open spec fn view(&self) -> BrowserInputView {
        BrowserInputView {
            session_id: opt_string_view(self.session_id),
            url: opt_string_view(self.url),
            selector: opt_string_view(self.selector),
            text: opt_string_view(self.text),
        }
    }
}

/// What becomes of a script's printed result.
pub enum ScriptFollow {
    /// The result is the output.
    Output,
    /// The session moves to the URL the result reports; the result is the output.
    TrackUrl { session_id: String },
    /// The session moves to the URL the result reports; the output only says
    /// that the click happened.
    Clicked { session_id: String },
    /// The screenshot saved at the path is the output.
    Screenshot { path: String },
}

/// What becomes of a script's result, as a value.
pub enum FollowView {
    Output,
    TrackUrl(Seq<char>),
    Clicked(Seq<char>),
    Screenshot(Seq<char>),
}

impl View for ScriptFollow {
    type V = FollowView;

    open spec fn view(&self) -> FollowView {
        match self {
            ScriptFollow::Output => FollowView::Output,
            ScriptFollow::TrackUrl { session_id } => FollowView::TrackUrl(session_id@),
            ScriptFollow::Clicked { session_id } => FollowView::Clicked(session_id@),
            ScriptFollow::Screenshot { path } => FollowView::Screenshot(path@),
        }
    }
}

/// What a browser request needs done.
pub enum BrowserStep {
    /// Run the page script, then follow up on its result.
    Script { script: String, follow: ScriptFollow },
    /// The session was closed.
    Closed,
    /// The session's single tab: its identity and URL.
    Tabs { session_id: String, url: String },
}

/// What a browser request needs done, as a value.
pub enum StepView {
    Script(Seq<char>, FollowView),
    Closed,
    Tabs(Seq<char>, Seq<char>),
}

impl View for BrowserStep {
    type V = StepView;

    open spec fn view(&self) -> StepView {
        match self {
            BrowserStep::Script { script, follow } => StepView::Script(script@, follow@),
            BrowserStep::Closed => StepView::Closed,
            BrowserStep::Tabs { session_id, url } => StepView::Tabs(session_id@, url@),
        }
    }
}

/// A planned step, or the refusal's code and message.
pub open spec fn outcome_view(r: Result<BrowserStep, CapabilityError>) -> Result<StepView, (CapabilityErrorCode, Seq<char>)> {
    match r {
        Ok(s) => Ok(s@),
        Err(e) => Err((e.code, e.message@)),
    }
}

/// The sessions after a browser request is planned, and the step it needs or
/// its refusal; `id` is a fresh identity, `now` the time in milliseconds.
pub open spec fn prepared(
    m: Map<Seq<char>, SessionView>,
    temp: Seq<char>,
    op: Seq<char>,
    input: BrowserInputView,
    id: Seq<char>,
    now: u64,
) -> (Map<Seq<char>, SessionView>, Result<StepView, (CapabilityErrorCode, Seq<char>)>) {
    let sid = text_or(input.session_id, ""@);
    let url = session_url_of(m, sid);
    if op == "browser.open"@ {
        let target = text_or(input.url, "about:blank"@);
        (
            m.insert(id, SessionView { session_id: id, current_url: target, created_at_ms: now }),
            Ok(StepView::Script(page_script(target, open_body(id)), FollowView::TrackUrl(id))),
        )
    } else if op == "browser.navigate"@ {
        match input.url {
            None => (m, Err((CapabilityErrorCode::InvalidInput, "input.url required"@))),
            Some(u) => (m, Ok(StepView::Script(page_script(u, URL_AND_TITLE@), FollowView::TrackUrl(sid)))),
        }
    } else if op == "browser.read"@ {
        (m, Ok(StepView::Script(page_script(url, READ_BODY@), FollowView::Output)))
    } else if op == "browser.click"@ {
        (
            m,
            Ok(
                StepView::Script(
                    click_script(url, click_body(click_expr(input.selector, input.text))),
                    FollowView::Clicked(sid),
                ),
            ),
        )
    } else if op == "browser.type"@ {
        match (input.selector, input.text) {
            (None, _) => (m, Err((CapabilityErrorCode::InvalidInput, "input.selector required"@))),
            (Some(_), None) => (m, Err((CapabilityErrorCode::InvalidInput, "input.text required"@))),
            (Some(s), Some(t)) => (
                m,
                Ok(StepView::Script(page_script(url, type_body(escape_quotes(s), escape_quotes(t))), FollowView::Output)),
            ),
        }
    } else if op == "browser.screenshot"@ {
        let path = joined_path(temp, "shot_"@ + id + ".png"@);
        (m, Ok(StepView::Script(page_script(url, screenshot_body(forward_slashes(path))), FollowView::Screenshot(path))))
    } else if op == "browser.close"@ {
        (m.remove(sid), Ok(StepView::Closed))
    } else if op == "browser.tabs"@ {
        (m, Ok(StepView::Tabs(sid, url)))
    } else if op == "browser.back"@ || op == "browser.forward"@ || op == "browser.reload"@ {
        (m, Ok(StepView::Script(page_script(url, history_body(history_action(op))), FollowView::TrackUrl(sid))))
    } else {
        (m, Err((CapabilityErrorCode::Unsupported, "unsupported browser operation '"@ + op + "'"@)))
    }
}

/// The sessions after a script's result is followed up: a tracked session
/// moves to the URL the result reports, if it reports one.
pub open spec fn followed(m: Map<Seq<char>, SessionView>, follow: FollowView, result_url: Option<Seq<char>>) -> Map<
    Seq<char>,
    SessionView,
> {
    match (follow, result_url) {
        (FollowView::TrackUrl(sid), Some(u)) => url_updated(m, sid, u),
        (FollowView::Clicked(sid), Some(u)) => url_updated(m, sid, u),
        _ => m,
    }
}

/// The message of a missing Playwright installation.
pub const PLAYWRIGHT_MISSING: &'static str = "Playwright not found. Install: npm install -g playwright && npx playwright install chromium";

/// Browser automation on every desktop host, through Playwright scripts run by
/// Node.js; each request launches a headless Chromium, and the page a logical
/// session is on is tracked here so that requests can follow one another.
pub struct UniversalBrowserProvider {
    provider_id: String,
    runtime_id: String,
    sessions: DashMap<String, BrowserSessionState>,
    temp_dir: String,
}

impl UniversalBrowserProvider {
    pub closed spec fn provider_view(&self) -> Seq<char> {
        self.provider_id@
    }

    pub closed spec fn runtime_view(&self) -> Seq<char> {
        self.runtime_id@
    }

    /// The directory the scripts and screenshots are written to.
    pub closed spec fn temp_view(&self) -> Seq<char> {
        self.temp_dir@
    }

    /// The tracked sessions.
    pub closed spec fn sessions(&self) -> Map<Seq<char>, SessionView> {
        session_table(self.sessions)
    }

    /// A provider with no sessions, writing its files to a directory of its
    /// own under `temp_root`.
    pub fn new(provider_id: &str, runtime_id: &str, temp_root: &str) -> (r: Self)
        ensures
            r.provider_view() == provider_id@,
            r.runtime_view() == runtime_id@,
            r.temp_view() == joined_path(temp_root@, "cognyxos_browser_scripts"@),
            r.sessions() == no_sessions(),
    {
        UniversalBrowserProvider {
            provider_id: String::from_str(provider_id),
            runtime_id: String::from_str(runtime_id),
            sessions: sessions_new(),
            temp_dir: join_path(temp_root, "cognyxos_browser_scripts"),
        }
    }

    pub fn provider_id(&self) -> (r: &str)
        ensures
            r@ == self.provider_view(),
    {
        self.provider_id.as_str()
    }

    pub fn runtime_id(&self) -> (r: &str)
        ensures
            r@ == self.runtime_view(),
    {
        self.runtime_id.as_str()
    }

    /// The directory the scripts and screenshots are written to.
    pub fn temp_dir(&self) -> (r: &str)
        ensures
            r@ == self.temp_view(),
    {
        self.temp_dir.as_str()
    }

    /// Below the native providers.
    pub fn priority(&self) -> (r: u8)
        ensures
            r == 5,
    {
        5
    }

    /// The browser capabilities.
    pub fn definitions(&self) -> (r: Vec<CapabilityDefinition>)
        ensures
            def_views(r@) == browser_table().map_values(
                |e: (Seq<char>, Seq<char>, Idempotency)| browser_definition(e.0, e.1, e.2),
            ),
    {
        browser_definitions()
    }

    /// Every capability but closing a session and listing its tabs drives a
    /// browser, and so needs Playwright.
    pub fn needs_playwright(op: &str) -> (r: bool)
        ensures
            r == !(op@ == "browser.close"@ || op@ == "browser.tabs"@),
    {
        !(str_eq(op, "browser.close") || str_eq(op, "browser.tabs"))
    }

    /// The refusal when Playwright is not installed.
    pub fn playwright_missing() -> (r: CapabilityError)
        ensures
            r.code == CapabilityErrorCode::RuntimeUnavailable,
            r.message@ == PLAYWRIGHT_MISSING@,
            !r.retryable,
    {
        err(CapabilityErrorCode::RuntimeUnavailable, PLAYWRIGHT_MISSING)
    }

    /// The page a session is on; a session that is not tracked is on a blank page.
    pub fn session_url(&self, session_id: &str) -> (r: String)
        ensures
            r@ == session_url_of(self.sessions(), session_id@),
    {
        match sessions_get(&self.sessions, session_id) {
            Some(s) => s.current_url,
            None => String::from_str("about:blank"),
        }
    }

    /// The tracked session `session_id`, if there is one, is now on `url`.
    pub fn update_session_url(&mut self, session_id: &str, url: &str)
        ensures
            final(self).sessions() == url_updated(old(self).sessions(), session_id@, url@),
            final(self).provider_view() == old(self).provider_view(),
            final(self).runtime_view() == old(self).runtime_view(),
            final(self).temp_view() == old(self).temp_view(),
    {
        if let Some(mut s) = sessions_get(&self.sessions, session_id) {
            s.current_url = String::from_str(url);
            sessions_insert(&mut self.sessions, String::from_str(session_id), s);
        }
    }

    /// Plans a browser request: opening a session tracks it under `id` from
    /// time `now_ms`, closing one forgets it, listing tabs reports the
    /// session's page, and every other capability becomes a page script.
    pub fn prepare(&mut self, op: &str, input: &BrowserInput, id: &str, now_ms: u64) -> (r: Result<
        BrowserStep,
        CapabilityError,
    >)
        ensures
            prepared(old(self).sessions(), old(self).temp_view(), op@, input@, id@, now_ms) == (
                final(self).sessions(),
                outcome_view(r),
            ),
            r matches Err(e) ==> !e.retryable,
            final(self).provider_view() == old(self).provider_view(),
            final(self).runtime_view() == old(self).runtime_view(),
            final(self).temp_view() == old(self).temp_view(),
    {
        let sid: &str = match &input.session_id {
            Some(s) => s.as_str(),
            None => "",
        };
        if str_eq(op, "browser.open") {
            let target: &str = match &input.url {
                Some(u) => u.as_str(),
                None => "about:blank",
            };
            let state = BrowserSessionState {
                session_id: String::from_str(id),
                current_url: String::from_str(target),
                created_at_ms: now_ms,
            };
            sessions_insert(&mut self.sessions, String::from_str(id), state);
            let body = concat3("  const u=p.url();\n  console.log(JSON.stringify({session_id:'", id, "',url:u}));\n");
            let script = page_script_exec(false, target, body.as_str());
            return Ok(BrowserStep::Script { script, follow: ScriptFollow::TrackUrl { session_id: String::from_str(id) } });
        }
        if str_eq(op, "browser.navigate") {
            let u: &str = match &input.url {
                Some(u) => u.as_str(),
                None => return Err(err(CapabilityErrorCode::InvalidInput, "input.url required")),
            };
            let script = page_script_exec(false, u, URL_AND_TITLE);
            return Ok(BrowserStep::Script { script, follow: ScriptFollow::TrackUrl { session_id: String::from_str(sid) } });
        }
        let url = self.session_url(sid);
        if str_eq(op, "browser.read") {
            let script = page_script_exec(false, url.as_str(), READ_BODY);
            return Ok(BrowserStep::Script { script, follow: ScriptFollow::Output });
        }
        if str_eq(op, "browser.click") {
            let selector: &str = match &input.selector {
                Some(s) => s.as_str(),
                None => "",
            };
            let text: &str = match &input.text {
                Some(t) => t.as_str(),
                None => "",
            };
            let s = escape_quotes_exec(selector);
            let t = escape_quotes_exec(text);
            let expr = if s.as_str().unicode_len() > 0 {
                concat3("page.locator('", s.as_str(), "').click()")
            } else if t.as_str().unicode_len() > 0 {
                concat3("page.getByText('", t.as_str(), "').click()")
            } else {
                String::from_str("page.click('body')")
            };
            let body = concat3(
                "  await ",
                expr.as_str(),
                ";\n  await page.waitForLoadState('domcontentloaded');\n  console.log(JSON.stringify({clicked:true,url:page.url()}));\n",
            );
            let script = page_script_exec(true, url.as_str(), body.as_str());
            return Ok(BrowserStep::Script { script, follow: ScriptFollow::Clicked { session_id: String::from_str(sid) } });
        }
        if str_eq(op, "browser.type") {
            let selector: &str = match &input.selector {
                Some(s) => s.as_str(),
                None => return Err(err(CapabilityErrorCode::InvalidInput, "input.selector required")),
            };
            let text: &str = match &input.text {
                Some(t) => t.as_str(),
                None => return Err(err(CapabilityErrorCode::InvalidInput, "input.text required")),
            };
            let s = escape_quotes_exec(selector);
            let t = escape_quotes_exec(text);
            let mut body = concat3("  await p.fill('", s.as_str(), "','");
            body.append(t.as_str());
            body.append("');\n  console.log(JSON.stringify({typed:true}));\n");
            let script = page_script_exec(false, url.as_str(), body.as_str());
            return Ok(BrowserStep::Script { script, follow: ScriptFollow::Output });
        }
        if str_eq(op, "browser.screenshot") {
            let name = concat3("shot_", id, ".png");
            let path = join_path(self.temp_dir.as_str(), name.as_str());
            let shot = forward_slashes_exec(path.as_str());
            let body = concat3(
                "  await p.screenshot({path:'",
                shot.as_str(),
                "'});\n  console.log(JSON.stringify({success:true}));\n",
            );
            let script = page_script_exec(false, url.as_str(), body.as_str());
            return Ok(BrowserStep::Script { script, follow: ScriptFollow::Screenshot { path } });
        }
        if str_eq(op, "browser.close") {
            sessions_remove(&mut self.sessions, sid);
            return Ok(BrowserStep::Closed);
        }
        if str_eq(op, "browser.tabs") {
            return Ok(BrowserStep::Tabs { session_id: String::from_str(sid), url });
        }
        let back = str_eq(op, "browser.back");
        let forward = str_eq(op, "browser.forward");
        if back || forward || str_eq(op, "browser.reload") {
            let action = if back {
                "p.goBack()"
            } else if forward {
                "p.goForward()"
            } else {
                "p.reload()"
            };
            let mut body = concat3("  await ", action, ";\n");
            body.append(URL_AND_TITLE);
            let script = page_script_exec(false, url.as_str(), body.as_str());
            return Ok(BrowserStep::Script { script, follow: ScriptFollow::TrackUrl { session_id: String::from_str(sid) } });
        }
        let m = concat3("unsupported browser operation '", op, "'");
        Err(CapabilityError { code: CapabilityErrorCode::Unsupported, message: m, retryable: false })
    }

    /// Plans a browser request with a fresh identity and the current time.
    pub fn begin(&mut self, op: &str, input: &BrowserInput) -> (r: Result<BrowserStep, CapabilityError>)
        ensures
            exists|id: Seq<char>, now: u64|
                #[trigger] prepared(old(self).sessions(), old(self).temp_view(), op@, input@, id, now) == (
                    final(self).sessions(),
                    outcome_view(r),
                ),
            r matches Err(e) ==> !e.retryable,
            final(self).provider_view() == old(self).provider_view(),
            final(self).runtime_view() == old(self).runtime_view(),
            final(self).temp_view() == old(self).temp_view(),
    {
        let id = fresh_id("");
        let now = now_ms();
        let r = self.prepare(op, input, id.as_str(), now);
        r
    }

    /// Follows up on a script's result, given the URL it reports, if any.
    pub fn finish(&mut self, follow: &ScriptFollow, result_url: Option<&str>)
        ensures
            final(self).sessions() == followed(
                old(self).sessions(),
                follow@,
                match result_url {
                    Some(u) => Some(u@),
                    None => None,
                },
            ),
            final(self).provider_view() == old(self).provider_view(),
            final(self).runtime_view() == old(self).runtime_view(),
            final(self).temp_view() == old(self).temp_view(),
    {
        match (follow, result_url) {
            (ScriptFollow::TrackUrl { session_id }, Some(u)) => self.update_session_url(session_id.as_str(), u),
            (ScriptFollow::Clicked { session_id }, Some(u)) => self.update_session_url(session_id.as_str(), u),
            _ => {},
        }
    }

    /// What a browser request reports as its side effect.
    pub fn side_effects(op: &str) -> (r: Vec<String>)
        ensures
            strs(r@) == seq![op@ + ".executed"@],
    {
        let mut r: Vec<String> = Vec::new();
        r.push(concat2(op, ".executed"));
        assert(strs(r@) =~= seq![op@ + ".executed"@]);
        r
    }
}


proof fn lemma_close_is_not_an_earlier_capability()
    ensures
        "browser.close"@ != "browser.open"@,
        "browser.close"@ != "browser.navigate"@,
        "browser.close"@ != "browser.read"@,
        "browser.close"@ != "browser.click"@,
        "browser.close"@ != "browser.type"@,
        "browser.close"@ != "browser.screenshot"@,
{
    reveal_strlit("browser.close");
    reveal_strlit("browser.open");
    reveal_strlit("browser.navigate");
    reveal_strlit("browser.read");
    reveal_strlit("browser.click");
    reveal_strlit("browser.type");
    reveal_strlit("browser.screenshot");
    assert("browser.close"@.len() == 13 && "browser.click"@.len() == 13);
    assert("browser.close"@[10] == 'o' && "browser.click"@[10] == 'i');
}

/// A logical session follows its page: a session opened on a URL is on that
/// URL, a script that reports a new URL moves the session there, and a closed
/// session is forgotten, so that it is back on a blank page.
pub proof fn law_sessions_follow_their_page(
    m: Map<Seq<char>, SessionView>,
    temp: Seq<char>,
    input: BrowserInputView,
    id: Seq<char>,
    now: u64,
    session_id: Seq<char>,
    url: Seq<char>,
)
    ensures
        session_url_of(prepared(m, temp, "browser.open"@, input, id, now).0, id) == text_or(input.url, "about:blank"@),
        m.contains_key(session_id) ==> session_url_of(followed(m, FollowView::TrackUrl(session_id), Some(url)), session_id)
            == url,
        input.session_id == Some(session_id) ==> session_url_of(
            prepared(m, temp, "browser.close"@, input, id, now).0,
            session_id,
        ) == "about:blank"@,
{
    lemma_close_is_not_an_earlier_capability();
}

} // verus!

