//! Applications on the host: how the executables found on the search path
//! become application records, and how a search or a launch is decided.
use vstd::prelude::*;
use crate::capability::model::{CapabilityError, CapabilityErrorCode};
use crate::capability::native::{app_views, err, first_with_id, ApplicationRecord, ApplicationRegistry, ApplicationView};
use crate::capability::gui_test::{notepad_application, GOLDEN_TITLE_MARKER};
use crate::text::{chars_of, concat2, concat3, lower, string_of, to_lower};

verus! {

/// A directory entry found on the search path: its full path, its file name,
/// and whether it is a regular file.
pub struct DirItem {
    pub path: String,
    pub file_name: String,
    pub is_file: bool,
}

/// A directory entry as a value.
pub struct DirItemView {
    pub path: Seq<char>,
    pub file_name: Seq<char>,
    pub is_file: bool,
}

impl View for DirItem {
    type V = DirItemView;

    open spec fn view(&self) -> DirItemView {
        DirItemView { path: self.path@, file_name: self.file_name@, is_file: self.is_file }
    }
}

/// The views of a directory's entries.
pub open spec fn item_views(v: Seq<DirItem>) -> Seq<DirItemView> {
    v.map_values(|d: DirItem| d@)
}

/// The views of the entries of several directories.
pub open spec fn dir_views(v: Seq<Vec<DirItem>>) -> Seq<Seq<DirItemView>> {
    v.map_values(|d: Vec<DirItem>| item_views(d@))
}

/// The position of the last `.` in a file name.
pub open spec fn last_dot(name: Seq<char>) -> Option<int>
    decreases name.len(),
{
    if name.len() == 0 {
        None
    } else if name.last() == '.' {
        Some(name.len() - 1)
    } else {
        last_dot(name.drop_last())
    }
}

/// The stem of a file name, as `Path::file_stem` gives it: the part before the
/// last `.`, or the whole name where the only `.` begins it or there is none.
pub open spec fn file_stem(name: Seq<char>) -> Seq<char> {
    match last_dot(name) {
        Some(i) => if i > 0 {
            name.take(i)
        } else {
            name
        },
        None => name,
    }
}

/// The extension of a file name, as `Path::extension` gives it: the part after
/// the last `.`, unless the only `.` begins the name or there is none.
pub open spec fn file_extension(name: Seq<char>) -> Option<Seq<char>> {
    match last_dot(name) {
        Some(i) => if i > 0 {
            Some(name.skip(i + 1))
        } else {
            None
        },
        None => None,
    }
}

proof fn lemma_last_dot_in_range(name: Seq<char>)
    ensures
        last_dot(name) matches Some(i) ==> 0 <= i < name.len() && name[i] == '.',
    decreases name.len(),
{
    if name.len() > 0 && name.last() != '.' {
        lemma_last_dot_in_range(name.drop_last());
    }
}

fn last_dot_exec(name: &Vec<char>) -> (r: Option<usize>)
    ensures
        r is None ==> last_dot(name@) is None,
        r matches Some(i) ==> last_dot(name@) == Some(i as int) && i < name@.len(),
{
    proof {
        lemma_last_dot_in_range(name@);
    }
    let mut j: usize = name.len();
    assert(name@.take(name.len() as int) =~= name@);
    while j > 0
        invariant
            j <= name.len(),
            last_dot(name@) == last_dot(name@.take(j as int)),
        decreases j,
    {
        assert(name@.take(j as int).drop_last() =~= name@.take(j - 1));
        if name[j - 1] == '.' {
            return Some(j - 1);
        }
        j -= 1;
    }
    assert(name@.take(0) =~= Seq::<char>::empty());
    None
}

/// An executable on a host: on Windows one whose extension is `exe` in any
/// letter case, elsewhere any file.
pub open spec fn executable_on(name: Seq<char>, windows: bool) -> bool {
    !windows || (file_extension(name) matches Some(e) && lower(e) == "exe"@)
}

/// The application record of an executable found on the search path: named by
/// its file stem and identified by its path.
pub open spec fn found_application(item: DirItemView, runtime_id: Seq<char>) -> ApplicationView {
    ApplicationView {
        application_id: "app:"@ + item.path,
        name: file_stem(item.file_name),
        display_name: file_stem(item.file_name),
        executable: item.path,
        runtime_id,
    }
}

/// The entry becomes an application: a file, executable on the host, with a
/// stem that is not empty.
pub open spec fn is_candidate(item: DirItemView, windows: bool) -> bool {
    item.is_file && executable_on(item.file_name, windows) && file_stem(item.file_name).len() > 0
}

/// At most the first 256 entries of a directory are looked at.
pub open spec fn first_entries(d: Seq<DirItemView>) -> Seq<DirItemView> {
    if d.len() > 256 {
        d.take(256)
    } else {
        d
    }
}

/// The entries looked at, directory after directory.
pub open spec fn looked_at(dirs: Seq<Seq<DirItemView>>) -> Seq<DirItemView>
    decreases dirs.len(),
{
    if dirs.len() == 0 {
        Seq::empty()
    } else {
        looked_at(dirs.drop_last()) + first_entries(dirs.last())
    }
}

/// The applications found among entries, in order; a path already found is
/// not found again.
pub open spec fn found_among(items: Seq<DirItemView>, windows: bool, runtime_id: Seq<char>) -> Seq<ApplicationView>
    decreases items.len(),
{
    if items.len() == 0 {
        Seq::empty()
    } else {
        let prev = found_among(items.drop_last(), windows, runtime_id);
        let it = items.last();
        if is_candidate(it, windows) && !prev.map_values(|a: ApplicationView| a.executable).contains(it.path) {
            prev.push(found_application(it, runtime_id))
        } else {
            prev
        }
    }
}

/// The applications found on the search path.
pub open spec fn discovered(dirs: Seq<Seq<DirItemView>>, windows: bool, runtime_id: Seq<char>) -> Seq<
    ApplicationView,
> {
    found_among(looked_at(dirs), windows, runtime_id)
}

/// Whether an entry becomes an application.
fn is_candidate_exec(item: &DirItem, windows: bool) -> (r: bool)
    ensures
        r == is_candidate(item@, windows),
{
    if !item.is_file {
        return false;
    }
    let name = chars_of(item.file_name.as_str());
    let dot = last_dot_exec(&name);
    proof {
        lemma_last_dot_in_range(name@);
    }
    if windows {
        match dot {
            Some(i) => {
                if i == 0 {
                    return false;
                }
                let mut ext: Vec<char> = Vec::new();
                assert(i < name.len());
                let mut k: usize = i + 1;
                while k < name.len()
                    invariant
                        i + 1 <= k <= name.len(),
                        ext@ == crate::text::lower(name@.subrange(i + 1, k as int)),
                    decreases name.len() - k,
                {
                    ext.push(crate::text::lower_char_exec(name[k]));
                    assert(ext@ =~= crate::text::lower(name@.subrange(i + 1, k + 1)));
                    k += 1;
                }
                assert(name@.subrange(i + 1, name@.len() as int) =~= name@.skip(i + 1));
                if !crate::text::chars_eq(&ext, &chars_of("exe")) {
                    return false;
                }
            },
            None => {
                return false;
            },
        }
    }
    match dot {
        Some(i) => i != 0 || name.len() > 0,
        None => name.len() > 0,
    }
}

/// The application record of an executable found on the search path.
fn found_application_exec(item: &DirItem, runtime_id: &str) -> (r: ApplicationRecord)
    ensures
        r@ == found_application(item@, runtime_id@),
{
    let name = chars_of(item.file_name.as_str());
    let stem = match last_dot_exec(&name) {
        Some(i) => {
            if i > 0 {
                proof {
                    lemma_last_dot_in_range(name@);
                }
                let mut s: Vec<char> = Vec::new();
                let mut k: usize = 0;
                while k < i
                    invariant
                        k <= i,
                        i < name.len(),
                        s@ == name@.take(k as int),
                    decreases i - k,
                {
                    s.push(name[k]);
                    assert(s@ =~= name@.take(k + 1));
                    k += 1;
                }
                s
            } else {
                name
            }
        },
        None => name,
    };
    ApplicationRecord {
        application_id: concat2("app:", item.path.as_str()),
        name: string_of(&stem),
        display_name: string_of(&stem),
        executable: String::from_str(item.path.as_str()),
        runtime_id: String::from_str(runtime_id),
    }
}

/// Whether a path is among the executables of the records.
fn has_executable(found: &Vec<ApplicationRecord>, path: &str) -> (r: bool)
    ensures
        r == app_views(found@).map_values(|a: ApplicationView| a.executable).contains(path@),
{
    let ghost ex = app_views(found@).map_values(|a: ApplicationView| a.executable);
    let mut i: usize = 0;
    while i < found.len()
        invariant
            i <= found.len(),
            ex == app_views(found@).map_values(|a: ApplicationView| a.executable),
            forall|k: int| 0 <= k < i ==> ex[k] != path@,
        decreases found.len() - i,
    {
        assert(ex[i as int] == found@[i as int].executable@);
        if crate::text::str_eq(found[i].executable.as_str(), path) {
            return true;
        }
        i += 1;
    }
    false
}

/// A copy of application records.
pub fn clone_records(v: &Vec<ApplicationRecord>) -> (r: Vec<ApplicationRecord>)
    ensures
        app_views(r@) == app_views(v@),
{
    let mut r: Vec<ApplicationRecord> = Vec::new();
    let mut i: usize = 0;
    while i < v.len()
        invariant
            i <= v.len(),
            app_views(r@) == app_views(v@).take(i as int),
        decreases v.len() - i,
    {
        let ghost prev = r@;
        r.push(v[i].clone());
        assert(app_views(r@) =~= app_views(prev).push(v@[i as int]@));
        assert(app_views(v@).take(i + 1) =~= app_views(v@).take(i as int).push(v@[i as int]@));
        i += 1;
    }
    assert(app_views(v@).take(v.len() as int) =~= app_views(v@));
    r
}

impl ApplicationRegistry {
    /// Takes what the search path's directories hold as the known
    /// applications: in each directory the first 256 entries are looked at,
    /// and every file that is executable on the host and has a stem becomes an
    /// application, once for each path.
    pub fn discover(&mut self, dirs: &Vec<Vec<DirItem>>, windows: bool) -> (r: Vec<ApplicationRecord>)
        ensures
            app_views(r@) == discovered(dir_views(dirs@), windows, old(self).runtime_view()),
            final(self).entries() == app_views(r@),
            final(self).runtime_view() == old(self).runtime_view(),
    {
        let ghost dv = dir_views(dirs@);
        let ghost rt = self.runtime_view();
        let mut found: Vec<ApplicationRecord> = Vec::new();
        let mut d: usize = 0;
        while d < dirs.len()
            invariant
                d <= dirs.len(),
                dv == dir_views(dirs@),
                rt == self.runtime_view(),
                app_views(found@) == found_among(looked_at(dv.take(d as int)), windows, rt),
            decreases dirs.len() - d,
        {
            let items = &dirs[d];
            let n: usize = if items.len() > 256 {
                256
            } else {
                items.len()
            };
            let ghost before = looked_at(dv.take(d as int));
            let ghost firsts = first_entries(dv[d as int]);
            assert(dv[d as int] == item_views(items@));
            assert(firsts =~= item_views(items@).take(n as int));
            assert(dv.take(d + 1).drop_last() =~= dv.take(d as int));
            assert(looked_at(dv.take(d + 1)) =~= before + firsts);
            let mut j: usize = 0;
            assert(before + firsts.take(0) =~= before);
            while j < n
                invariant
                    j <= n <= items.len(),
                    items == &dirs[d as int],
                    firsts == item_views(items@).take(n as int),
                    rt == self.runtime_view(),
                    app_views(found@) == found_among(before + firsts.take(j as int), windows, rt),
                decreases n - j,
            {
                let item = &items[j];
                let ghost seen = before + firsts.take(j as int);
                assert((before + firsts.take(j + 1)).drop_last() =~= seen);
                assert((before + firsts.take(j + 1)).last() == item@);
                let path_known = has_executable(&found, item.path.as_str());
                if is_candidate_exec(item, windows) && !path_known {
                    let ghost prev = found@;
                    let rec = found_application_exec(item, self.runtime_id());
                    found.push(rec);
                    assert(app_views(found@) =~= app_views(prev).push(found_application(item@, rt)));
                }
                j += 1;
            }
            assert(firsts.take(n as int) =~= firsts);
            d += 1;
        }
        assert(dv.take(dirs.len() as int) =~= dv);
        self.replace_entries(clone_records(&found));
        found
    }

    /// The first known application with the identity; where none is known,
    /// the search path's directories are taken as the known applications (as
    /// `discover` does) and the first discovered one with the identity is
    /// returned.
    pub fn find(&mut self, id: &str, dirs: &Vec<Vec<DirItem>>, windows: bool) -> (r: Option<
        ApplicationRecord,
    >)
        ensures
            final(self).runtime_view() == old(self).runtime_view(),
            first_with_id(old(self).entries(), id@) matches Some(i) ==> (final(self).entries() == old(self).entries()
                && (r matches Some(a) && a@ == old(self).entries()[i])),
            first_with_id(old(self).entries(), id@) is None ==> ({
                let d = discovered(dir_views(dirs@), windows, old(self).runtime_view());
                &&& final(self).entries() == d
                &&& match first_with_id(d, id@) {
                    Some(i) => r matches Some(a) && a@ == d[i],
                    None => r is None,
                }
            }),
    {
        let known = self.find_known(id);
        if known.is_some() {
            return known;
        }
        self.discover(dirs, windows);
        self.find_known(id)
    }
}


/// The application a search finds by name on the search path: its file named
/// by the lower-cased query.
pub fn path_match(path: &str, query: &str, runtime_id: &str) -> (r: ApplicationRecord)
    ensures
        r@ == (ApplicationView {
            application_id: "app:"@ + path@,
            name: lower(query@),
            display_name: lower(query@),
            executable: path@,
            runtime_id: runtime_id@,
        }),
{
    let q = to_lower(query);
    ApplicationRecord {
        application_id: concat2("app:", path),
        name: string_of(&q),
        display_name: string_of(&q),
        executable: String::from_str(path),
        runtime_id: String::from_str(runtime_id),
    }
}

/// The refusal of a search that finds nothing.
pub fn search_not_found(query: &str) -> (r: CapabilityError)
    ensures
        r.code == CapabilityErrorCode::ApplicationNotFound,
        r.message@ == "no dynamically discovered application matches '"@ + lower(query@) + "'"@,
        !r.retryable,
{
    let q = string_of(&to_lower(query));
    let m = concat3("no dynamically discovered application matches '", q.as_str(), "'");
    CapabilityError { code: CapabilityErrorCode::ApplicationNotFound, message: m, retryable: false }
}

/// The title a launched application's window is looked for by: the golden
/// marker in the test mode, else the display name, or the name where the
/// display name is empty.
pub fn window_title_hint(gui_test: bool, app: &ApplicationRecord) -> (r: String)
    ensures
        gui_test ==> r@ == GOLDEN_TITLE_MARKER@,
        !gui_test && app.display_name@.len() == 0 ==> r@ == app.name@,
        !gui_test && app.display_name@.len() > 0 ==> r@ == app.display_name@,
{
    if gui_test {
        String::from_str(GOLDEN_TITLE_MARKER)
    } else if app.display_name.as_str().unicode_len() == 0 {
        String::from_str(app.name.as_str())
    } else {
        String::from_str(app.display_name.as_str())
    }
}

/// The program a launch runs: in the test mode Notepad is replaced by the
/// isolated Notepad where one was found; otherwise the application's own
/// executable.
pub fn launch_executable(gui_test: bool, app: &ApplicationRecord, isolated: Option<&str>) -> (r: String)
    ensures
        gui_test && notepad_application(app.name@, app.executable@) && isolated is Some ==> r@ == isolated->0@,
        !(gui_test && notepad_application(app.name@, app.executable@) && isolated is Some) ==> r@
            == app.executable@,
{
    if gui_test && crate::capability::gui_test::is_notepad_application(app.name.as_str(), app.executable.as_str()) {
        match isolated {
            Some(p) => return String::from_str(p),
            None => {},
        }
    }
    String::from_str(app.executable.as_str())
}

/// What an application request asks for.
#[derive(Debug, PartialEq, Eq)]
pub enum ApplicationOperation {
    List,
    Search { query: String },
    Inspect { application_id: String },
    Open { application_id: String },
}

/// The operation an application request asks for, from its capability and
/// its `query` and `application_id` fields.
pub fn application_operation(op: &str, query: Option<&str>, application_id: Option<&str>) -> (r: Result<
    ApplicationOperation,
    CapabilityError,
>)
    ensures
        op@ == "application.list"@ ==> r matches Ok(ApplicationOperation::List),
        op@ != "application.list"@ && op@ == "application.search"@ ==> match query {
            Some(q) => r matches Ok(ApplicationOperation::Search { query: rq }) && rq@ == q@,
            None => r matches Err(e) && e.code == CapabilityErrorCode::InvalidInput && e.message@
                == "input.query is required"@,
        },
        op@ != "application.list"@ && op@ != "application.search"@ && (op@ == "application.inspect"@ || op@
            == "application.open"@) ==> match application_id {
            Some(id) => if op@ == "application.inspect"@ {
                r matches Ok(ApplicationOperation::Inspect { application_id: rid }) && rid@ == id@
            } else {
                r matches Ok(ApplicationOperation::Open { application_id: rid }) && rid@ == id@
            },
            None => r matches Err(e) && e.code == CapabilityErrorCode::InvalidInput && e.message@
                == "input.application_id is required"@,
        },
        !(op@ == "application.list"@ || op@ == "application.search"@ || op@ == "application.inspect"@ || op@
            == "application.open"@) ==> (r matches Err(e) && e.code == CapabilityErrorCode::Unsupported
            && e.message@ == "unsupported application operation"@),
        r matches Err(e) ==> !e.retryable,
{
    if crate::text::str_eq(op, "application.list") {
        return Ok(ApplicationOperation::List);
    }
    if crate::text::str_eq(op, "application.search") {
        return match query {
            Some(q) => Ok(ApplicationOperation::Search { query: String::from_str(q) }),
            None => Err(err(CapabilityErrorCode::InvalidInput, "input.query is required")),
        };
    }
    let inspect = crate::text::str_eq(op, "application.inspect");
    if inspect || crate::text::str_eq(op, "application.open") {
        let id = match application_id {
            Some(id) => String::from_str(id),
            None => return Err(err(CapabilityErrorCode::InvalidInput, "input.application_id is required")),
        };
        return if inspect {
            Ok(ApplicationOperation::Inspect { application_id: id })
        } else {
            Ok(ApplicationOperation::Open { application_id: id })
        };
    }
    Err(err(CapabilityErrorCode::Unsupported, "unsupported application operation"))
}

/// The refusal to inspect an application that is not found.
pub fn not_discoverable() -> (r: CapabilityError)
    ensures
        r.code == CapabilityErrorCode::ApplicationNotFound,
        r.message@ == "application is not currently discoverable"@,
        !r.retryable,
{
    err(CapabilityErrorCode::ApplicationNotFound, "application is not currently discoverable")
}

/// The refusal to open an application that is not found.
pub fn not_discovered_for_open() -> (r: CapabilityError)
    ensures
        r.code == CapabilityErrorCode::ApplicationNotFound,
        r.message@ == "application must be dynamically discovered before it can be opened"@,
        !r.retryable,
{
    err(CapabilityErrorCode::ApplicationNotFound, "application must be dynamically discovered before it can be opened")
}

/// What an application request changes: opening one starts it.
pub fn application_side_effects(op: &str) -> (r: Vec<String>)
    ensures
        op@ == "application.open"@ ==> crate::text::strs(r@) == seq!["application.started"@],
        op@ != "application.open"@ ==> crate::text::strs(r@) == Seq::<Seq<char>>::empty(),
{
    let mut r: Vec<String> = Vec::new();
    if crate::text::str_eq(op, "application.open") {
        r.push(String::from_str("application.started"));
    }
    assert(crate::text::strs(r@) =~= (if op@ == "application.open"@ {
        seq!["application.started"@]
    } else {
        Seq::<Seq<char>>::empty()
    }));
    r
}


proof fn lemma_found_among_distinct(items: Seq<DirItemView>, windows: bool, runtime_id: Seq<char>)
    ensures
        found_among(items, windows, runtime_id).map_values(|a: ApplicationView| a.executable).no_duplicates(),
    decreases items.len(),
{
    if items.len() > 0 {
        lemma_found_among_distinct(items.drop_last(), windows, runtime_id);
        let prev = found_among(items.drop_last(), windows, runtime_id);
        let it = items.last();
        let ex = prev.map_values(|a: ApplicationView| a.executable);
        if is_candidate(it, windows) && !ex.contains(it.path) {
            let next = prev.push(found_application(it, runtime_id));
            assert(next.map_values(|a: ApplicationView| a.executable) =~= ex.push(it.path));
        }
    }
}

/// Discovery finds each executable once: no two discovered applications share
/// a path, though the search path may name a directory twice.
pub proof fn law_discovery_finds_each_path_once(dirs: Seq<Seq<DirItemView>>, windows: bool, runtime_id: Seq<char>)
    ensures
        discovered(dirs, windows, runtime_id).map_values(|a: ApplicationView| a.executable).no_duplicates(),
{
    lemma_found_among_distinct(looked_at(dirs), windows, runtime_id);
}

} // verus!

