//! Finding the window of a launched application among the top-level windows,
//! and the key strokes that type a character through its virtual key.
use vstd::prelude::*;
use crate::capability::gui_test::{protected_title, test_owned_title};
use crate::capability::input_plans::{KeyCode, KeyEvent};
use crate::text::{chars_of, concat2, contains, decimal, decimal_string, lower, to_lower};

verus! {

/// A top-level window as the desktop reports it.
pub struct WindowInfo {
    pub handle: usize,
    pub visible: bool,
    pub process_id: u32,
    pub class_name: String,
    pub title: String,
}

/// A top-level window as a value.
pub struct WindowView {
    pub handle: usize,
    pub visible: bool,
    pub process_id: u32,
    pub class_name: Seq<char>,
    pub title: Seq<char>,
}

impl View for WindowInfo {
    type V = WindowView;

    open spec fn view(&self) -> WindowView {
        WindowView {
            handle: self.handle,
            visible: self.visible,
            process_id: self.process_id,
            class_name: self.class_name@,
            title: self.title@,
        }
    }
}

/// The views of a list of windows.
pub open spec fn window_views(v: Seq<WindowInfo>) -> Seq<WindowView> {
    v.map_values(|w: WindowInfo| w@)
}

/// Popups, input-method windows and tooltips are never a launched
/// application's window.
pub open spec fn auxiliary_class(class_name: Seq<char>) -> bool {
    contains(class_name, "Popup"@) || contains(class_name, "IME"@) || lower(class_name) == "tooltips_class32"@
}

/// The window is the launched application's: visible, not auxiliary, not
/// holding secrets, not one that was open before the launch, test-owned in
/// the test mode, and with a title that contains the lower-cased hint; when
/// the process is preferred it must belong to the process, otherwise it may
/// instead be of the hint's class or of Notepad's.
pub open spec fn is_launched_window(
    w: WindowView,
    process_id: u32,
    needle: Seq<char>,
    skip: Seq<usize>,
    prefer_process: bool,
    gui_test: bool,
) -> bool {
    let title_matches = needle.len() > 0 && contains(lower(w.title), needle);
    let class_matches = lower(w.class_name) == needle || lower(w.class_name) == "notepad"@;
    &&& w.visible
    &&& !auxiliary_class(w.class_name)
    &&& !protected_title(w.title)
    &&& !skip.contains(w.handle)
    &&& !(gui_test && !test_owned_title(w.title))
    &&& if prefer_process {
        w.process_id == process_id && title_matches
    } else {
        title_matches && (w.process_id == process_id || class_matches)
    }
}

/// The first window, in the desktop's order, that is the launched application's.
pub open spec fn first_launched(
    ws: Seq<WindowView>,
    process_id: u32,
    needle: Seq<char>,
    skip: Seq<usize>,
    prefer_process: bool,
    gui_test: bool,
) -> Option<WindowView>
    decreases ws.len(),
{
    if ws.len() == 0 {
        None
    } else if is_launched_window(ws[0], process_id, needle, skip, prefer_process, gui_test) {
        Some(ws[0])
    } else {
        first_launched(ws.drop_first(), process_id, needle, skip, prefer_process, gui_test)
    }
}

fn auxiliary_class_exec(class_name: &str) -> (r: bool)
    ensures
        r == auxiliary_class(class_name@),
{
    let c = chars_of(class_name);
    crate::text::contains_lit(&c, "Popup") || crate::text::contains_lit(&c, "IME") || crate::text::chars_eq(
        &to_lower(class_name),
        &chars_of("tooltips_class32"),
    )
}

fn skips(skip: &Vec<usize>, h: usize) -> (r: bool)
    ensures
        r == skip@.contains(h),
{
    let mut i: usize = 0;
    while i < skip.len()
        invariant
            i <= skip.len(),
            forall|k: int| 0 <= k < i ==> skip@[k] != h,
        decreases skip.len() - i,
    {
        if skip[i] == h {
            return true;
        }
        i += 1;
    }
    false
}

fn is_launched_window_exec(
    w: &WindowInfo,
    process_id: u32,
    needle: &Vec<char>,
    skip: &Vec<usize>,
    prefer_process: bool,
    gui_test: bool,
) -> (r: bool)
    ensures
        r == is_launched_window(w@, process_id, needle@, skip@, prefer_process, gui_test),
{
    if !w.visible || auxiliary_class_exec(w.class_name.as_str()) {
        return false;
    }
    if crate::capability::gui_test::is_protected_title(w.title.as_str()) || skips(skip, w.handle) {
        return false;
    }
    if gui_test && !crate::capability::gui_test::is_test_owned_title(w.title.as_str()) {
        return false;
    }
    let title_matches = needle.len() > 0 && crate::text::contains_exec(&to_lower(w.title.as_str()), needle);
    if prefer_process {
        return w.process_id == process_id && title_matches;
    }
    let class = to_lower(w.class_name.as_str());
    let class_matches = crate::text::chars_eq(&class, needle) || crate::text::chars_eq(&class, &chars_of("notepad"));
    title_matches && (w.process_id == process_id || class_matches)
}

/// The identity a window is named by in requests.
pub open spec fn window_identity(handle: usize) -> Seq<char> {
    "hwnd:"@ + decimal(handle as nat)
}

/// The launched application's window among the desktop's windows, with the
/// hint lower-cased: its identity and its title, or nothing where no window
/// qualifies.
pub fn pick_launched_window(
    windows: &Vec<WindowInfo>,
    process_id: u32,
    title_hint: &str,
    skip: &Vec<usize>,
    prefer_process: bool,
    gui_test: bool,
) -> (r: Option<(String, String)>)
    ensures
        match first_launched(window_views(windows@), process_id, lower(title_hint@), skip@, prefer_process, gui_test) {
            Some(w) => r matches Some((id, title)) && id@ == window_identity(w.handle) && title@ == w.title,
            None => r is None,
        },
{
    let needle = to_lower(title_hint);
    let ghost ws = window_views(windows@);
    let mut i: usize = 0;
    assert(ws.skip(0) =~= ws);
    while i < windows.len()
        invariant
            i <= windows.len(),
            ws == window_views(windows@),
            needle@ == lower(title_hint@),
            first_launched(ws, process_id, needle@, skip@, prefer_process, gui_test) == first_launched(
                ws.skip(i as int),
                process_id,
                needle@,
                skip@,
                prefer_process,
                gui_test,
            ),
        decreases windows.len() - i,
    {
        let w = &windows[i];
        assert(ws.skip(i as int)[0] == w@);
        if is_launched_window_exec(w, process_id, &needle, skip, prefer_process, gui_test) {
            let id = concat2("hwnd:", decimal_string(w.handle as u64).as_str());
            return Some((id, String::from_str(w.title.as_str())));
        }
        assert(ws.skip(i as int).drop_first() =~= ws.skip(i + 1));
        i += 1;
    }
    None
}

/// The visible windows with a title, in the desktop's order, whose
/// lower-cased title contains the lower-cased hint (every one for an empty
/// hint): the windows a launch must not take for its own.
pub open spec fn titled_windows(ws: Seq<WindowView>, needle: Seq<char>) -> Seq<usize>
    decreases ws.len(),
{
    if ws.len() == 0 {
        Seq::empty()
    } else {
        let prev = titled_windows(ws.drop_last(), needle);
        let w = ws.last();
        if w.visible && w.title.len() > 0 && (needle.len() == 0 || contains(lower(w.title), needle)) {
            prev.push(w.handle)
        } else {
            prev
        }
    }
}

/// The handles of the visible titled windows whose title contains the hint.
pub fn titled_window_ids(windows: &Vec<WindowInfo>, title_hint: &str) -> (r: Vec<usize>)
    ensures
        r@ == titled_windows(window_views(windows@), lower(title_hint@)),
{
    let needle = to_lower(title_hint);
    let ghost ws = window_views(windows@);
    let mut r: Vec<usize> = Vec::new();
    let mut i: usize = 0;
    while i < windows.len()
        invariant
            i <= windows.len(),
            ws == window_views(windows@),
            needle@ == lower(title_hint@),
            r@ == titled_windows(ws.take(i as int), needle@),
        decreases windows.len() - i,
    {
        assert(ws.take(i + 1).drop_last() =~= ws.take(i as int));
        assert(ws.take(i + 1).last() == windows@[i as int]@);
        let w = &windows[i];
        if w.visible && w.title.as_str().unicode_len() > 0 && (needle.len() == 0 || crate::text::contains_exec(
            &to_lower(w.title.as_str()),
            &needle,
        )) {
            r.push(w.handle);
        }
        i += 1;
    }
    assert(ws.take(windows.len() as int) =~= ws);
    r
}

/// The key strokes that type a character through the virtual key a keyboard
/// layout gives for it (`VkKeyScanW`'s result): nothing where the layout has
/// no key for it, else the key down and up, inside Shift down and up where the
/// layout needs Shift.
pub open spec fn scan_strokes(scan: i16) -> Seq<KeyEvent> {
    let vk = KeyCode::Virtual(((scan as u16) & 0xFF) as u16);
    let shift = KeyCode::Virtual(0x10);
    if scan == -1 {
        Seq::empty()
    } else if (scan as u16) & 0x100 != 0 {
        seq![
            KeyEvent { key: shift, up: false },
            KeyEvent { key: vk, up: false },
            KeyEvent { key: vk, up: true },
            KeyEvent { key: shift, up: true },
        ]
    } else {
        seq![KeyEvent { key: vk, up: false }, KeyEvent { key: vk, up: true }]
    }
}

/// The key strokes that type a character, from the layout's key for it.
pub fn scan_key_strokes(scan: i16) -> (r: Vec<KeyEvent>)
    ensures
        r@ == scan_strokes(scan),
{
    let mut r: Vec<KeyEvent> = Vec::new();
    if scan == -1 {
        assert(r@ =~= scan_strokes(scan));
        return r;
    }
    let bits: u16 = scan as u16;
    let vk = KeyCode::Virtual(bits & 0xFF);
    let shift = KeyCode::Virtual(0x10);
    let shifted = bits & 0x100 != 0;
    if shifted {
        r.push(KeyEvent { key: shift, up: false });
    }
    r.push(KeyEvent { key: vk, up: false });
    r.push(KeyEvent { key: vk, up: true });
    if shifted {
        r.push(KeyEvent { key: shift, up: true });
    }
    assert(r@ =~= scan_strokes(scan));
    r
}

} // verus!
