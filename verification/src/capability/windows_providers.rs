//! The Windows desktop providers' contracts: screen capture, windows, keyboard
//! and mouse, and how a window is named in requests.
use vstd::prelude::*;
use crate::capability::model::{
    basic_definition, CapabilityDefinition, CapabilityError, CapabilityErrorCode, CapabilityRuntime,
    DefinitionView, Idempotency, MetadataView, SecurityLevel,
};
use crate::capability::native::err;
use crate::capability::imaging::{base64_len, base64_standard, EncodedImage};
use crate::capability::model::now_ms;
use crate::virtualization::backend::fresh_id;
use crate::capability::registry::def_views;
use crate::text::{chars_of, starts_with, str_eq, strs};
use crate::capability::input_plans::{KeyEvent, MouseCommand};

verus! {

/// A Windows-only capability that needs its own permission.
pub open spec fn windows_definition(
    c: Seq<char>,
    description: Seq<char>,
    idempotency: Idempotency,
    security: SecurityLevel,
) -> DefinitionView {
    let base = basic_definition(c, description, seq![CapabilityRuntime::Windows], idempotency);
    DefinitionView {
        metadata: MetadataView { security_level: security, required_permissions: seq![c], ..base.metadata },
        ..base
    }
}

fn windows_definition_exec(c: &str, description: &str, idempotency: Idempotency, security: SecurityLevel) -> (r:
    CapabilityDefinition)
    ensures
        r@ == windows_definition(c@, description@, idempotency, security),
{
    let mut runtimes: Vec<CapabilityRuntime> = Vec::new();
    runtimes.push(CapabilityRuntime::Windows);
    let mut d = CapabilityDefinition::basic(c, description, runtimes, idempotency);
    d.metadata.security_level = security;
    let mut perms: Vec<String> = Vec::new();
    perms.push(String::from_str(c));
    d.metadata.required_permissions = perms;
    assert(runtimes@ =~= seq![CapabilityRuntime::Windows]);
    assert(d@.metadata.required_permissions =~= seq![c@]);
    d
}

/// Definitions for a list of capabilities sharing a description, idempotency
/// and security level.
fn uniform_definitions(
    caps: &[&'static str],
    description: &str,
    idempotency: Idempotency,
    security: SecurityLevel,
) -> (r: Vec<CapabilityDefinition>)
    ensures
        def_views(r@) == caps@.map_values(
            |c: &str| windows_definition(c@, description@, idempotency, security),
        ),
{
    let mut r: Vec<CapabilityDefinition> = Vec::new();
    let mut i: usize = 0;
    while i < caps.len()
        invariant
            i <= caps@.len(),
            def_views(r@) == caps@.take(i as int).map_values(
                |c: &str| windows_definition(c@, description@, idempotency, security),
            ),
        decreases caps@.len() - i,
    {
        let ghost prev = r@;
        r.push(windows_definition_exec(caps[i], description, idempotency, security));
        assert(def_views(r@) =~= def_views(prev).push(
            windows_definition(caps@[i as int]@, description@, idempotency, security),
        ));
        assert(caps@.take(i + 1) =~= caps@.take(i as int).push(caps@[i as int]));
        assert(def_views(r@) =~= caps@.take(i + 1).map_values(
            |c: &str| windows_definition(c@, description@, idempotency, security),
        ));
        i += 1;
    }
    assert(caps@.take(caps@.len() as int) =~= caps@);
    r
}

/// A captured screen: the PNG image, its size, when it was taken and the
/// identity it is kept under as an artifact.
pub struct ScreenCapture {
    pub image: EncodedImage,
    pub width: i32,
    pub height: i32,
    pub timestamp_ms: u64,
    pub artifact_id: String,
}

/// What a Windows input provider reports once it has sent a request's input:
/// the output `{"success": true}`, and the provider's side effects.
pub struct InputReport {
    pub success: bool,
    pub side_effects: Vec<String>,
}

/// Captures the primary monitor.
pub struct WindowsScreenCaptureProvider {
    pub provider_id: String,
    pub runtime_id: String,
}

impl WindowsScreenCaptureProvider {
    /// A capture reports no side effect; its image is its only artifact.
    pub fn side_effects(&self) -> (r: Vec<String>)
        ensures
            r@.len() == 0,
    {
        Vec::new()
    }

    pub fn new(provider_id: &str, runtime_id: &str) -> (r: Self)
        ensures
            r.provider_id@ == provider_id@,
            r.runtime_id@ == runtime_id@,
    {
        WindowsScreenCaptureProvider {
            provider_id: String::from_str(provider_id),
            runtime_id: String::from_str(runtime_id),
        }
    }

    /// Only `screen.capture` is served.
    pub fn check_capability(capability: &str) -> (r: Result<(), CapabilityError>)
        ensures
            capability@ == "screen.capture"@ ==> r is Ok,
            capability@ != "screen.capture"@ ==> (r matches Err(e) && e.code == CapabilityErrorCode::Unsupported
                && e.message@ == "Unsupported capability"@ && !e.retryable),
    {
        if str_eq(capability, "screen.capture") {
            Ok(())
        } else {
            Err(err(CapabilityErrorCode::Unsupported, "Unsupported capability"))
        }
    }

    /// The report of a capture encoded as PNG: the image as base64 text, its
    /// size, the time now and a fresh artifact identity.
    pub fn capture_output(png: &[u8], width: i32, height: i32) -> (r: ScreenCapture)
        requires
            base64_len(png@.len()) <= usize::MAX,
        ensures
            r.image.image_b64@ == base64_standard(png@),
            r.image.format@ == "png"@,
            r.width == width,
            r.height == height,
            r.artifact_id@.len() == 36,
    {
        let artifact_id = fresh_id("");
        proof {
            reveal_strlit("");
        }
        ScreenCapture { image: EncodedImage::png(png), width, height, timestamp_ms: now_ms(), artifact_id }
    }

    /// Screen capture: read-only but sensitive.
    pub fn definitions(&self) -> (r: Vec<CapabilityDefinition>)
        ensures
            def_views(r@) == seq![
                windows_definition(
                    "screen.capture"@,
                    "Capture the primary monitor"@,
                    Idempotency::ReadOnly,
                    SecurityLevel::Sensitive,
                ),
            ],
    {
        let mut r: Vec<CapabilityDefinition> = Vec::new();
        r.push(
            windows_definition_exec(
                "screen.capture",
                "Capture the primary monitor",
                Idempotency::ReadOnly,
                SecurityLevel::Sensitive,
            ),
        );
        assert(def_views(r@) =~= seq![
            windows_definition(
                "screen.capture"@,
                "Capture the primary monitor"@,
                Idempotency::ReadOnly,
                SecurityLevel::Sensitive,
            ),
        ]);
        r
    }
}

/// Lists, inspects, focuses and arranges windows.
pub struct WindowsWindowProvider {
    pub provider_id: String,
    pub runtime_id: String,
}

/// The window capabilities, in order.
pub open spec fn window_capabilities() -> Seq<Seq<char>> {
    seq![
        "window.list"@,
        "window.inspect"@,
        "window.focus"@,
        "window.close"@,
        "window.minimize"@,
        "window.maximize"@,
        "window.move"@,
        "window.resize"@,
        "window.activate"@,
    ]
}

/// Listing and inspecting windows are read-only and low in security; the
/// other window operations change state and are sensitive.
pub open spec fn window_definition(c: Seq<char>) -> DefinitionView {
    let reads = starts_with(c, "window.list"@) || starts_with(c, "window.inspect"@);
    windows_definition(
        c,
        "Window management operation"@,
        if reads {
            Idempotency::ReadOnly
        } else {
            Idempotency::NonIdempotent
        },
        if c == "window.list"@ || c == "window.inspect"@ {
            SecurityLevel::Low
        } else {
            SecurityLevel::Sensitive
        },
    )
}

impl WindowsWindowProvider {
    /// Window operations report no side effect.
    pub fn side_effects(&self) -> (r: Vec<String>)
        ensures
            r@.len() == 0,
    {
        Vec::new()
    }

    pub fn new(provider_id: &str, runtime_id: &str) -> (r: Self)
        ensures
            r.provider_id@ == provider_id@,
            r.runtime_id@ == runtime_id@,
    {
        WindowsWindowProvider { provider_id: String::from_str(provider_id), runtime_id: String::from_str(runtime_id) }
    }

    /// One definition per window capability.
    pub fn definitions(&self) -> (r: Vec<CapabilityDefinition>)
        ensures
            def_views(r@) == window_capabilities().map_values(|c: Seq<char>| window_definition(c)),
    {
        let caps: [&'static str; 9] = [
            "window.list",
            "window.inspect",
            "window.focus",
            "window.close",
            "window.minimize",
            "window.maximize",
            "window.move",
            "window.resize",
            "window.activate",
        ];
        let ghost cv = caps@.map_values(|c: &str| c@);
        assert(cv =~= window_capabilities());
        let mut r: Vec<CapabilityDefinition> = Vec::new();
        let mut i: usize = 0;
        while i < 9
            invariant
                i <= 9,
                cv == caps@.map_values(|c: &str| c@),
                def_views(r@) == cv.take(i as int).map_values(|c: Seq<char>| window_definition(c)),
            decreases 9 - i,
        {
            let c = caps[i];
            let chars = chars_of(c);
            let reads = crate::text::starts_with_lit(&chars, "window.list") || crate::text::starts_with_lit(
                &chars,
                "window.inspect",
            );
            let low = str_eq(c, "window.list") || str_eq(c, "window.inspect");
            let ghost prev = r@;
            r.push(
                windows_definition_exec(
                    c,
                    "Window management operation",
                    if reads {
                        Idempotency::ReadOnly
                    } else {
                        Idempotency::NonIdempotent
                    },
                    if low {
                        SecurityLevel::Low
                    } else {
                        SecurityLevel::Sensitive
                    },
                ),
            );
            assert(cv[i as int] == c@);
            assert(def_views(r@) =~= def_views(prev).push(window_definition(c@)));
            assert(cv.take(i + 1) =~= cv.take(i as int).push(c@));
            assert(def_views(r@) =~= cv.take(i + 1).map_values(|c: Seq<char>| window_definition(c)));
            i += 1;
        }
        assert(cv.take(9) =~= cv);
        r
    }
}

/// Types text and presses keys.
pub struct WindowsKeyboardProvider {
    pub provider_id: String,
    pub runtime_id: String,
}

impl WindowsKeyboardProvider {
    /// The report of a keyboard request once its keys are sent: success, with
    /// no side effect reported.
    pub fn report(&self, events: &Vec<KeyEvent>) -> (r: InputReport)
        ensures
            r.success,
            r.side_effects@.len() == 0,
    {
        InputReport { success: true, side_effects: Vec::new() }
    }

    pub fn new(provider_id: &str, runtime_id: &str) -> (r: Self)
        ensures
            r.provider_id@ == provider_id@,
            r.runtime_id@ == runtime_id@,
    {
        WindowsKeyboardProvider { provider_id: String::from_str(provider_id), runtime_id: String::from_str(runtime_id) }
    }

    /// Typing, pressing keys and hotkeys: sensitive, not idempotent.
    pub fn definitions(&self) -> (r: Vec<CapabilityDefinition>)
        ensures
            def_views(r@) == seq!["keyboard.type"@, "keyboard.press"@, "keyboard.hotkey"@].map_values(
                |c: Seq<char>|
                    windows_definition(c, "Keyboard operation"@, Idempotency::NonIdempotent, SecurityLevel::Sensitive),
            ),
    {
        let caps: [&'static str; 3] = ["keyboard.type", "keyboard.press", "keyboard.hotkey"];
        let r = uniform_definitions(&caps, "Keyboard operation", Idempotency::NonIdempotent, SecurityLevel::Sensitive);
        assert(caps@.map_values(
            |c: &str| windows_definition(c@, "Keyboard operation"@, Idempotency::NonIdempotent, SecurityLevel::Sensitive),
        ) =~= seq!["keyboard.type"@, "keyboard.press"@, "keyboard.hotkey"@].map_values(
            |c: Seq<char>|
                windows_definition(c, "Keyboard operation"@, Idempotency::NonIdempotent, SecurityLevel::Sensitive),
        ));
        r
    }
}

/// Moves the pointer, clicks and scrolls.
pub struct WindowsMouseProvider {
    pub provider_id: String,
    pub runtime_id: String,
}

impl WindowsMouseProvider {
    /// The report of a mouse request once its events are sent: success, with
    /// the coordinate input as the side effect, whatever the events were.
    pub fn report(&self, command: &MouseCommand) -> (r: InputReport)
        ensures
            r.success,
            strs(r.side_effects@) == seq!["mouse.coordinate_input"@],
    {
        let mut side_effects: Vec<String> = Vec::new();
        side_effects.push(String::from_str("mouse.coordinate_input"));
        assert(strs(side_effects@) =~= seq!["mouse.coordinate_input"@]);
        InputReport { success: true, side_effects }
    }

    pub fn new(provider_id: &str, runtime_id: &str) -> (r: Self)
        ensures
            r.provider_id@ == provider_id@,
            r.runtime_id@ == runtime_id@,
    {
        WindowsMouseProvider { provider_id: String::from_str(provider_id), runtime_id: String::from_str(runtime_id) }
    }

    /// Moving, clicking, double and right clicking and scrolling: sensitive,
    /// not idempotent.
    pub fn definitions(&self) -> (r: Vec<CapabilityDefinition>)
        ensures
            def_views(r@) == seq![
                "mouse.move"@,
                "mouse.click"@,
                "mouse.double_click"@,
                "mouse.right_click"@,
                "mouse.scroll"@,
            ].map_values(
                |c: Seq<char>|
                    windows_definition(c, "Mouse operation"@, Idempotency::NonIdempotent, SecurityLevel::Sensitive),
            ),
    {
        let caps: [&'static str; 5] = [
            "mouse.move",
            "mouse.click",
            "mouse.double_click",
            "mouse.right_click",
            "mouse.scroll",
        ];
        let r = uniform_definitions(&caps, "Mouse operation", Idempotency::NonIdempotent, SecurityLevel::Sensitive);
        assert(caps@.map_values(
            |c: &str| windows_definition(c@, "Mouse operation"@, Idempotency::NonIdempotent, SecurityLevel::Sensitive),
        ) =~= seq![
            "mouse.move"@,
            "mouse.click"@,
            "mouse.double_click"@,
            "mouse.right_click"@,
            "mouse.scroll"@,
        ].map_values(
            |c: Seq<char>|
                windows_definition(c, "Mouse operation"@, Idempotency::NonIdempotent, SecurityLevel::Sensitive),
        ));
        r
    }
}

/// The value of a string of decimal digits.
pub open spec fn digits_value(s: Seq<char>) -> nat
    decreases s.len(),
{
    if s.len() == 0 {
        0
    } else {
        digits_value(s.drop_last()) * 10 + ((s.last() as u32) - ('0' as u32)) as nat
    }
}

/// Every character is a decimal digit.
pub open spec fn all_digits(s: Seq<char>) -> bool {
    forall|i: int| 0 <= i < s.len() ==> '0' <= #[trigger] s[i] && s[i] <= '9'
}

/// What `usize::from_str` accepts: an optional `+` and at least one digit,
/// with a value that fits.
pub open spec fn parsed_usize(s: Seq<char>) -> Option<nat> {
    let d = if s.len() > 0 && s[0] == '+' {
        s.drop_first()
    } else {
        s
    };
    if d.len() > 0 && all_digits(d) && digits_value(d) <= usize::MAX {
        Some(digits_value(d))
    } else {
        None
    }
}

/// The handle a window identity `hwnd:<number>` names.
pub open spec fn window_handle_spec(window_id: Seq<char>) -> Option<nat> {
    if starts_with(window_id, "hwnd:"@) {
        parsed_usize(window_id.subrange(5, window_id.len() as int))
    } else {
        None
    }
}

/// The window handle a request names as `hwnd:<number>`.
pub fn hwnd_from_window_id(window_id: &str) -> (r: Result<usize, CapabilityError>)
    ensures
        match window_handle_spec(window_id@) {
            Some(h) => r matches Ok(v) && v == h,
            None => r matches Err(e) && e.code == CapabilityErrorCode::InvalidInput && e.message@
                == "Invalid window_id format"@ && !e.retryable,
        },
{
    let v = chars_of(window_id);
    if !crate::text::starts_with_lit(&v, "hwnd:") {
        return Err(err(CapabilityErrorCode::InvalidInput, "Invalid window_id format"));
    }
    proof {
        reveal_strlit("hwnd:");
    }
    let mut start: usize = 5;
    if v.len() > 5 && v[5] == '+' {
        start = 6;
    }
    let ghost rest = v@.subrange(5, v@.len() as int);
    let ghost d = if rest.len() > 0 && rest[0] == '+' {
        rest.drop_first()
    } else {
        rest
    };
    assert(d =~= v@.subrange(start as int, v@.len() as int));
    if start >= v.len() {
        return Err(err(CapabilityErrorCode::InvalidInput, "Invalid window_id format"));
    }
    let mut value: usize = 0;
    let mut i: usize = start;
    while i < v.len()
        invariant
            start <= i <= v.len(),
            d =~= v@.subrange(start as int, v@.len() as int),
            v@ == window_id@,
            starts_with(window_id@, "hwnd:"@),
            rest == v@.subrange(5, v@.len() as int),
            d == (if rest.len() > 0 && rest[0] == '+' {
                rest.drop_first()
            } else {
                rest
            }),
            all_digits(v@.subrange(start as int, i as int)),
            value == digits_value(v@.subrange(start as int, i as int)),
        decreases v.len() - i,
    {
        let c = v[i];
        assert(v@.subrange(start as int, i + 1).drop_last() =~= v@.subrange(start as int, i as int));
        if c < '0' || c > '9' {
            assert(d[i - start] == c);
            assert(!all_digits(d));
            assert(window_handle_spec(window_id@) == parsed_usize(rest));
            assert(parsed_usize(rest) is None);
            return Err(err(CapabilityErrorCode::InvalidInput, "Invalid window_id format"));
        }
        let digit: usize = (c as u32 - '0' as u32) as usize;
        if value > (usize::MAX - digit) / 10 {
            proof {
                lemma_digits_prefix_bound(d, (i - start) as int);
                assert(v@.subrange(start as int, i + 1) =~= d.subrange(0, (i - start) + 1));
                assert(digits_value(d.subrange(0, (i - start) + 1)) == value * 10 + digit);
                assert(value * 10 + digit > usize::MAX) by (nonlinear_arith)
                    requires value > (usize::MAX - digit) / 10, digit <= 9;
                assert(window_handle_spec(window_id@) == parsed_usize(rest));
                assert(parsed_usize(rest) is None);
            }
            return Err(err(CapabilityErrorCode::InvalidInput, "Invalid window_id format"));
        }
        value = value * 10 + digit;
        i += 1;
    }
    Ok(value)
}

/// A run of digits is worth at least any of its prefixes.
pub proof fn lemma_digits_prefix_bound(d: Seq<char>, k: int)
    requires
        0 <= k < d.len(),
    ensures
        all_digits(d) ==> digits_value(d) >= digits_value(d.subrange(0, k + 1)),
    decreases d.len(),
{
    if all_digits(d) && k + 1 < d.len() {
        assert(d.drop_last().subrange(0, k + 1) =~= d.subrange(0, k + 1));
        assert(all_digits(d.drop_last()));
        lemma_digits_prefix_bound(d.drop_last(), k);
    } else if k + 1 == d.len() {
        assert(d.subrange(0, k + 1) =~= d);
    }
}

} // verus!
