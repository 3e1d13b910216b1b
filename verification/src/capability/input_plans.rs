//! What the Windows desktop providers do for a request, decided before any
//! input reaches the system: which keys go down and up, which mouse events are
//! sent, and which window operation runs on which window.
use vstd::prelude::*;
use crate::capability::model::{CapabilityError, CapabilityErrorCode};
use crate::capability::native::err;
use crate::capability::windows_providers::{all_digits, digits_value, lemma_digits_prefix_bound, hwnd_from_window_id, window_handle_spec};
use crate::text::{chars_of, starts_with, str_eq, utf8_len};

verus! {

/// A key: a virtual-key code, or a character whose key the keyboard layout decides.
#[derive(Clone, Copy, Debug, PartialEq, Eq, Structural)]
pub enum KeyCode {
    Virtual(u16),
    Char(char),
}

/// A key going down or coming up.
#[derive(Clone, Copy, Debug, PartialEq, Eq, Structural)]
pub struct KeyEvent {
    pub key: KeyCode,
    pub up: bool,
}

/// What `str::to_lowercase` makes of a text: Unicode lower case.
pub uninterp spec fn unicode_lowercase(s: Seq<char>) -> Seq<char>;

/// `str::to_lowercase`.
#[verifier::external_body]
fn to_lowercase(s: &str) -> (r: String)
    ensures
        r@ == unicode_lowercase(s@),
{
    s.to_lowercase()
}

/// The virtual-key code of a named key.
pub open spec fn named_key(k: Seq<char>) -> Option<u16> {
    if k == "enter"@ {
        Some(0x0D)
    } else if k == "tab"@ {
        Some(0x09)
    } else if k == "escape"@ {
        Some(0x1B)
    } else if k == "space"@ {
        Some(0x20)
    } else if k == "backspace"@ {
        Some(0x08)
    } else if k == "delete"@ {
        Some(0x2E)
    } else if k == "up"@ {
        Some(0x26)
    } else if k == "down"@ {
        Some(0x28)
    } else if k == "left"@ {
        Some(0x25)
    } else if k == "right"@ {
        Some(0x27)
    } else if k == "home"@ {
        Some(0x24)
    } else if k == "end"@ {
        Some(0x23)
    } else if k == "pageup"@ {
        Some(0x21)
    } else if k == "pagedown"@ {
        Some(0x22)
    } else {
        None
    }
}

fn named_key_exec(k: &str) -> (r: Option<u16>)
    ensures
        r == named_key(k@),
{
    if str_eq(k, "enter") {
        Some(0x0D)
    } else if str_eq(k, "tab") {
        Some(0x09)
    } else if str_eq(k, "escape") {
        Some(0x1B)
    } else if str_eq(k, "space") {
        Some(0x20)
    } else if str_eq(k, "backspace") {
        Some(0x08)
    } else if str_eq(k, "delete") {
        Some(0x2E)
    } else if str_eq(k, "up") {
        Some(0x26)
    } else if str_eq(k, "down") {
        Some(0x28)
    } else if str_eq(k, "left") {
        Some(0x25)
    } else if str_eq(k, "right") {
        Some(0x27)
    } else if str_eq(k, "home") {
        Some(0x24)
    } else if str_eq(k, "end") {
        Some(0x23)
    } else if str_eq(k, "pageup") {
        Some(0x21)
    } else if str_eq(k, "pagedown") {
        Some(0x22)
    } else {
        None
    }
}

/// What `u16::from_str` accepts: an optional `+` and at least one digit,
/// with a value that fits.
pub open spec fn parsed_u16(s: Seq<char>) -> Option<nat> {
    let d = if s.len() > 0 && s[0] == '+' {
        s.drop_first()
    } else {
        s
    };
    if d.len() > 0 && all_digits(d) && digits_value(d) <= u16::MAX {
        Some(digits_value(d))
    } else {
        None
    }
}

fn parse_u16(v: &Vec<char>, from: usize) -> (r: Option<u16>)
    requires
        from <= v.len(),
    ensures
        match parsed_u16(v@.subrange(from as int, v@.len() as int)) {
            Some(n) => r matches Some(x) && x == n,
            None => r is None,
        },
{
    let ghost s = v@.subrange(from as int, v@.len() as int);
    let mut start = from;
    if start < v.len() && v[start] == '+' {
        start = start + 1;
    }
    let ghost d = if s.len() > 0 && s[0] == '+' {
        s.drop_first()
    } else {
        s
    };
    assert(d =~= v@.subrange(start as int, v@.len() as int));
    if start >= v.len() {
        return None;
    }
    let mut value: u32 = 0;
    let mut i: usize = start;
    while i < v.len()
        invariant
            start <= i <= v.len(),
            from <= start,
            d =~= v@.subrange(start as int, v@.len() as int),
            s == v@.subrange(from as int, v@.len() as int),
            d == (if s.len() > 0 && s[0] == '+' {
                s.drop_first()
            } else {
                s
            }),
            all_digits(v@.subrange(start as int, i as int)),
            value == digits_value(v@.subrange(start as int, i as int)),
            value <= u16::MAX,
        decreases v.len() - i,
    {
        let c = v[i];
        assert(v@.subrange(start as int, i + 1).drop_last() =~= v@.subrange(start as int, i as int));
        if c < '0' || c > '9' {
            assert(d[i - start] == c);
            assert(!all_digits(d));
            return None;
        }
        let digit: u32 = (c as u32 - '0' as u32);
        let next: u32 = value * 10 + digit;
        if next > 0xFFFF {
            proof {
                lemma_digits_prefix_bound(d, (i - start) as int);
                assert(v@.subrange(start as int, i + 1) =~= d.subrange(0, (i - start) + 1));
            }
            return None;
        }
        value = next;
        i += 1;
    }
    Some(value as u16)
}

/// The key a lower-cased key name presses: a named key, a function key
/// `f1` to `f24`, or a single one-byte character.
pub open spec fn key_for_press(k: Seq<char>) -> Option<KeyCode> {
    if named_key(k) is Some {
        Some(KeyCode::Virtual(named_key(k)->0))
    } else if starts_with(k, "f"@) && vstd::utf8::encode_utf8(k).len() > 1 {
        match parsed_u16(k.drop_first()) {
            Some(n) => if 1 <= n <= 24 {
                Some(KeyCode::Virtual((0x70 + n - 1) as u16))
            } else {
                None
            },
            None => None,
        }
    } else if vstd::utf8::encode_utf8(k).len() == 1 {
        Some(KeyCode::Char(k[0]))
    } else {
        None
    }
}

/// The key a lower-cased key name presses.
pub fn key_from_lowered(k: &str) -> (r: Result<KeyCode, CapabilityError>)
    ensures
        match key_for_press(k@) {
            Some(code) => r matches Ok(c) && c == code,
            None => r matches Err(e) && e.code == CapabilityErrorCode::InvalidInput && e.message@ == "Invalid key"@
                && !e.retryable,
        },
{
    if let Some(vk) = named_key_exec(k) {
        return Ok(KeyCode::Virtual(vk));
    }
    let v = chars_of(k);
    let bytes = utf8_len(&v);
    if crate::text::starts_with_lit(&v, "f") && bytes > 1 {
        proof {
            reveal_strlit("f");
            assert(v@.len() >= 1);
            assert(v@.subrange(1, v@.len() as int) =~= k@.drop_first());
        }
        match parse_u16(&v, 1) {
            Some(n) => {
                if 1 <= n && n <= 24 {
                    return Ok(KeyCode::Virtual(0x70 + n - 1));
                }
                return Err(err(CapabilityErrorCode::InvalidInput, "Invalid key"));
            },
            None => {
                return Err(err(CapabilityErrorCode::InvalidInput, "Invalid key"));
            },
        }
    }
    if bytes == 1 {
        proof {
            if v@.len() == 0 {
                assert(vstd::utf8::encode_utf8(v@) =~= Seq::<u8>::empty());
            }
        }
        return Ok(KeyCode::Char(v[0]));
    }
    Err(err(CapabilityErrorCode::InvalidInput, "Invalid key"))
}

/// Pressing a key: down, then up.
pub open spec fn press_events(k: KeyCode) -> Seq<KeyEvent> {
    seq![KeyEvent { key: k, up: false }, KeyEvent { key: k, up: true }]
}

/// The events of `keyboard.press`: the named key goes down and comes up.
pub fn press_key(key: Option<&str>) -> (r: Result<Vec<KeyEvent>, CapabilityError>)
    ensures
        match key {
            None => r matches Err(e) && e.code == CapabilityErrorCode::InvalidInput && e.message@ == "Missing key"@,
            Some(k) => match key_for_press(unicode_lowercase(k@)) {
                Some(code) => r matches Ok(events) && events@ == press_events(code),
                None => r matches Err(e) && e.code == CapabilityErrorCode::InvalidInput && e.message@
                    == "Invalid key"@,
            },
        },
        r matches Err(e) ==> !e.retryable,
{
    let k = match key {
        Some(k) => k,
        None => return Err(err(CapabilityErrorCode::InvalidInput, "Missing key")),
    };
    let lowered = to_lowercase(k);
    let code = key_from_lowered(lowered.as_str())?;
    let mut events: Vec<KeyEvent> = Vec::new();
    events.push(KeyEvent { key: code, up: false });
    events.push(KeyEvent { key: code, up: true });
    assert(events@ =~= press_events(code));
    Ok(events)
}

/// The key a lower-cased hotkey part names: a modifier or a single one-byte character.
pub open spec fn key_for_chord(k: Seq<char>) -> Option<KeyCode> {
    if k == "ctrl"@ {
        Some(KeyCode::Virtual(0x11))
    } else if k == "alt"@ {
        Some(KeyCode::Virtual(0x12))
    } else if k == "shift"@ {
        Some(KeyCode::Virtual(0x10))
    } else if k == "win"@ {
        Some(KeyCode::Virtual(0x5B))
    } else if vstd::utf8::encode_utf8(k).len() == 1 {
        Some(KeyCode::Char(k[0]))
    } else {
        None
    }
}

/// The key a lower-cased hotkey part names.
pub fn chord_key_from_lowered(k: &str) -> (r: Result<KeyCode, CapabilityError>)
    ensures
        match key_for_chord(k@) {
            Some(code) => r matches Ok(c) && c == code,
            None => r matches Err(e) && e.code == CapabilityErrorCode::InvalidInput && e.message@ == "Invalid key"@
                && !e.retryable,
        },
{
    if str_eq(k, "ctrl") {
        return Ok(KeyCode::Virtual(0x11));
    } else if str_eq(k, "alt") {
        return Ok(KeyCode::Virtual(0x12));
    } else if str_eq(k, "shift") {
        return Ok(KeyCode::Virtual(0x10));
    } else if str_eq(k, "win") {
        return Ok(KeyCode::Virtual(0x5B));
    }
    let v = chars_of(k);
    if utf8_len(&v) == 1 {
        proof {
            if v@.len() == 0 {
                assert(vstd::utf8::encode_utf8(v@) =~= Seq::<u8>::empty());
            }
        }
        return Ok(KeyCode::Char(v[0]));
    }
    Err(err(CapabilityErrorCode::InvalidInput, "Invalid key"))
}

/// A chord: every key goes down in order, then comes up in reverse order.
pub open spec fn chord_events(keys: Seq<KeyCode>) -> Seq<KeyEvent> {
    keys.map_values(|k: KeyCode| KeyEvent { key: k, up: false }) + keys.reverse().map_values(
        |k: KeyCode| KeyEvent { key: k, up: true },
    )
}

/// The keys of a hotkey, each part lower-cased; the first part that is not
/// text, or names no key, refuses the hotkey.
pub open spec fn chord_keys(parts: Seq<Option<Seq<char>>>) -> Result<Seq<KeyCode>, Seq<char>>
    decreases parts.len(),
{
    if parts.len() == 0 {
        Ok(Seq::empty())
    } else {
        match chord_keys(parts.drop_last()) {
            Err(m) => Err(m),
            Ok(ks) => match parts.last() {
                None => Err("Invalid key element"@),
                Some(p) => match key_for_chord(unicode_lowercase(p)) {
                    Some(k) => Ok(ks.push(k)),
                    None => Err("Invalid key"@),
                },
            },
        }
    }
}

/// The character view of optional texts.
pub open spec fn opt_texts(v: Seq<Option<String>>) -> Seq<Option<Seq<char>>> {
    v.map_values(
        |o: Option<String>|
            match o {
                Some(s) => Some(s@),
                None => None,
            },
    )
}

/// The events of `keyboard.hotkey`; `keys` holds each part of the request's
/// key list, or nothing where a part is not text.
pub fn hotkey(keys: Option<&Vec<Option<String>>>) -> (r: Result<Vec<KeyEvent>, CapabilityError>)
    ensures
        match keys {
            None => r matches Err(e) && e.code == CapabilityErrorCode::InvalidInput && e.message@ == "Missing keys"@,
            Some(parts) => match chord_keys(opt_texts(parts@)) {
                Ok(ks) => r matches Ok(events) && events@ == chord_events(ks),
                Err(m) => r matches Err(e) && e.code == CapabilityErrorCode::InvalidInput && e.message@ == m,
            },
        },
        r matches Err(e) ==> !e.retryable,
{
    let parts = match keys {
        Some(p) => p,
        None => return Err(err(CapabilityErrorCode::InvalidInput, "Missing keys")),
    };
    let ghost pv = opt_texts(parts@);
    let mut codes: Vec<KeyCode> = Vec::new();
    let mut i: usize = 0;
    while i < parts.len()
        invariant
            i <= parts.len(),
            keys == Some(parts),
            pv == opt_texts(parts@),
            chord_keys(pv.take(i as int)) == Ok::<Seq<KeyCode>, Seq<char>>(codes@),
        decreases parts.len() - i,
    {
        assert(pv.take(i + 1).drop_last() =~= pv.take(i as int));
        assert(pv.take(i + 1).last() == pv[i as int]);
        match &parts[i] {
            None => {
                proof {
                    assert(chord_keys(pv.take(i + 1)) == Err::<Seq<KeyCode>, Seq<char>>("Invalid key element"@));
                    lemma_chord_keys_error_sticks(pv, i + 1);
                }
                return Err(err(CapabilityErrorCode::InvalidInput, "Invalid key element"));
            },
            Some(p) => {
                let lowered = to_lowercase(p.as_str());
                match chord_key_from_lowered(lowered.as_str()) {
                    Ok(code) => {
                        codes.push(code);
                    },
                    Err(e) => {
                        proof {
                            lemma_chord_keys_error_sticks(pv, i + 1);
                        }
                        return Err(e);
                    },
                }
            },
        }
        i += 1;
    }
    assert(pv.take(parts.len() as int) =~= pv);
    let mut events: Vec<KeyEvent> = Vec::new();
    let mut j: usize = 0;
    while j < codes.len()
        invariant
            j <= codes.len(),
            events@ == codes@.take(j as int).map_values(|k: KeyCode| KeyEvent { key: k, up: false }),
        decreases codes.len() - j,
    {
        events.push(KeyEvent { key: codes[j], up: false });
        assert(events@ =~= codes@.take(j + 1).map_values(|k: KeyCode| KeyEvent { key: k, up: false }));
        j += 1;
    }
    assert(codes@.take(codes.len() as int) =~= codes@);
    let ghost downs = events@;
    let mut k: usize = codes.len();
    while k > 0
        invariant
            k <= codes.len(),
            events@ == downs + codes@.reverse().take((codes.len() - k) as int).map_values(
                |c: KeyCode| KeyEvent { key: c, up: true },
            ),
        decreases k,
    {
        k -= 1;
        events.push(KeyEvent { key: codes[k], up: true });
        assert(codes@.reverse()[(codes.len() - k - 1) as int] == codes@[k as int]);
        assert(codes@.reverse().take((codes.len() - k) as int) =~= codes@.reverse().take(
            (codes.len() - k - 1) as int,
        ).push(codes@[k as int]));
        assert(events@ =~= downs + codes@.reverse().take((codes.len() - k) as int).map_values(
            |c: KeyCode| KeyEvent { key: c, up: true },
        ));
    }
    assert(codes@.reverse().take(codes.len() as int) =~= codes@.reverse());
    Ok(events)
}

/// Once a prefix of the parts is refused, every longer prefix is refused the same way.
proof fn lemma_chord_keys_error_sticks(parts: Seq<Option<Seq<char>>>, i: int)
    requires
        0 <= i <= parts.len(),
        chord_keys(parts.take(i)) is Err,
    ensures
        chord_keys(parts) == chord_keys(parts.take(i)),
    decreases parts.len() - i,
{
    if i < parts.len() {
        assert(parts.take(i + 1).drop_last() =~= parts.take(i));
        lemma_chord_keys_error_sticks(parts, i + 1);
    } else {
        assert(parts.take(i) =~= parts);
    }
}

/// The UTF-16 code units of a character.
pub open spec fn utf16_of(c: char) -> Seq<u16> {
    let v = c as u32;
    if v < 0x10000 {
        seq![v as u16]
    } else {
        seq![(0xD800 + (v - 0x10000) / 0x400) as u16, (0xDC00 + (v - 0x10000) % 0x400) as u16]
    }
}

/// The UTF-16 encoding of a text.
pub open spec fn utf16(s: Seq<char>) -> Seq<u16>
    decreases s.len(),
{
    if s.len() == 0 {
        Seq::empty()
    } else {
        utf16(s.drop_last()) + utf16_of(s.last())
    }
}

/// Typing one UTF-16 code unit: down, then up.
pub open spec fn unit_events(units: Seq<u16>) -> Seq<(u16, bool)>
    decreases units.len(),
{
    if units.len() == 0 {
        Seq::empty()
    } else {
        unit_events(units.drop_last()) + seq![(units.last(), false), (units.last(), true)]
    }
}

/// The Unicode key events that type a text: each UTF-16 code unit goes down
/// and comes up.
pub fn typing_events(text: &str) -> (r: Vec<(u16, bool)>)
    ensures
        r@ == unit_events(utf16(text@)),
{
    let v = chars_of(text);
    let mut r: Vec<(u16, bool)> = Vec::new();
    let mut i: usize = 0;
    while i < v.len()
        invariant
            i <= v.len(),
            v@ == text@,
            r@ == unit_events(utf16(v@.take(i as int))),
        decreases v.len() - i,
    {
        let c = v[i];
        let u: u32 = c as u32;
        let ghost before = utf16(v@.take(i as int));
        assert(v@.take(i + 1).drop_last() =~= v@.take(i as int));
        assert(v@.take(i + 1).last() == c);
        proof {
            vstd::utf8::char_is_scalar(c);
        }
        if u < 0x10000 {
            let unit: u16 = u as u16;
            let ghost prev = r@;
            r.push((unit, false));
            r.push((unit, true));
            proof {
                assert(utf16_of(c) =~= seq![unit]);
                lemma_unit_events_append(before, seq![unit]);
                assert(seq![unit].drop_last() =~= Seq::<u16>::empty());
                assert(unit_events(Seq::<u16>::empty()) == Seq::<(u16, bool)>::empty());
                assert(seq![unit].last() == unit);
                assert(Seq::<(u16, bool)>::empty() + seq![(unit, false), (unit, true)] =~= seq![(unit, false), (unit, true)]);
                assert(unit_events(seq![unit]) =~= seq![(unit, false), (unit, true)]);
                assert(r@ =~= prev + seq![(unit, false), (unit, true)]);
            }
        } else {
            let w: u32 = u - 0x10000;
            let hi: u16 = (0xD800 + w / 0x400) as u16;
            let lo: u16 = (0xDC00 + w % 0x400) as u16;
            let ghost prev = r@;
            r.push((hi, false));
            r.push((hi, true));
            r.push((lo, false));
            r.push((lo, true));
            proof {
                assert(utf16_of(c) =~= seq![hi, lo]);
                lemma_unit_events_append(before, seq![hi, lo]);
                assert(seq![hi, lo].drop_last() =~= seq![hi]);
                assert(seq![hi].drop_last() =~= Seq::<u16>::empty());
                assert(unit_events(Seq::<u16>::empty()) == Seq::<(u16, bool)>::empty());
                assert(seq![hi].last() == hi);
                assert(seq![hi, lo].last() == lo);
                assert(Seq::<(u16, bool)>::empty() + seq![(hi, false), (hi, true)] =~= seq![(hi, false), (hi, true)]);
                assert(unit_events(seq![hi]) =~= seq![(hi, false), (hi, true)]);
                assert(unit_events(seq![hi, lo]) =~= seq![(hi, false), (hi, true), (lo, false), (lo, true)]);
                assert(r@ =~= prev + seq![(hi, false), (hi, true), (lo, false), (lo, true)]);
            }
        }
        assert(utf16(v@.take(i + 1)) == before + utf16_of(c));
        assert(r@ =~= unit_events(utf16(v@.take(i + 1))));
        i += 1;
    }
    assert(v@.take(v.len() as int) =~= v@);
    r
}

proof fn lemma_unit_events_append(a: Seq<u16>, b: Seq<u16>)
    ensures
        unit_events(a + b) == unit_events(a) + unit_events(b),
    decreases b.len(),
{
    if b.len() == 0 {
        assert(a + b =~= a);
        assert(unit_events(a) + Seq::<(u16, bool)>::empty() =~= unit_events(a));
    } else {
        assert((a + b).drop_last() =~= a + b.drop_last());
        assert((a + b).last() == b.last());
        lemma_unit_events_append(a, b.drop_last());
        assert(unit_events(a + b) =~= unit_events(a) + unit_events(b));
    }
}

/// A mouse event at the requested position.
#[derive(Clone, Copy, Debug, PartialEq, Eq, Structural)]
pub enum MouseAction {
    Move,
    LeftDown,
    LeftUp,
    RightDown,
    RightUp,
}

/// What a mouse request sends: pointer events at a position, or a wheel turn.
#[derive(Debug, PartialEq, Eq)]
pub enum MouseCommand {
    Pointer { x: i64, y: i64, actions: Vec<MouseAction> },
    Wheel { data: u32 },
}

/// The pointer events of a mouse capability: a move, then a left click for a
/// click, two for a double click, or a right click.
pub open spec fn pointer_actions(cap: Seq<char>) -> Seq<MouseAction> {
    let clicks = if cap == "mouse.click"@ || cap == "mouse.double_click"@ {
        seq![MouseAction::LeftDown, MouseAction::LeftUp]
    } else {
        Seq::empty()
    };
    let again = if cap == "mouse.double_click"@ {
        seq![MouseAction::LeftDown, MouseAction::LeftUp]
    } else {
        Seq::empty()
    };
    let right = if cap == "mouse.right_click"@ {
        seq![MouseAction::RightDown, MouseAction::RightUp]
    } else {
        Seq::empty()
    };
    seq![MouseAction::Move] + clicks + again + right
}

/// Every pointer request first moves the pointer; a click then presses and
/// releases the left button once, a double click twice, a right click presses
/// and releases the right button once, and a move sends nothing more.
pub proof fn law_pointer_clicks(cap: Seq<char>)
    ensures
        pointer_actions(cap)[0] == MouseAction::Move,
        cap == "mouse.move"@ ==> pointer_actions(cap) == seq![MouseAction::Move],
        cap == "mouse.click"@ ==> pointer_actions(cap) == seq![
            MouseAction::Move,
            MouseAction::LeftDown,
            MouseAction::LeftUp,
        ],
        cap == "mouse.double_click"@ ==> pointer_actions(cap) == seq![
            MouseAction::Move,
            MouseAction::LeftDown,
            MouseAction::LeftUp,
            MouseAction::LeftDown,
            MouseAction::LeftUp,
        ],
        cap == "mouse.right_click"@ ==> pointer_actions(cap) == seq![
            MouseAction::Move,
            MouseAction::RightDown,
            MouseAction::RightUp,
        ],
{
    reveal_strlit("mouse.move");
    reveal_strlit("mouse.click");
    reveal_strlit("mouse.double_click");
    reveal_strlit("mouse.right_click");
    assert("mouse.move"@.len() == 10 && "mouse.click"@.len() == 11 && "mouse.double_click"@.len() == 18
        && "mouse.right_click"@.len() == 17);
    let clicks = if cap == "mouse.click"@ || cap == "mouse.double_click"@ {
        seq![MouseAction::LeftDown, MouseAction::LeftUp]
    } else {
        Seq::empty()
    };
    assert((seq![MouseAction::Move] + clicks)[0] == MouseAction::Move);
    assert(pointer_actions(cap) =~= seq![MouseAction::Move] + (pointer_actions(cap).drop_first()));
}

/// A pointer capability.
pub open spec fn is_pointer_capability(cap: Seq<char>) -> bool {
    cap == "mouse.move"@ || cap == "mouse.click"@ || cap == "mouse.double_click"@ || cap == "mouse.right_click"@
}

/// The wheel data of a scroll by `delta` notches.
pub open spec fn wheel_data(delta: i64) -> u32 {
    ((delta as i32) * 120) as u32
}

/// What a mouse request sends, from its capability and its `x`, `y` and
/// `delta` fields.
pub fn mouse_command(cap: &str, x: Option<i64>, y: Option<i64>, delta: Option<i64>) -> (r: Result<
    MouseCommand,
    CapabilityError,
>)
    requires
        cap@ == "mouse.scroll"@ && delta is Some ==> -17_895_697 <= (delta->0 as i32) <= 17_895_697,
    ensures
        is_pointer_capability(cap@) ==> match (x, y) {
            (Some(a), Some(b)) => (r matches Ok(MouseCommand::Pointer { x: rx, y: ry, actions }) && rx == a && ry
                == b && actions@ == pointer_actions(cap@)),
            (None, _) => (r matches Err(e) && e.code == CapabilityErrorCode::InvalidInput && e.message@ == "Missing x"@),
            (Some(_), None) => (r matches Err(e) && e.code == CapabilityErrorCode::InvalidInput && e.message@
                == "Missing y"@),
        },
        cap@ == "mouse.scroll"@ ==> match delta {
            Some(d) => (r matches Ok(MouseCommand::Wheel { data }) && data == wheel_data(d)),
            None => (r matches Err(e) && e.code == CapabilityErrorCode::InvalidInput && e.message@ == "Missing delta"@),
        },
        !is_pointer_capability(cap@) && cap@ != "mouse.scroll"@ ==> (r matches Err(e) && e.code
            == CapabilityErrorCode::Unsupported && e.message@ == "Unsupported capability"@),
        r matches Err(e) ==> !e.retryable,
        x is Some && y is Some ==> ({
            let (a, b) = (x->0, y->0);
            &&& cap@ == "mouse.move"@ ==> (r matches Ok(MouseCommand::Pointer { x: rx, y: ry, actions }) && rx == a
                && ry == b && actions@ == seq![MouseAction::Move])
            &&& cap@ == "mouse.click"@ ==> (r matches Ok(MouseCommand::Pointer { x: rx, y: ry, actions }) && rx == a
                && ry == b && actions@ == seq![MouseAction::Move, MouseAction::LeftDown, MouseAction::LeftUp])
            &&& cap@ == "mouse.double_click"@ ==> (r matches Ok(MouseCommand::Pointer { x: rx, y: ry, actions })
                && rx == a && ry == b && actions@ == seq![
                MouseAction::Move,
                MouseAction::LeftDown,
                MouseAction::LeftUp,
                MouseAction::LeftDown,
                MouseAction::LeftUp,
            ])
            &&& cap@ == "mouse.right_click"@ ==> (r matches Ok(MouseCommand::Pointer { x: rx, y: ry, actions })
                && rx == a && ry == b && actions@ == seq![MouseAction::Move, MouseAction::RightDown, MouseAction::RightUp])
        }),
{
    proof {
        reveal_strlit("mouse.move");
        reveal_strlit("mouse.click");
        reveal_strlit("mouse.double_click");
        reveal_strlit("mouse.right_click");
        reveal_strlit("mouse.scroll");
        assert("mouse.move"@.len() == 10 && "mouse.click"@.len() == 11 && "mouse.double_click"@.len() == 18
            && "mouse.right_click"@.len() == 17 && "mouse.scroll"@.len() == 12);
    }
    let click = str_eq(cap, "mouse.click");
    let double = str_eq(cap, "mouse.double_click");
    let right = str_eq(cap, "mouse.right_click");
    if str_eq(cap, "mouse.move") || click || double || right {
        let a = match x {
            Some(a) => a,
            None => return Err(err(CapabilityErrorCode::InvalidInput, "Missing x")),
        };
        let b = match y {
            Some(b) => b,
            None => return Err(err(CapabilityErrorCode::InvalidInput, "Missing y")),
        };
        let mut actions: Vec<MouseAction> = Vec::new();
        actions.push(MouseAction::Move);
        if click || double {
            actions.push(MouseAction::LeftDown);
            actions.push(MouseAction::LeftUp);
        }
        if double {
            actions.push(MouseAction::LeftDown);
            actions.push(MouseAction::LeftUp);
        }
        if right {
            actions.push(MouseAction::RightDown);
            actions.push(MouseAction::RightUp);
        }
        assert(actions@ =~= pointer_actions(cap@));
        return Ok(MouseCommand::Pointer { x: a, y: b, actions });
    }
    if str_eq(cap, "mouse.scroll") {
        let d = match delta {
            Some(d) => d,
            None => return Err(err(CapabilityErrorCode::InvalidInput, "Missing delta")),
        };
        let notches: i32 = d as i32;
        return Ok(MouseCommand::Wheel { data: (notches * 120) as u32 });
    }
    Err(err(CapabilityErrorCode::Unsupported, "Unsupported capability"))
}

/// A window operation.
#[derive(Debug, PartialEq, Eq)]
pub enum WindowCommand {
    List,
    Inspect { handle: usize },
    Focus { handle: usize },
    Close { handle: usize },
    Minimize { handle: usize },
    Maximize { handle: usize },
    Move { handle: usize, x: i32, y: i32 },
    Resize { handle: usize, width: i32, height: i32 },
}

/// The window operations that name a window.
pub open spec fn names_window(cap: Seq<char>) -> bool {
    cap == "window.inspect"@ || cap == "window.focus"@ || cap == "window.activate"@ || cap == "window.close"@
        || cap == "window.minimize"@ || cap == "window.maximize"@ || cap == "window.move"@ || cap
        == "window.resize"@
}

/// The operation on window `h`, given the numbers the request carries.
pub open spec fn window_operation(
    cap: Seq<char>,
    h: usize,
    x: Option<i64>,
    y: Option<i64>,
    width: Option<i64>,
    height: Option<i64>,
) -> Result<WindowCommand, Seq<char>> {
    if cap == "window.inspect"@ {
        Ok(WindowCommand::Inspect { handle: h })
    } else if cap == "window.focus"@ || cap == "window.activate"@ {
        Ok(WindowCommand::Focus { handle: h })
    } else if cap == "window.close"@ {
        Ok(WindowCommand::Close { handle: h })
    } else if cap == "window.minimize"@ {
        Ok(WindowCommand::Minimize { handle: h })
    } else if cap == "window.maximize"@ {
        Ok(WindowCommand::Maximize { handle: h })
    } else if cap == "window.move"@ {
        match (x, y) {
            (Some(a), Some(b)) => Ok(WindowCommand::Move { handle: h, x: a as i32, y: b as i32 }),
            (None, _) => Err("Missing x"@),
            (Some(_), None) => Err("Missing y"@),
        }
    } else {
        match (width, height) {
            (Some(a), Some(b)) => Ok(WindowCommand::Resize { handle: h, width: a as i32, height: b as i32 }),
            (None, _) => Err("Missing width"@),
            (Some(_), None) => Err("Missing height"@),
        }
    }
}

/// Minimizing a window minimizes that window, maximizing maximizes it,
/// closing closes it, focusing or activating focuses it, whatever else the
/// request carries; moving takes `x` then `y`, resizing `width` then `height`.
pub proof fn law_window_operations_keep_their_meaning(
    h: usize,
    x: Option<i64>,
    y: Option<i64>,
    width: Option<i64>,
    height: Option<i64>,
)
    ensures
        window_operation("window.minimize"@, h, x, y, width, height) == Ok::<WindowCommand, Seq<char>>(
            WindowCommand::Minimize { handle: h },
        ),
        window_operation("window.maximize"@, h, x, y, width, height) == Ok::<WindowCommand, Seq<char>>(
            WindowCommand::Maximize { handle: h },
        ),
        window_operation("window.close"@, h, x, y, width, height) == Ok::<WindowCommand, Seq<char>>(
            WindowCommand::Close { handle: h },
        ),
        window_operation("window.focus"@, h, x, y, width, height) == Ok::<WindowCommand, Seq<char>>(
            WindowCommand::Focus { handle: h },
        ),
        window_operation("window.activate"@, h, x, y, width, height) == Ok::<WindowCommand, Seq<char>>(
            WindowCommand::Focus { handle: h },
        ),
        window_operation("window.inspect"@, h, x, y, width, height) == Ok::<WindowCommand, Seq<char>>(
            WindowCommand::Inspect { handle: h },
        ),
        x is Some && y is Some ==> window_operation("window.move"@, h, x, y, width, height) == Ok::<
            WindowCommand,
            Seq<char>,
        >(WindowCommand::Move { handle: h, x: x->0 as i32, y: y->0 as i32 }),
        width is Some && height is Some ==> window_operation("window.resize"@, h, x, y, width, height) == Ok::<
            WindowCommand,
            Seq<char>,
        >(WindowCommand::Resize { handle: h, width: width->0 as i32, height: height->0 as i32 }),
{
    lemma_window_names_distinct();
}

proof fn lemma_window_names_distinct()
    ensures
        "window.list"@.len() == 11 && "window.move"@.len() == 11 && "window.list"@[7] == 'l' && "window.move"@[7] == 'm',
        "window.focus"@.len() == 12 && "window.close"@.len() == 12 && "window.focus"@[7] == 'f' && "window.close"@[7] == 'c',
        "window.inspect"@.len() == 14 && "window.resize"@.len() == 13,
        "window.activate"@.len() == 15 && "window.minimize"@.len() == 15 && "window.maximize"@.len() == 15,
        "window.activate"@[7] == 'a' && "window.minimize"@[7] == 'm' && "window.maximize"@[7] == 'm',
        "window.minimize"@[8] == 'i' && "window.maximize"@[8] == 'a',
{
    reveal_strlit("window.list");
    reveal_strlit("window.move");
    reveal_strlit("window.focus");
    reveal_strlit("window.close");
    reveal_strlit("window.inspect");
    reveal_strlit("window.resize");
    reveal_strlit("window.activate");
    reveal_strlit("window.minimize");
    reveal_strlit("window.maximize");
}

/// Which window operation a request asks for: listing needs nothing, the
/// others a `hwnd:<number>` window identity, moving `x` and `y`, resizing
/// `width` and `height`.
pub fn window_command(
    cap: &str,
    window_id: Option<&str>,
    x: Option<i64>,
    y: Option<i64>,
    width: Option<i64>,
    height: Option<i64>,
) -> (r: Result<WindowCommand, CapabilityError>)
    ensures
        cap@ == "window.list"@ ==> r == Ok::<WindowCommand, CapabilityError>(WindowCommand::List),
        names_window(cap@) ==> match window_id {
            None => (r matches Err(e) && e.code == CapabilityErrorCode::InvalidInput && e.message@
                == "Missing window_id"@),
            Some(w) => match window_handle_spec(w@) {
                None => (r matches Err(e) && e.code == CapabilityErrorCode::InvalidInput && e.message@
                    == "Invalid window_id format"@),
                Some(h) => match window_operation(cap@, h as usize, x, y, width, height) {
                    Ok(c) => r == Ok::<WindowCommand, CapabilityError>(c),
                    Err(m) => (r matches Err(e) && e.code == CapabilityErrorCode::InvalidInput && e.message@ == m),
                },
            },
        },
        cap@ != "window.list"@ && !names_window(cap@) ==> (r matches Err(e) && e.code
            == CapabilityErrorCode::Unsupported && e.message@ == "Unsupported capability"@),
        r matches Err(e) ==> !e.retryable,
        window_id is Some && window_handle_spec(window_id->0@) is Some ==> {
            let h = window_handle_spec(window_id->0@)->0;
            &&& cap@ == "window.minimize"@ ==> r == Ok::<WindowCommand, CapabilityError>(
                WindowCommand::Minimize { handle: h as usize },
            )
            &&& cap@ == "window.maximize"@ ==> r == Ok::<WindowCommand, CapabilityError>(
                WindowCommand::Maximize { handle: h as usize },
            )
            &&& cap@ == "window.close"@ ==> r == Ok::<WindowCommand, CapabilityError>(
                WindowCommand::Close { handle: h as usize },
            )
            &&& (cap@ == "window.focus"@ || cap@ == "window.activate"@) ==> r == Ok::<WindowCommand, CapabilityError>(
                WindowCommand::Focus { handle: h as usize },
            )
        },
{
    proof {
        lemma_window_names_distinct();
    }
    if str_eq(cap, "window.list") {
        return Ok(WindowCommand::List);
    }
    let inspect = str_eq(cap, "window.inspect");
    let focus = str_eq(cap, "window.focus") || str_eq(cap, "window.activate");
    let close = str_eq(cap, "window.close");
    let minimize = str_eq(cap, "window.minimize");
    let maximize = str_eq(cap, "window.maximize");
    let moving = str_eq(cap, "window.move");
    let resizing = str_eq(cap, "window.resize");
    if !(inspect || focus || close || minimize || maximize || moving || resizing) {
        return Err(err(CapabilityErrorCode::Unsupported, "Unsupported capability"));
    }
    let w = match window_id {
        Some(w) => w,
        None => return Err(err(CapabilityErrorCode::InvalidInput, "Missing window_id")),
    };
    let h = hwnd_from_window_id(w)?;
    if inspect {
        Ok(WindowCommand::Inspect { handle: h })
    } else if focus {
        Ok(WindowCommand::Focus { handle: h })
    } else if close {
        Ok(WindowCommand::Close { handle: h })
    } else if minimize {
        Ok(WindowCommand::Minimize { handle: h })
    } else if maximize {
        Ok(WindowCommand::Maximize { handle: h })
    } else if moving {
        let a = match x {
            Some(a) => a,
            None => return Err(err(CapabilityErrorCode::InvalidInput, "Missing x")),
        };
        let b = match y {
            Some(b) => b,
            None => return Err(err(CapabilityErrorCode::InvalidInput, "Missing y")),
        };
        Ok(WindowCommand::Move { handle: h, x: a as i32, y: b as i32 })
    } else {
        let a = match width {
            Some(a) => a,
            None => return Err(err(CapabilityErrorCode::InvalidInput, "Missing width")),
        };
        let b = match height {
            Some(b) => b,
            None => return Err(err(CapabilityErrorCode::InvalidInput, "Missing height")),
        };
        Ok(WindowCommand::Resize { handle: h, width: a as i32, height: b as i32 })
    }
}


/// How `keyboard.type` enters its text.
#[derive(Debug, PartialEq, Eq)]
pub enum TypingMethod {
    /// Unicode key events, each UTF-16 code unit down and up.
    Unicode(Vec<(u16, bool)>),
    /// Into the document control of the named window, in the test mode.
    Document { handle: usize },
    /// Through each character's virtual key, in the test mode without a
    /// window to type into.
    LayoutKeys,
}

/// What `keyboard.type` does: the window to focus first, if the request names
/// one, and how the text is entered.
#[derive(Debug, PartialEq, Eq)]
pub struct TypingPlan {
    pub focus: Option<usize>,
    pub text: String,
    pub method: TypingMethod,
}

/// The window a request names for focusing: a non-empty `window_id`.
pub open spec fn focus_target(window_id: Option<Seq<char>>) -> Option<Seq<char>> {
    match window_id {
        Some(w) => if w.len() > 0 {
            Some(w)
        } else {
            None
        },
        None => None,
    }
}

/// What `keyboard.type` does with its `text` and `window_id` fields: the text
/// is required; a non-empty window identity must name a window, which is
/// focused first; the test mode types into that window's document where the
/// identity names one, else through virtual keys; otherwise the text is sent
/// as Unicode key events.
pub fn typing_plan(text: Option<&str>, window_id: Option<&str>, gui_test: bool) -> (r: Result<TypingPlan, CapabilityError>)
    ensures
        text is None ==> (r matches Err(e) && e.code == CapabilityErrorCode::InvalidInput && e.message@
            == "Missing text"@),
        text matches Some(t) ==> match focus_target(crate::worker::registry::opt_view(window_id)) {
            Some(w) => match window_handle_spec(w) {
                None => r matches Err(e) && e.code == CapabilityErrorCode::InvalidInput && e.message@
                    == "Invalid window_id format"@,
                Some(h) => r matches Ok(p) && p.focus == Some(h as usize) && p.text@ == t@,
            },
            None => r matches Ok(p) && p.focus is None && p.text@ == t@,
        },
        r matches Ok(p) ==> match p.method {
            TypingMethod::Unicode(events) => !gui_test && events@ == unit_events(utf16(p.text@)),
            TypingMethod::Document { handle } => gui_test && (window_id matches Some(w) && window_handle_spec(w@)
                == Some(handle as nat)),
            TypingMethod::LayoutKeys => gui_test && (window_id matches Some(w) ==> window_handle_spec(w@) is None),
        },
        r matches Err(e) ==> !e.retryable,
{
    let t = match text {
        Some(t) => t,
        None => return Err(err(CapabilityErrorCode::InvalidInput, "Missing text")),
    };
    let focus = match window_id {
        Some(w) => {
            if w.unicode_len() > 0 {
                Some(hwnd_from_window_id(w)?)
            } else {
                None
            }
        },
        None => None,
    };
    let method = if gui_test {
        match window_id {
            Some(w) => match hwnd_from_window_id(w) {
                Ok(handle) => TypingMethod::Document { handle },
                Err(_) => TypingMethod::LayoutKeys,
            },
            None => TypingMethod::LayoutKeys,
        }
    } else {
        TypingMethod::Unicode(typing_events(t))
    };
    Ok(TypingPlan { focus, text: String::from_str(t), method })
}

/// Whether input may go on after focusing a window: in the test mode the
/// focus must have been seen to take.
pub fn focus_verdict(focused: bool, gui_test: bool) -> (r: Result<(), CapabilityError>)
    ensures
        !focused && gui_test ==> (r matches Err(e) && e.code == CapabilityErrorCode::InvalidInput && e.message@
            == "TEST_TARGET_UNSAFE: focus could not be verified before keyboard input"@ && !e.retryable),
        focused || !gui_test ==> r is Ok,
{
    if !focused && gui_test {
        Err(err(CapabilityErrorCode::InvalidInput, "TEST_TARGET_UNSAFE: focus could not be verified before keyboard input"))
    } else {
        Ok(())
    }
}

} // verus!

