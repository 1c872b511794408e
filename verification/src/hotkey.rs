//! Global hotkey settings: how they are stored in the configuration and how
//! they are shown in menus.
//!
//! A key is named as the global-hotkey crate's `Code` prints it (for example
//! `KeyR` or `Space`); the modifiers are the four flags the configuration keeps.
use vstd::prelude::*;

use crate::config::{normalize_config, load_or_default_config, LoadedConfig, RawConfig};
use crate::config;
use crate::model::Platform;
use crate::text;
use crate::text::{
    chars_eq, join_chars, lower_chars, split_chars, starts_with_chars, string_of, to_chars,
    trim_chars, upper_chars, word_is,
};

verus! {

/// Modifier keys of a hotkey.
#[derive(Debug, Clone, Copy, PartialEq, Eq, Structural)]
pub struct HotkeyModifiers {
    pub shift: bool,
    pub alt: bool,
    pub control: bool,
    /// Command on macOS, the logo key elsewhere.
    pub meta: bool,
}

/// A hotkey: modifiers and the name of the key.
#[derive(Debug, Clone)]
pub struct HotkeyConfig {
    pub modifiers: HotkeyModifiers,
    /// The key's code name, e.g. "KeyR".
    pub key: String,
}

pub open spec fn no_modifiers() -> HotkeyModifiers {
    HotkeyModifiers { shift: false, alt: false, control: false, meta: false }
}

/// Command (macOS) or Control (elsewhere), as the default hotkey uses.
pub open spec fn default_modifiers(p: Platform) -> HotkeyModifiers {
    if p == Platform::MacOs {
        HotkeyModifiers { meta: true, ..no_modifiers() }
    } else {
        HotkeyModifiers { control: true, ..no_modifiers() }
    }
}

pub open spec fn key_r() -> Seq<char> {
    seq!['K', 'e', 'y', 'R']
}

impl HotkeyConfig {
    /// The default hotkey: Command+R on macOS, Control+R elsewhere.
    pub fn default_for(p: Platform) -> (c: HotkeyConfig)
        ensures
            c.modifiers == default_modifiers(p),
            c.key@ == key_r(),
    {
        let modifiers = if matches!(p, Platform::MacOs) {
            HotkeyModifiers { shift: false, alt: false, control: false, meta: true }
        } else {
            HotkeyModifiers { shift: false, alt: false, control: true, meta: false }
        };
        HotkeyConfig { modifiers, key: string_of(&['K', 'e', 'y', 'R']) }
    }
}

// ----------------------------------------------------------------------------
// Stored form
// ----------------------------------------------------------------------------

pub open spec fn meta_word(p: Platform) -> Seq<char> {
    if p == Platform::MacOs {
        seq!['c', 'o', 'm', 'm', 'a', 'n', 'd']
    } else {
        seq!['m', 'e', 't', 'a']
    }
}

pub open spec fn opt_word(b: bool, w: Seq<char>) -> Seq<Seq<char>> {
    if b {
        seq![w]
    } else {
        seq![]
    }
}

/// The stored words for the modifiers, in the order shift, alt, control, meta.
pub open spec fn modifier_words(m: HotkeyModifiers, p: Platform) -> Seq<Seq<char>> {
    opt_word(m.shift, seq!['s', 'h', 'i', 'f', 't']) + opt_word(m.alt, seq!['a', 'l', 't'])
        + opt_word(m.control, seq!['c', 'o', 'n', 't', 'r', 'o', 'l']) + opt_word(m.meta, meta_word(p))
}

pub open spec fn spec_modifiers_to_string(m: HotkeyModifiers, p: Platform) -> Seq<char> {
    text::join(modifier_words(m, p), seq![','])
}

pub open spec fn is_meta_word(w: Seq<char>) -> bool {
    w == seq!['c', 'o', 'm', 'm', 'a', 'n', 'd'] || w == seq!['c', 'm', 'd'] || w == seq!['m', 'e', 't', 'a']
}

pub open spec fn is_control_word(w: Seq<char>) -> bool {
    w == seq!['c', 'o', 'n', 't', 'r', 'o', 'l'] || w == seq!['c', 't', 'r', 'l']
}

pub open spec fn is_shift_word(w: Seq<char>) -> bool {
    w == seq!['s', 'h', 'i', 'f', 't']
}

pub open spec fn is_alt_word(w: Seq<char>) -> bool {
    w == seq!['a', 'l', 't'] || w == seq!['o', 'p', 't', 'i', 'o', 'n']
}

/// A stored modifier word as it is compared: trimmed, ASCII lower case.
pub open spec fn norm_word(part: Seq<char>) -> Seq<char> {
    text::lower_seq(text::trim(part))
}

pub open spec fn has_shift(parts: Seq<Seq<char>>) -> bool {
    exists|i: int| 0 <= i < parts.len() && is_shift_word(norm_word(#[trigger] parts[i]))
}

pub open spec fn has_alt(parts: Seq<Seq<char>>) -> bool {
    exists|i: int| 0 <= i < parts.len() && is_alt_word(norm_word(#[trigger] parts[i]))
}

pub open spec fn has_control(parts: Seq<Seq<char>>) -> bool {
    exists|i: int| 0 <= i < parts.len() && is_control_word(norm_word(#[trigger] parts[i]))
}

pub open spec fn has_meta(parts: Seq<Seq<char>>) -> bool {
    exists|i: int| 0 <= i < parts.len() && is_meta_word(norm_word(#[trigger] parts[i]))
}

/// The modifiers named in a comma separated list; unknown words are ignored.
pub open spec fn spec_string_to_modifiers(s: Seq<char>) -> HotkeyModifiers {
    let parts = text::split_char(s, ',');
    HotkeyModifiers {
        shift: has_shift(parts),
        alt: has_alt(parts),
        control: has_control(parts),
        meta: has_meta(parts),
    }
}

/// The key name without a leading "Key".
pub open spec fn strip_key(name: Seq<char>) -> Seq<char> {
    if text::starts_with(name, seq!['K', 'e', 'y']) {
        name.skip(3)
    } else {
        name
    }
}

/// The stored word for a key: its name without "Key", in lower case.
pub open spec fn spec_code_to_string(name: Seq<char>) -> Seq<char> {
    text::lower_seq(strip_key(name))
}

/// The code of a named key, by its stored word (the code in lower case).
pub open spec fn named_word_code(w: Seq<char>) -> Option<Seq<char>> {
    if w == "space"@ {
        Some("Space"@)
    } else if w == "enter"@ {
        Some("Enter"@)
    } else if w == "tab"@ {
        Some("Tab"@)
    } else if w == "backspace"@ {
        Some("Backspace"@)
    } else if w == "escape"@ {
        Some("Escape"@)
    } else if w == "arrowup"@ {
        Some("ArrowUp"@)
    } else if w == "arrowdown"@ {
        Some("ArrowDown"@)
    } else if w == "arrowleft"@ {
        Some("ArrowLeft"@)
    } else if w == "arrowright"@ {
        Some("ArrowRight"@)
    } else if w == "home"@ {
        Some("Home"@)
    } else if w == "end"@ {
        Some("End"@)
    } else if w == "pageup"@ {
        Some("PageUp"@)
    } else if w == "pagedown"@ {
        Some("PageDown"@)
    } else if w == "insert"@ {
        Some("Insert"@)
    } else if w == "delete"@ {
        Some("Delete"@)
    } else if w == "f1"@ {
        Some("F1"@)
    } else if w == "f2"@ {
        Some("F2"@)
    } else if w == "f3"@ {
        Some("F3"@)
    } else if w == "f4"@ {
        Some("F4"@)
    } else if w == "f5"@ {
        Some("F5"@)
    } else if w == "f6"@ {
        Some("F6"@)
    } else if w == "f7"@ {
        Some("F7"@)
    } else if w == "f8"@ {
        Some("F8"@)
    } else if w == "f9"@ {
        Some("F9"@)
    } else if w == "f10"@ {
        Some("F10"@)
    } else if w == "f11"@ {
        Some("F11"@)
    } else if w == "f12"@ {
        Some("F12"@)
    } else {
        None
    }
}

/// The key a stored word names: a single letter names its letter key
/// ("a" names KeyA), "digit0" to "digit9" name the digit keys, the name of a
/// named key in lower case names that key ("space", "arrowup", "f5", ...);
/// any other word names R.
pub open spec fn spec_string_to_code(s: Seq<char>) -> Seq<char> {
    let w = text::lower_seq(s);
    if w.len() == 1 && 'a' <= w[0] <= 'z' {
        seq!['K', 'e', 'y', text::ascii_upper(w[0])]
    } else if w.len() == 6 && w.take(5) == seq!['d', 'i', 'g', 'i', 't'] && '0' <= w[5] <= '9' {
        seq!['D', 'i', 'g', 'i', 't', w[5]]
    } else {
        match named_word_code(w) {
            Some(c) => c,
            None => key_r(),
        }
    }
}

fn push_word(parts: &mut Vec<Vec<char>>, w: &[char])
    ensures
        final(parts)@.map_values(|p: Vec<char>| p@) == old(parts)@.map_values(|p: Vec<char>| p@).push(w@),
{
    let mut v: Vec<char> = Vec::new();
    let mut i: usize = 0;
    while i < w.len()
        invariant
            i <= w@.len(),
            v@ == w@.take(i as int),
        decreases w.len() - i,
    {
        v.push(w[i]);
        assert(w@.take(i + 1) =~= w@.take(i as int).push(w@[i as int]));
        i += 1;
    }
    assert(w@.take(w@.len() as int) =~= w@);
    let ghost before = parts@;
    parts.push(v);
    assert(parts@.map_values(|p: Vec<char>| p@) =~= before.map_values(|p: Vec<char>| p@).push(w@));
}

/// The stored form of the modifiers, e.g. "shift,control".
pub fn modifiers_to_string(modifiers: HotkeyModifiers, platform: Platform) -> (s: String)
    ensures
        s@ == spec_modifiers_to_string(modifiers, platform),
{
    let w_shift = ['s', 'h', 'i', 'f', 't'];
    let w_alt = ['a', 'l', 't'];
    let w_control = ['c', 'o', 'n', 't', 'r', 'o', 'l'];
    let w_command = ['c', 'o', 'm', 'm', 'a', 'n', 'd'];
    let w_meta = ['m', 'e', 't', 'a'];
    let sep = [','];
    assert(w_shift@ =~= seq!['s', 'h', 'i', 'f', 't'] && w_alt@ =~= seq!['a', 'l', 't']);
    assert(w_control@ =~= seq!['c', 'o', 'n', 't', 'r', 'o', 'l'] && sep@ =~= seq![',']);
    assert(w_command@ =~= seq!['c', 'o', 'm', 'm', 'a', 'n', 'd'] && w_meta@ =~= seq!['m', 'e', 't', 'a']);
    let mut parts: Vec<Vec<char>> = Vec::new();
    if modifiers.shift {
        push_word(&mut parts, &w_shift);
    }
    if modifiers.alt {
        push_word(&mut parts, &w_alt);
    }
    if modifiers.control {
        push_word(&mut parts, &w_control);
    }
    if modifiers.meta {
        if matches!(platform, Platform::MacOs) {
            push_word(&mut parts, &w_command);
        } else {
            push_word(&mut parts, &w_meta);
        }
    }
    assert(parts@.map_values(|p: Vec<char>| p@) =~= modifier_words(modifiers, platform));
    let joined = join_chars(&parts, &sep);
    string_of(joined.as_slice())
}

/// The modifiers named in a stored comma separated list. Words are trimmed and
/// compared in lower case; "command", "cmd" and "meta" name the meta key,
/// "control" and "ctrl" the control key, "alt" and "option" the alt key.
pub fn string_to_modifiers(s: &str) -> (m: HotkeyModifiers)
    ensures
        m == spec_string_to_modifiers(s@),
{
    let v = to_chars(s);
    let parts = split_chars(v.as_slice(), ',');
    let ghost views = parts@.map_values(|p: Vec<char>| p@);
    let mut m = HotkeyModifiers { shift: false, alt: false, control: false, meta: false };
    let mut i: usize = 0;
    while i < parts.len()
        invariant
            i <= parts@.len(),
            views == parts@.map_values(|p: Vec<char>| p@),
            m.shift == has_shift(views.take(i as int)),
            m.alt == has_alt(views.take(i as int)),
            m.control == has_control(views.take(i as int)),
            m.meta == has_meta(views.take(i as int)),
        decreases parts.len() - i,
    {
        let t = trim_chars(parts[i].as_slice());
        let w = lower_chars(t.as_slice());
        let w = w.as_slice();
        assert(w@ == norm_word(views[i as int]));
        let ghost prefix = views.take(i as int);
        let ghost next = views.take(i + 1);
        assert(next =~= prefix.push(views[i as int]));
        if chars_eq(w, &['c', 'o', 'm', 'm', 'a', 'n', 'd']) || chars_eq(w, &['c', 'm', 'd']) || chars_eq(w, &['m', 'e', 't', 'a']) {
            m.meta = true;
        } else if chars_eq(w, &['c', 'o', 'n', 't', 'r', 'o', 'l']) || chars_eq(w, &['c', 't', 'r', 'l']) {
            m.control = true;
        } else if chars_eq(w, &['s', 'h', 'i', 'f', 't']) {
            m.shift = true;
        } else if chars_eq(w, &['a', 'l', 't']) || chars_eq(w, &['o', 'p', 't', 'i', 'o', 'n']) {
            m.alt = true;
        }
        proof {
            assert(next[i as int] == views[i as int]);
            assert forall|j: int| 0 <= j < i implies next[j] == prefix[j] by {}
        }
        i += 1;
    }
    assert(views.take(parts@.len() as int) =~= views);
    m
}

/// The stored word for a key, e.g. "r" for KeyR.
pub fn code_to_string(key: &str) -> (s: String)
    ensures
        s@ == spec_code_to_string(key@),
{
    let v = to_chars(key);
    let v = v.as_slice();
    let lowered = if starts_with_chars(v, &['K', 'e', 'y']) {
        let mut rest: Vec<char> = Vec::new();
        let mut i: usize = 3;
        while i < v.len()
            invariant
                3 <= i <= v@.len(),
                rest@ == v@.subrange(3, i as int),
            decreases v.len() - i,
        {
            rest.push(v[i]);
            assert(v@.subrange(3, i + 1) =~= v@.subrange(3, i as int).push(v@[i as int]));
            i += 1;
        }
        assert(rest@ =~= v@.skip(3));
        lower_chars(rest.as_slice())
    } else {
        lower_chars(v)
    };
    string_of(lowered.as_slice())
}

fn named_word_code_str(w: &[char]) -> (r: Option<&'static str>)
    ensures
        r is Some <==> named_word_code(w@) is Some,
        r is Some ==> r.unwrap()@ == named_word_code(w@).unwrap(),
{
    if word_is(w, "space") {
        return Some("Space");
    }
    if word_is(w, "enter") {
        return Some("Enter");
    }
    if word_is(w, "tab") {
        return Some("Tab");
    }
    if word_is(w, "backspace") {
        return Some("Backspace");
    }
    if word_is(w, "escape") {
        return Some("Escape");
    }
    if word_is(w, "arrowup") {
        return Some("ArrowUp");
    }
    if word_is(w, "arrowdown") {
        return Some("ArrowDown");
    }
    if word_is(w, "arrowleft") {
        return Some("ArrowLeft");
    }
    if word_is(w, "arrowright") {
        return Some("ArrowRight");
    }
    if word_is(w, "home") {
        return Some("Home");
    }
    if word_is(w, "end") {
        return Some("End");
    }
    if word_is(w, "pageup") {
        return Some("PageUp");
    }
    if word_is(w, "pagedown") {
        return Some("PageDown");
    }
    if word_is(w, "insert") {
        return Some("Insert");
    }
    if word_is(w, "delete") {
        return Some("Delete");
    }
    if word_is(w, "f1") {
        return Some("F1");
    }
    if word_is(w, "f2") {
        return Some("F2");
    }
    if word_is(w, "f3") {
        return Some("F3");
    }
    if word_is(w, "f4") {
        return Some("F4");
    }
    if word_is(w, "f5") {
        return Some("F5");
    }
    if word_is(w, "f6") {
        return Some("F6");
    }
    if word_is(w, "f7") {
        return Some("F7");
    }
    if word_is(w, "f8") {
        return Some("F8");
    }
    if word_is(w, "f9") {
        return Some("F9");
    }
    if word_is(w, "f10") {
        return Some("F10");
    }
    if word_is(w, "f11") {
        return Some("F11");
    }
    if word_is(w, "f12") {
        return Some("F12");
    }
    None
}

/// The key a stored word names (compared in ASCII lower case): a single
/// letter names its letter key, "digit0" to "digit9" the digit keys, and the
/// lower case name of a named key that key; any other word names R.
pub fn string_to_code(s: &str) -> (key: Option<String>)
    ensures
        key is Some,
        key.unwrap()@ == spec_string_to_code(s@),
{
    let v = to_chars(s);
    let lw = lower_chars(v.as_slice());
    let w = lw.as_slice();
    assert(w@ == text::lower_seq(s@));
    if w.len() == 1 && 'a' <= w[0] && w[0] <= 'z' {
        let u = text::to_ascii_upper(w[0]);
        return Some(string_of(&['K', 'e', 'y', u]));
    }
    let digit = ['d', 'i', 'g', 'i', 't'];
    assert(digit@ =~= seq!['d', 'i', 'g', 'i', 't']);
    if w.len() == 6 && starts_with_chars(w, &digit) && '0' <= w[5] && w[5] <= '9' {
        return Some(string_of(&['D', 'i', 'g', 'i', 't', w[5]]));
    }
    match named_word_code_str(w) {
        Some(name) => Some(name.to_owned()),
        None => Some(string_of(&['K', 'e', 'y', 'R'])),
    }
}

/// The hotkey a configuration holds, with whether it is enabled.
pub open spec fn spec_load_hotkey_config(loaded: LoadedConfig, p: Platform) -> (HotkeyModifiers, Seq<char>, bool) {
    match loaded {
        Ok(cfg) => (
            match cfg.hotkey_modifiers {
                Some(s) => spec_string_to_modifiers(s@),
                None => default_modifiers(p),
            },
            match cfg.hotkey_key {
                Some(s) => spec_string_to_code(s@),
                None => key_r(),
            },
            match cfg.hotkey_enabled {
                Some(b) => b,
                None => true,
            },
        ),
        Err(_) => (default_modifiers(p), key_r(), true),
    }
}

/// The persisted hotkey and whether it is enabled; the default hotkey,
/// enabled, for whatever is not set.
pub fn load_hotkey_config(loaded: &LoadedConfig, platform: Platform) -> (r: (HotkeyConfig, bool))
    ensures
        (r.0.modifiers, r.0.key@, r.1) == spec_load_hotkey_config(*loaded, platform),
{
    match loaded {
        Ok(cfg) => {
            let enabled = match cfg.hotkey_enabled {
                Some(b) => b,
                None => true,
            };
            let default = HotkeyConfig::default_for(platform);
            let modifiers = match &cfg.hotkey_modifiers {
                Some(s) => string_to_modifiers(s.as_str()),
                None => default.modifiers,
            };
            let key = match &cfg.hotkey_key {
                Some(s) => match string_to_code(s.as_str()) {
                    Some(k) => k,
                    None => default.key,
                },
                None => default.key,
            };
            (HotkeyConfig { modifiers, key }, enabled)
        },
        Err(_) => (HotkeyConfig::default_for(platform), true),
    }
}

/// `cfg` is `loaded` (or the empty configuration) with the hotkey stored,
/// normalised.
pub open spec fn is_saved_hotkey(
    loaded: LoadedConfig,
    hotkey: HotkeyConfig,
    enabled: bool,
    p: Platform,
    cfg: RawConfig,
) -> bool {
    &&& cfg.hotkey_enabled == Some(enabled)
    &&& (cfg.hotkey_key is Some ==> cfg.hotkey_key.unwrap()@ == spec_code_to_string(hotkey.key@))
    &&& (cfg.hotkey_key is None ==> spec_code_to_string(hotkey.key@).len() == 0)
    &&& (cfg.hotkey_modifiers is Some ==> cfg.hotkey_modifiers.unwrap()@ == spec_modifiers_to_string(hotkey.modifiers, p))
    &&& (cfg.hotkey_modifiers is None ==> spec_modifiers_to_string(hotkey.modifiers, p).len() == 0)
    &&& cfg == config::spec_normalize(
        RawConfig {
            hotkey_enabled: Some(enabled),
            hotkey_modifiers: cfg.hotkey_modifiers,
            hotkey_key: cfg.hotkey_key,
            ..config::spec_or_default(loaded)
        },
    )
}

/// The configuration to write after changing the hotkey.
pub fn save_hotkey_config(loaded: LoadedConfig, hotkey: &HotkeyConfig, enabled: bool, platform: Platform) -> (cfg: RawConfig)
    ensures
        is_saved_hotkey(loaded, *hotkey, enabled, platform, cfg),
{
    let mut cfg = load_or_default_config(loaded);
    cfg.hotkey_enabled = Some(enabled);
    cfg.hotkey_modifiers = Some(modifiers_to_string(hotkey.modifiers, platform));
    cfg.hotkey_key = Some(code_to_string(hotkey.key.as_str()));
    normalize_config(cfg)
}

// ----------------------------------------------------------------------------
// Display
// ----------------------------------------------------------------------------

/// How a key is shown in menus.
pub open spec fn spec_format_key_code(name: Seq<char>, p: Platform) -> Seq<char> {
    if p == Platform::Linux {
        text::upper_seq(strip_key(name))
    } else if name == key_r() {
        seq!['R']
    } else if name == seq!['K', 'e', 'y', 'T'] {
        seq!['T']
    } else if name == seq!['K', 'e', 'y', 'S'] {
        seq!['S']
    } else if name == seq!['S', 'p', 'a', 'c', 'e'] {
        seq!['S', 'p', 'a', 'c', 'e']
    } else if p == Platform::MacOs {
        text::upper_seq(strip_key(name))
    } else {
        strip_key(name)
    }
}

/// The labels of a hotkey, modifiers first.
pub open spec fn display_parts(c: HotkeyConfig, p: Platform) -> Seq<Seq<char>> {
    if p == Platform::MacOs {
        opt_word(c.modifiers.meta, seq!['\u{2318}']) + opt_word(c.modifiers.shift, seq!['\u{21e7}'])
            + opt_word(c.modifiers.alt, seq!['\u{2325}']) + opt_word(c.modifiers.control, seq!['\u{2303}'])
            + seq![spec_format_key_code(c.key@, p)]
    } else {
        opt_word(c.modifiers.meta, seq!['M', 'e', 't', 'a']) + opt_word(c.modifiers.control, seq!['C', 't', 'r', 'l'])
            + opt_word(c.modifiers.shift, seq!['S', 'h', 'i', 'f', 't']) + opt_word(c.modifiers.alt, seq!['A', 'l', 't'])
            + seq![spec_format_key_code(c.key@, p)]
    }
}

/// How a hotkey is shown in menus: symbols run together on macOS ("⌘⇧R"),
/// labels joined with " + " elsewhere ("Ctrl + Shift + R").
pub open spec fn spec_format_hotkey_display(c: HotkeyConfig, p: Platform) -> Seq<char> {
    if p == Platform::MacOs {
        text::join(display_parts(c, p), seq![])
    } else {
        text::join(display_parts(c, p), seq![' ', '+', ' '])
    }
}

fn strip_key_chars(v: &[char]) -> (r: Vec<char>)
    ensures
        r@ == strip_key(v@),
{
    if starts_with_chars(v, &['K', 'e', 'y']) {
        let mut rest: Vec<char> = Vec::new();
        let mut i: usize = 3;
        while i < v.len()
            invariant
                3 <= i <= v@.len(),
                rest@ == v@.subrange(3, i as int),
            decreases v.len() - i,
        {
            rest.push(v[i]);
            assert(v@.subrange(3, i + 1) =~= v@.subrange(3, i as int).push(v@[i as int]));
            i += 1;
        }
        assert(rest@ =~= v@.skip(3));
        rest
    } else {
        let mut r: Vec<char> = Vec::new();
        let mut i: usize = 0;
        while i < v.len()
            invariant
                i <= v@.len(),
                r@ == v@.take(i as int),
            decreases v.len() - i,
        {
            r.push(v[i]);
            assert(v@.take(i + 1) =~= v@.take(i as int).push(v@[i as int]));
            i += 1;
        }
        assert(v@.take(v@.len() as int) =~= v@);
        r
    }
}

fn format_key_chars(key: &str, platform: Platform) -> (r: Vec<char>)
    ensures
        r@ == spec_format_key_code(key@, platform),
{
    let v = to_chars(key);
    let v = v.as_slice();
    if matches!(platform, Platform::Linux) {
        let s = strip_key_chars(v);
        return upper_chars(s.as_slice());
    }
    if chars_eq(v, &['K', 'e', 'y', 'R']) {
        vec!['R']
    } else if chars_eq(v, &['K', 'e', 'y', 'T']) {
        vec!['T']
    } else if chars_eq(v, &['K', 'e', 'y', 'S']) {
        vec!['S']
    } else if chars_eq(v, &['S', 'p', 'a', 'c', 'e']) {
        vec!['S', 'p', 'a', 'c', 'e']
    } else if matches!(platform, Platform::MacOs) {
        let s = strip_key_chars(v);
        upper_chars(s.as_slice())
    } else {
        strip_key_chars(v)
    }
}

/// How a key is shown in menus ("R", "Space", ...).
pub fn format_key_code(key: &str, platform: Platform) -> (s: String)
    ensures
        s@ == spec_format_key_code(key@, platform),
{
    let v = format_key_chars(key, platform);
    string_of(v.as_slice())
}

/// How a hotkey is shown in menus.
pub fn format_hotkey_display(config: &HotkeyConfig, platform: Platform) -> (s: String)
    ensures
        s@ == spec_format_hotkey_display(*config, platform),
{
    let cmd = ['\u{2318}'];
    let shift = ['\u{21e7}'];
    let opt = ['\u{2325}'];
    let ctl = ['\u{2303}'];
    let meta = ['M', 'e', 't', 'a'];
    let ctrl = ['C', 't', 'r', 'l'];
    let shift_l = ['S', 'h', 'i', 'f', 't'];
    let alt_l = ['A', 'l', 't'];
    let sep = [' ', '+', ' '];
    let none: [char; 0] = [];
    assert(cmd@ =~= seq!['\u{2318}'] && shift@ =~= seq!['\u{21e7}'] && opt@ =~= seq!['\u{2325}'] && ctl@ =~= seq!['\u{2303}']);
    assert(meta@ =~= seq!['M', 'e', 't', 'a'] && ctrl@ =~= seq!['C', 't', 'r', 'l']);
    assert(shift_l@ =~= seq!['S', 'h', 'i', 'f', 't'] && alt_l@ =~= seq!['A', 'l', 't']);
    assert(sep@ =~= seq![' ', '+', ' '] && none@ =~= Seq::<char>::empty());
    let mut parts: Vec<Vec<char>> = Vec::new();
    let m = config.modifiers;
    let mac = matches!(platform, Platform::MacOs);
    if mac {
        if m.meta {
            push_word(&mut parts, &cmd);
        }
        if m.shift {
            push_word(&mut parts, &shift);
        }
        if m.alt {
            push_word(&mut parts, &opt);
        }
        if m.control {
            push_word(&mut parts, &ctl);
        }
    } else {
        if m.meta {
            push_word(&mut parts, &meta);
        }
        if m.control {
            push_word(&mut parts, &ctrl);
        }
        if m.shift {
            push_word(&mut parts, &shift_l);
        }
        if m.alt {
            push_word(&mut parts, &alt_l);
        }
    }
    let key = format_key_chars(config.key.as_str(), platform);
    push_word(&mut parts, key.as_slice());
    assert(parts@.map_values(|p: Vec<char>| p@) =~= display_parts(*config, platform));
    let joined = if mac {
        join_chars(&parts, &none)
    } else {
        join_chars(&parts, &sep)
    };
    string_of(joined.as_slice())
}

// ----------------------------------------------------------------------------
// Keys pressed in the hotkey recorder
// ----------------------------------------------------------------------------

/// A named key as the window layer reports it.
#[derive(Debug, Clone, Copy, PartialEq, Eq, Structural)]
pub enum NamedKey {
    Space,
    Enter,
    Tab,
    Backspace,
    Escape,
    ArrowUp,
    ArrowDown,
    ArrowLeft,
    ArrowRight,
    Home,
    End,
    PageUp,
    PageDown,
    Insert,
    Delete,
    F1,
    F2,
    F3,
    F4,
    F5,
    F6,
    F7,
    F8,
    F9,
    F10,
    F11,
    F12,
    Shift,
    Control,
    Alt,
    Super,
    /// Any other named key.
    Other,
}

/// A key as the window layer reports it: the text it types, a named key,
/// or an unidentified key.
#[derive(Debug, Clone)]
pub enum PressedKey {
    Character(String),
    Named(NamedKey),
    Unidentified,
}

/// Modifier keys as the window layer reports them.
#[derive(Debug, Clone, Copy, PartialEq, Eq, Structural)]
pub struct PressedModifiers {
    pub shift: bool,
    pub alt: bool,
    pub ctrl: bool,
    /// The logo (Command, Windows) key.
    pub logo: bool,
}

/// The code name of a named key that can be a hotkey's key (modifier keys
/// and other keys cannot).
pub open spec fn named_code(n: NamedKey) -> Option<Seq<char>> {
    match n {
        NamedKey::Space => Some("Space"@),
        NamedKey::Enter => Some("Enter"@),
        NamedKey::Tab => Some("Tab"@),
        NamedKey::Backspace => Some("Backspace"@),
        NamedKey::Escape => Some("Escape"@),
        NamedKey::ArrowUp => Some("ArrowUp"@),
        NamedKey::ArrowDown => Some("ArrowDown"@),
        NamedKey::ArrowLeft => Some("ArrowLeft"@),
        NamedKey::ArrowRight => Some("ArrowRight"@),
        NamedKey::Home => Some("Home"@),
        NamedKey::End => Some("End"@),
        NamedKey::PageUp => Some("PageUp"@),
        NamedKey::PageDown => Some("PageDown"@),
        NamedKey::Insert => Some("Insert"@),
        NamedKey::Delete => Some("Delete"@),
        NamedKey::F1 => Some("F1"@),
        NamedKey::F2 => Some("F2"@),
        NamedKey::F3 => Some("F3"@),
        NamedKey::F4 => Some("F4"@),
        NamedKey::F5 => Some("F5"@),
        NamedKey::F6 => Some("F6"@),
        NamedKey::F7 => Some("F7"@),
        NamedKey::F8 => Some("F8"@),
        NamedKey::F9 => Some("F9"@),
        NamedKey::F10 => Some("F10"@),
        NamedKey::F11 => Some("F11"@),
        NamedKey::F12 => Some("F12"@),
        _ => None,
    }
}

/// The code name of a typed character: "KeyA" to "KeyZ" for letters of
/// either case, "Digit0" to "Digit9" for digits.
pub open spec fn character_code(c: char) -> Option<Seq<char>> {
    let u = text::ascii_upper(c);
    if 'A' <= u <= 'Z' {
        Some(seq!['K', 'e', 'y', u])
    } else if '0' <= c <= '9' {
        Some(seq!['D', 'i', 'g', 'i', 't', c])
    } else {
        None
    }
}

/// The hotkey code of a pressed key: a single one-byte character, or a
/// named key that can be a hotkey's key.
pub open spec fn pressed_key_code(key: PressedKey) -> Option<Seq<char>> {
    match key {
        PressedKey::Character(s) => if s@.len() == 1 && s@.first() <= '\u{7f}' {
            character_code(s@.first())
        } else {
            None
        },
        PressedKey::Named(n) => named_code(n),
        PressedKey::Unidentified => None,
    }
}

fn named_code_str(n: NamedKey) -> (r: Option<&'static str>)
    ensures
        r is Some <==> named_code(n) is Some,
        r is Some ==> r.unwrap()@ == named_code(n).unwrap(),
{
    match n {
        NamedKey::Space => Some("Space"),
        NamedKey::Enter => Some("Enter"),
        NamedKey::Tab => Some("Tab"),
        NamedKey::Backspace => Some("Backspace"),
        NamedKey::Escape => Some("Escape"),
        NamedKey::ArrowUp => Some("ArrowUp"),
        NamedKey::ArrowDown => Some("ArrowDown"),
        NamedKey::ArrowLeft => Some("ArrowLeft"),
        NamedKey::ArrowRight => Some("ArrowRight"),
        NamedKey::Home => Some("Home"),
        NamedKey::End => Some("End"),
        NamedKey::PageUp => Some("PageUp"),
        NamedKey::PageDown => Some("PageDown"),
        NamedKey::Insert => Some("Insert"),
        NamedKey::Delete => Some("Delete"),
        NamedKey::F1 => Some("F1"),
        NamedKey::F2 => Some("F2"),
        NamedKey::F3 => Some("F3"),
        NamedKey::F4 => Some("F4"),
        NamedKey::F5 => Some("F5"),
        NamedKey::F6 => Some("F6"),
        NamedKey::F7 => Some("F7"),
        NamedKey::F8 => Some("F8"),
        NamedKey::F9 => Some("F9"),
        NamedKey::F10 => Some("F10"),
        NamedKey::F11 => Some("F11"),
        NamedKey::F12 => Some("F12"),
        _ => None,
    }
}

/// The hotkey code (as a [`HotkeyConfig`] names its key) of a key pressed
/// while recording a hotkey; none for keys that cannot be a hotkey's key.
pub fn iced_key_to_global_hotkey_code(key: &PressedKey) -> (r: Option<String>)
    ensures
        r is Some <==> pressed_key_code(*key) is Some,
        r is Some ==> r.unwrap()@ == pressed_key_code(*key).unwrap(),
{
    match key {
        PressedKey::Character(s) => {
            let v = to_chars(s.as_str());
            if v.len() != 1 || v[0] > '\u{7f}' {
                return None;
            }
            let c = v[0];
            let u = text::to_ascii_upper(c);
            if 'A' <= u && u <= 'Z' {
                Some(string_of(&['K', 'e', 'y', u]))
            } else if '0' <= c && c <= '9' {
                Some(string_of(&['D', 'i', 'g', 'i', 't', c]))
            } else {
                None
            }
        },
        PressedKey::Named(n) => match named_code_str(*n) {
            Some(name) => Some(name.to_owned()),
            None => None,
        },
        PressedKey::Unidentified => None,
    }
}

/// The hotkey modifiers of the modifier keys held: Control maps to
/// control and the logo key to meta.
pub fn iced_modifiers_to_global_hotkey_modifiers(modifiers: PressedModifiers) -> (m: HotkeyModifiers)
    ensures
        m == (HotkeyModifiers {
            shift: modifiers.shift,
            alt: modifiers.alt,
            control: modifiers.ctrl,
            meta: modifiers.logo,
        }),
{
    HotkeyModifiers { shift: modifiers.shift, alt: modifiers.alt, control: modifiers.ctrl, meta: modifiers.logo }
}

// ----------------------------------------------------------------------------
// Laws
// ----------------------------------------------------------------------------

/// The codes the hotkey recorder can produce: those of letter, digit and
/// named keys.
pub open spec fn is_hotkey_code(name: Seq<char>) -> bool {
    exists|k: PressedKey| pressed_key_code(k) == Some(name)
}

proof fn lemma_key_names()
    ensures
        "Space"@ == seq!['S', 'p', 'a', 'c', 'e'],
        "space"@ == seq!['s', 'p', 'a', 'c', 'e'],
        "Enter"@ == seq!['E', 'n', 't', 'e', 'r'],
        "enter"@ == seq!['e', 'n', 't', 'e', 'r'],
        "Tab"@ == seq!['T', 'a', 'b'],
        "tab"@ == seq!['t', 'a', 'b'],
        "Backspace"@ == seq!['B', 'a', 'c', 'k', 's', 'p', 'a', 'c', 'e'],
        "backspace"@ == seq!['b', 'a', 'c', 'k', 's', 'p', 'a', 'c', 'e'],
        "Escape"@ == seq!['E', 's', 'c', 'a', 'p', 'e'],
        "escape"@ == seq!['e', 's', 'c', 'a', 'p', 'e'],
        "ArrowUp"@ == seq!['A', 'r', 'r', 'o', 'w', 'U', 'p'],
        "arrowup"@ == seq!['a', 'r', 'r', 'o', 'w', 'u', 'p'],
        "ArrowDown"@ == seq!['A', 'r', 'r', 'o', 'w', 'D', 'o', 'w', 'n'],
        "arrowdown"@ == seq!['a', 'r', 'r', 'o', 'w', 'd', 'o', 'w', 'n'],
        "ArrowLeft"@ == seq!['A', 'r', 'r', 'o', 'w', 'L', 'e', 'f', 't'],
        "arrowleft"@ == seq!['a', 'r', 'r', 'o', 'w', 'l', 'e', 'f', 't'],
        "ArrowRight"@ == seq!['A', 'r', 'r', 'o', 'w', 'R', 'i', 'g', 'h', 't'],
        "arrowright"@ == seq!['a', 'r', 'r', 'o', 'w', 'r', 'i', 'g', 'h', 't'],
        "Home"@ == seq!['H', 'o', 'm', 'e'],
        "home"@ == seq!['h', 'o', 'm', 'e'],
        "End"@ == seq!['E', 'n', 'd'],
        "end"@ == seq!['e', 'n', 'd'],
        "PageUp"@ == seq!['P', 'a', 'g', 'e', 'U', 'p'],
        "pageup"@ == seq!['p', 'a', 'g', 'e', 'u', 'p'],
        "PageDown"@ == seq!['P', 'a', 'g', 'e', 'D', 'o', 'w', 'n'],
        "pagedown"@ == seq!['p', 'a', 'g', 'e', 'd', 'o', 'w', 'n'],
        "Insert"@ == seq!['I', 'n', 's', 'e', 'r', 't'],
        "insert"@ == seq!['i', 'n', 's', 'e', 'r', 't'],
        "Delete"@ == seq!['D', 'e', 'l', 'e', 't', 'e'],
        "delete"@ == seq!['d', 'e', 'l', 'e', 't', 'e'],
        "F1"@ == seq!['F', '1'],
        "f1"@ == seq!['f', '1'],
        "F2"@ == seq!['F', '2'],
        "f2"@ == seq!['f', '2'],
        "F3"@ == seq!['F', '3'],
        "f3"@ == seq!['f', '3'],
        "F4"@ == seq!['F', '4'],
        "f4"@ == seq!['f', '4'],
        "F5"@ == seq!['F', '5'],
        "f5"@ == seq!['f', '5'],
        "F6"@ == seq!['F', '6'],
        "f6"@ == seq!['f', '6'],
        "F7"@ == seq!['F', '7'],
        "f7"@ == seq!['f', '7'],
        "F8"@ == seq!['F', '8'],
        "f8"@ == seq!['f', '8'],
        "F9"@ == seq!['F', '9'],
        "f9"@ == seq!['f', '9'],
        "F10"@ == seq!['F', '1', '0'],
        "f10"@ == seq!['f', '1', '0'],
        "F11"@ == seq!['F', '1', '1'],
        "f11"@ == seq!['f', '1', '1'],
        "F12"@ == seq!['F', '1', '2'],
        "f12"@ == seq!['f', '1', '2'],
{
    reveal_strlit("Space");
    reveal_strlit("space");
    reveal_strlit("Enter");
    reveal_strlit("enter");
    reveal_strlit("Tab");
    reveal_strlit("tab");
    reveal_strlit("Backspace");
    reveal_strlit("backspace");
    reveal_strlit("Escape");
    reveal_strlit("escape");
    reveal_strlit("ArrowUp");
    reveal_strlit("arrowup");
    reveal_strlit("ArrowDown");
    reveal_strlit("arrowdown");
    reveal_strlit("ArrowLeft");
    reveal_strlit("arrowleft");
    reveal_strlit("ArrowRight");
    reveal_strlit("arrowright");
    reveal_strlit("Home");
    reveal_strlit("home");
    reveal_strlit("End");
    reveal_strlit("end");
    reveal_strlit("PageUp");
    reveal_strlit("pageup");
    reveal_strlit("PageDown");
    reveal_strlit("pagedown");
    reveal_strlit("Insert");
    reveal_strlit("insert");
    reveal_strlit("Delete");
    reveal_strlit("delete");
    reveal_strlit("F1");
    reveal_strlit("f1");
    reveal_strlit("F2");
    reveal_strlit("f2");
    reveal_strlit("F3");
    reveal_strlit("f3");
    reveal_strlit("F4");
    reveal_strlit("f4");
    reveal_strlit("F5");
    reveal_strlit("f5");
    reveal_strlit("F6");
    reveal_strlit("f6");
    reveal_strlit("F7");
    reveal_strlit("f7");
    reveal_strlit("F8");
    reveal_strlit("f8");
    reveal_strlit("F9");
    reveal_strlit("f9");
    reveal_strlit("F10");
    reveal_strlit("f10");
    reveal_strlit("F11");
    reveal_strlit("f11");
    reveal_strlit("F12");
    reveal_strlit("f12");
}

proof fn lemma_named_key_round_trip(n: NamedKey)
    requires
        named_code(n) is Some,
    ensures
        spec_code_to_string(named_code(n).unwrap()).len() > 0,
        spec_string_to_code(spec_code_to_string(named_code(n).unwrap())) == named_code(n).unwrap(),
{
    lemma_key_names();
    let key = seq!['K', 'e', 'y'];
    match n {
        NamedKey::Space => {
            assert(seq!['S', 'p', 'a', 'c', 'e'].take(3) != key);
            assert(text::lower_seq(seq!['S', 'p', 'a', 'c', 'e']) =~= seq!['s', 'p', 'a', 'c', 'e']);
            assert(text::lower_seq(seq!['s', 'p', 'a', 'c', 'e']) =~= seq!['s', 'p', 'a', 'c', 'e']);
        },
        NamedKey::Enter => {
            assert(seq!['E', 'n', 't', 'e', 'r'].take(3) != key);
            assert(text::lower_seq(seq!['E', 'n', 't', 'e', 'r']) =~= seq!['e', 'n', 't', 'e', 'r']);
            assert(text::lower_seq(seq!['e', 'n', 't', 'e', 'r']) =~= seq!['e', 'n', 't', 'e', 'r']);
        },
        NamedKey::Tab => {
            assert(seq!['T', 'a', 'b'].take(3) != key);
            assert(text::lower_seq(seq!['T', 'a', 'b']) =~= seq!['t', 'a', 'b']);
            assert(text::lower_seq(seq!['t', 'a', 'b']) =~= seq!['t', 'a', 'b']);
        },
        NamedKey::Backspace => {
            assert(seq!['B', 'a', 'c', 'k', 's', 'p', 'a', 'c', 'e'].take(3) != key);
            assert(text::lower_seq(seq!['B', 'a', 'c', 'k', 's', 'p', 'a', 'c', 'e']) =~= seq!['b', 'a', 'c', 'k', 's', 'p', 'a', 'c', 'e']);
            assert(text::lower_seq(seq!['b', 'a', 'c', 'k', 's', 'p', 'a', 'c', 'e']) =~= seq!['b', 'a', 'c', 'k', 's', 'p', 'a', 'c', 'e']);
        },
        NamedKey::Escape => {
            assert(seq!['E', 's', 'c', 'a', 'p', 'e'].take(3) != key);
            assert(text::lower_seq(seq!['E', 's', 'c', 'a', 'p', 'e']) =~= seq!['e', 's', 'c', 'a', 'p', 'e']);
            assert(text::lower_seq(seq!['e', 's', 'c', 'a', 'p', 'e']) =~= seq!['e', 's', 'c', 'a', 'p', 'e']);
        },
        NamedKey::ArrowUp => {
            assert(seq!['A', 'r', 'r', 'o', 'w', 'U', 'p'].take(3) != key);
            assert(text::lower_seq(seq!['A', 'r', 'r', 'o', 'w', 'U', 'p']) =~= seq!['a', 'r', 'r', 'o', 'w', 'u', 'p']);
            assert(text::lower_seq(seq!['a', 'r', 'r', 'o', 'w', 'u', 'p']) =~= seq!['a', 'r', 'r', 'o', 'w', 'u', 'p']);
        },
        NamedKey::ArrowDown => {
            assert(seq!['A', 'r', 'r', 'o', 'w', 'D', 'o', 'w', 'n'].take(3) != key);
            assert(text::lower_seq(seq!['A', 'r', 'r', 'o', 'w', 'D', 'o', 'w', 'n']) =~= seq!['a', 'r', 'r', 'o', 'w', 'd', 'o', 'w', 'n']);
            assert(text::lower_seq(seq!['a', 'r', 'r', 'o', 'w', 'd', 'o', 'w', 'n']) =~= seq!['a', 'r', 'r', 'o', 'w', 'd', 'o', 'w', 'n']);
        },
        NamedKey::ArrowLeft => {
            assert(seq!['A', 'r', 'r', 'o', 'w', 'L', 'e', 'f', 't'].take(3) != key);
            assert(text::lower_seq(seq!['A', 'r', 'r', 'o', 'w', 'L', 'e', 'f', 't']) =~= seq!['a', 'r', 'r', 'o', 'w', 'l', 'e', 'f', 't']);
            assert(text::lower_seq(seq!['a', 'r', 'r', 'o', 'w', 'l', 'e', 'f', 't']) =~= seq!['a', 'r', 'r', 'o', 'w', 'l', 'e', 'f', 't']);
        },
        NamedKey::ArrowRight => {
            assert(seq!['A', 'r', 'r', 'o', 'w', 'R', 'i', 'g', 'h', 't'].take(3) != key);
            assert(text::lower_seq(seq!['A', 'r', 'r', 'o', 'w', 'R', 'i', 'g', 'h', 't']) =~= seq!['a', 'r', 'r', 'o', 'w', 'r', 'i', 'g', 'h', 't']);
            assert(text::lower_seq(seq!['a', 'r', 'r', 'o', 'w', 'r', 'i', 'g', 'h', 't']) =~= seq!['a', 'r', 'r', 'o', 'w', 'r', 'i', 'g', 'h', 't']);
        },
        NamedKey::Home => {
            assert(seq!['H', 'o', 'm', 'e'].take(3) != key);
            assert(text::lower_seq(seq!['H', 'o', 'm', 'e']) =~= seq!['h', 'o', 'm', 'e']);
            assert(text::lower_seq(seq!['h', 'o', 'm', 'e']) =~= seq!['h', 'o', 'm', 'e']);
        },
        NamedKey::End => {
            assert(seq!['E', 'n', 'd'].take(3) != key);
            assert(text::lower_seq(seq!['E', 'n', 'd']) =~= seq!['e', 'n', 'd']);
            assert(text::lower_seq(seq!['e', 'n', 'd']) =~= seq!['e', 'n', 'd']);
        },
        NamedKey::PageUp => {
            assert(seq!['P', 'a', 'g', 'e', 'U', 'p'].take(3) != key);
            assert(text::lower_seq(seq!['P', 'a', 'g', 'e', 'U', 'p']) =~= seq!['p', 'a', 'g', 'e', 'u', 'p']);
            assert(text::lower_seq(seq!['p', 'a', 'g', 'e', 'u', 'p']) =~= seq!['p', 'a', 'g', 'e', 'u', 'p']);
        },
        NamedKey::PageDown => {
            assert(seq!['P', 'a', 'g', 'e', 'D', 'o', 'w', 'n'].take(3) != key);
            assert(text::lower_seq(seq!['P', 'a', 'g', 'e', 'D', 'o', 'w', 'n']) =~= seq!['p', 'a', 'g', 'e', 'd', 'o', 'w', 'n']);
            assert(text::lower_seq(seq!['p', 'a', 'g', 'e', 'd', 'o', 'w', 'n']) =~= seq!['p', 'a', 'g', 'e', 'd', 'o', 'w', 'n']);
        },
        NamedKey::Insert => {
            assert(seq!['I', 'n', 's', 'e', 'r', 't'].take(3) != key);
            assert(text::lower_seq(seq!['I', 'n', 's', 'e', 'r', 't']) =~= seq!['i', 'n', 's', 'e', 'r', 't']);
            assert(text::lower_seq(seq!['i', 'n', 's', 'e', 'r', 't']) =~= seq!['i', 'n', 's', 'e', 'r', 't']);
        },
        NamedKey::Delete => {
            assert(seq!['D', 'e', 'l', 'e', 't', 'e'].take(3) != key);
            assert(text::lower_seq(seq!['D', 'e', 'l', 'e', 't', 'e']) =~= seq!['d', 'e', 'l', 'e', 't', 'e']);
            assert(text::lower_seq(seq!['d', 'e', 'l', 'e', 't', 'e']) =~= seq!['d', 'e', 'l', 'e', 't', 'e']);
        },
        NamedKey::F1 => {
            assert(text::lower_seq(seq!['F', '1']) =~= seq!['f', '1']);
            assert(text::lower_seq(seq!['f', '1']) =~= seq!['f', '1']);
        },
        NamedKey::F2 => {
            assert(text::lower_seq(seq!['F', '2']) =~= seq!['f', '2']);
            assert(text::lower_seq(seq!['f', '2']) =~= seq!['f', '2']);
        },
        NamedKey::F3 => {
            assert(text::lower_seq(seq!['F', '3']) =~= seq!['f', '3']);
            assert(text::lower_seq(seq!['f', '3']) =~= seq!['f', '3']);
        },
        NamedKey::F4 => {
            assert(text::lower_seq(seq!['F', '4']) =~= seq!['f', '4']);
            assert(text::lower_seq(seq!['f', '4']) =~= seq!['f', '4']);
        },
        NamedKey::F5 => {
            assert(text::lower_seq(seq!['F', '5']) =~= seq!['f', '5']);
            assert(text::lower_seq(seq!['f', '5']) =~= seq!['f', '5']);
        },
        NamedKey::F6 => {
            assert(text::lower_seq(seq!['F', '6']) =~= seq!['f', '6']);
            assert(text::lower_seq(seq!['f', '6']) =~= seq!['f', '6']);
        },
        NamedKey::F7 => {
            assert(text::lower_seq(seq!['F', '7']) =~= seq!['f', '7']);
            assert(text::lower_seq(seq!['f', '7']) =~= seq!['f', '7']);
        },
        NamedKey::F8 => {
            assert(text::lower_seq(seq!['F', '8']) =~= seq!['f', '8']);
            assert(text::lower_seq(seq!['f', '8']) =~= seq!['f', '8']);
        },
        NamedKey::F9 => {
            assert(text::lower_seq(seq!['F', '9']) =~= seq!['f', '9']);
            assert(text::lower_seq(seq!['f', '9']) =~= seq!['f', '9']);
        },
        NamedKey::F10 => {
            assert(seq!['F', '1', '0'].take(3) != key);
            assert(text::lower_seq(seq!['F', '1', '0']) =~= seq!['f', '1', '0']);
            assert(text::lower_seq(seq!['f', '1', '0']) =~= seq!['f', '1', '0']);
        },
        NamedKey::F11 => {
            assert(seq!['F', '1', '1'].take(3) != key);
            assert(text::lower_seq(seq!['F', '1', '1']) =~= seq!['f', '1', '1']);
            assert(text::lower_seq(seq!['f', '1', '1']) =~= seq!['f', '1', '1']);
        },
        NamedKey::F12 => {
            assert(seq!['F', '1', '2'].take(3) != key);
            assert(text::lower_seq(seq!['F', '1', '2']) =~= seq!['f', '1', '2']);
            assert(text::lower_seq(seq!['f', '1', '2']) =~= seq!['f', '1', '2']);
        },
        _ => {},
    }
}

/// The stored word of every key the hotkey recorder can produce is not empty
/// and names that key again.
pub proof fn lemma_key_round_trip(name: Seq<char>)
    requires
        is_hotkey_code(name),
    ensures
        spec_code_to_string(name).len() > 0,
        spec_string_to_code(spec_code_to_string(name)) == name,
{
    let k = choose|k: PressedKey| pressed_key_code(k) == Some(name);
    let key = seq!['K', 'e', 'y'];
    match k {
        PressedKey::Character(s) => {
            let c = s@.first();
            let u = text::ascii_upper(c);
            if 'A' <= u <= 'Z' {
                assert(name == seq!['K', 'e', 'y', u]);
                assert(name.take(3) =~= key);
                assert(name.skip(3) =~= seq![u]);
                let l = text::ascii_lower(u);
                assert('a' <= l <= 'z' && text::ascii_upper(l) == u) by {
                    assert((u as u32 + 32) as u32 as char as u32 == u as u32 + 32);
                };
                assert(spec_code_to_string(name) =~= seq![l]);
                assert(text::lower_seq(seq![l]) =~= seq![l]);
            } else {
                assert(name == seq!['D', 'i', 'g', 'i', 't', c]);
                assert(name.take(3) != key) by { assert(name.take(3)[0] != key[0]); };
                let w = seq!['d', 'i', 'g', 'i', 't', c];
                assert(spec_code_to_string(name) =~= w);
                assert(text::lower_seq(w) =~= w);
                assert(w.take(5) =~= seq!['d', 'i', 'g', 'i', 't']);
            }
        },
        PressedKey::Named(n) => {
            lemma_named_key_round_trip(n);
        },
        PressedKey::Unidentified => {},
    }
}

/// A lower case word without whitespace compares as itself.
proof fn lemma_norm_word_id(w: Seq<char>)
    requires
        w.len() > 0,
        forall|i: int| 0 <= i < w.len() ==> 'a' <= #[trigger] w[i] <= 'z',
    ensures
        norm_word(w) == w,
{
    text::lemma_trim_id(w);
    assert(text::lower_seq(w) =~= w);
}

proof fn lemma_modifier_words(m: HotkeyModifiers, p: Platform)
    requires
        m != no_modifiers(),
    ensures
        modifier_words(m, p).len() >= 1,
        forall|i: int| 0 <= i < modifier_words(m, p).len() ==> {
            let w = #[trigger] modifier_words(m, p)[i];
            &&& norm_word(w) == w
            &&& (is_shift_word(w) <==> w == seq!['s', 'h', 'i', 'f', 't'])
            &&& (is_alt_word(w) <==> w == seq!['a', 'l', 't'])
            &&& (is_control_word(w) <==> w == seq!['c', 'o', 'n', 't', 'r', 'o', 'l'])
            &&& (is_meta_word(w) <==> w == meta_word(p))
            &&& forall|j: int| 0 <= j < w.len() ==> w[j] != ','
        },
{
    let ws = modifier_words(m, p);
    let shift = seq!['s', 'h', 'i', 'f', 't'];
    let alt = seq!['a', 'l', 't'];
    let control = seq!['c', 'o', 'n', 't', 'r', 'o', 'l'];
    let mw = meta_word(p);
    lemma_norm_word_id(shift);
    lemma_norm_word_id(alt);
    lemma_norm_word_id(control);
    lemma_norm_word_id(mw);
    assert(shift.len() != alt.len() && shift.len() != control.len() && alt.len() != control.len());
    assert(shift != seq!['c', 'm', 'd'] && shift != seq!['m', 'e', 't', 'a'] && shift != seq!['c', 't', 'r', 'l']);
    assert(shift != seq!['o', 'p', 't', 'i', 'o', 'n'] && shift != seq!['c', 'o', 'm', 'm', 'a', 'n', 'd']) by {
        assert(shift[0] != 'o' && shift[0] != 'c');
    }
    assert(alt != seq!['c', 'm', 'd']) by { assert(alt[0] != 'c'); }
    assert(alt != seq!['m', 'e', 't', 'a'] && alt != seq!['c', 't', 'r', 'l'] && alt != seq!['o', 'p', 't', 'i', 'o', 'n']);
    assert(alt != seq!['c', 'o', 'm', 'm', 'a', 'n', 'd']);
    assert(control != seq!['c', 'o', 'm', 'm', 'a', 'n', 'd']) by { assert(control[2] != 'm'); }
    assert(control != seq!['c', 'm', 'd'] && control != seq!['m', 'e', 't', 'a'] && control != seq!['o', 'p', 't', 'i', 'o', 'n']);
    assert(mw != seq!['c', 'o', 'n', 't', 'r', 'o', 'l']) by {
        if p == Platform::MacOs { assert(mw[2] != 'n'); }
    }
    assert(mw != seq!['c', 't', 'r', 'l']) by {
        if p != Platform::MacOs { assert(mw[0] != 'c'); }
    }
    assert(mw != seq!['o', 'p', 't', 'i', 'o', 'n'] && mw != alt && mw != shift) by {
        if p == Platform::MacOs { assert(mw[0] != 'o'); } else { assert(mw[0] != 'o' && mw[0] != 's'); }
    }
    assert(ws.len() >= 1);
    assert forall|i: int| 0 <= i < ws.len() implies #[trigger] ws[i] == shift || ws[i] == alt || ws[i] == control || ws[i] == mw by {}
}

#[verifier::spinoff_prover]
#[verifier::rlimit(50)]
proof fn lemma_modifiers_round_trip(m: HotkeyModifiers, p: Platform)
    requires
        m != no_modifiers(),
    ensures
        spec_modifiers_to_string(m, p).len() > 0,
        spec_string_to_modifiers(spec_modifiers_to_string(m, p)) == m,
{
    let ws = modifier_words(m, p);
    lemma_modifier_words(m, p);
    assert forall|i: int, j: int| 0 <= i < ws.len() && 0 <= j < ws[i].len() implies ws[i][j] != ',' by {
        let w = ws[i];
    }
    text::lemma_split_join(ws, ',');
    let joined = spec_modifiers_to_string(m, p);
    if joined.len() == 0 {
        text::lemma_split_first(joined, ',');
        let w = ws[0];
        assert(norm_word(w) == w);
        assert(w.len() > 0);
    }
    let parts = text::split_char(joined, ',');
    assert(parts == ws);
    let shift = seq!['s', 'h', 'i', 'f', 't'];
    let alt = seq!['a', 'l', 't'];
    let control = seq!['c', 'o', 'n', 't', 'r', 'o', 'l'];
    let mw = meta_word(p);
    let ks: int = if m.shift { 1 } else { 0 };
    let ka: int = ks + if m.alt { 1int } else { 0int };
    let kc: int = ka + if m.control { 1int } else { 0int };
    if m.shift {
        assert(ws[0] == shift);
        assert(is_shift_word(norm_word(parts[0])));
    }
    if m.alt {
        assert(ws[ks] == alt);
        assert(is_alt_word(norm_word(parts[ks])));
    }
    if m.control {
        assert(ws[ka] == control);
        assert(is_control_word(norm_word(parts[ka])));
    }
    if m.meta {
        assert(ws[kc] == mw);
        assert(is_meta_word(norm_word(parts[kc])));
    }
    assert(has_shift(parts) == m.shift);
    assert(has_alt(parts) == m.alt);
    assert(has_control(parts) == m.control);
    assert(has_meta(parts) == m.meta);
}

/// A saved hotkey reads back as saved, for every key the hotkey recorder can
/// produce, when it has at least one modifier (a hotkey without modifiers
/// reads back with the default modifiers).
pub proof fn lemma_hotkey_round_trip(
    loaded: LoadedConfig,
    hotkey: HotkeyConfig,
    enabled: bool,
    p: Platform,
    saved: RawConfig,
)
    requires
        is_saved_hotkey(loaded, hotkey, enabled, p, saved),
        is_hotkey_code(hotkey.key@),
        hotkey.modifiers != no_modifiers(),
    ensures
        spec_load_hotkey_config(Ok(saved), p) == (hotkey.modifiers, hotkey.key@, enabled),
{
    lemma_key_round_trip(hotkey.key@);
    lemma_modifiers_round_trip(hotkey.modifiers, p);
}

/// Saving the hotkey leaves every other setting as it read before.
pub proof fn lemma_save_hotkey_keeps_settings(
    loaded: LoadedConfig,
    hotkey: HotkeyConfig,
    enabled: bool,
    p: Platform,
    saved: RawConfig,
)
    requires
        is_saved_hotkey(loaded, hotkey, enabled, p, saved),
    ensures
        config::settings(Ok(saved)) == config::settings(loaded),
{
    let base = RawConfig {
        hotkey_enabled: Some(enabled),
        hotkey_modifiers: saved.hotkey_modifiers,
        hotkey_key: saved.hotkey_key,
        ..config::spec_or_default(loaded)
    };
    config::lemma_normalize_keeps_settings(base);
}

/// The named key whose code is `code`, spelled out letter by letter.
pub open spec fn named_key_with_code(code: Seq<char>) -> Option<NamedKey> {
    if code == seq!['S', 'p', 'a', 'c', 'e'] {
        Some(NamedKey::Space)
    } else if code == seq!['E', 'n', 't', 'e', 'r'] {
        Some(NamedKey::Enter)
    } else if code == seq!['T', 'a', 'b'] {
        Some(NamedKey::Tab)
    } else if code == seq!['B', 'a', 'c', 'k', 's', 'p', 'a', 'c', 'e'] {
        Some(NamedKey::Backspace)
    } else if code == seq!['E', 's', 'c', 'a', 'p', 'e'] {
        Some(NamedKey::Escape)
    } else if code == seq!['A', 'r', 'r', 'o', 'w', 'U', 'p'] {
        Some(NamedKey::ArrowUp)
    } else if code == seq!['A', 'r', 'r', 'o', 'w', 'D', 'o', 'w', 'n'] {
        Some(NamedKey::ArrowDown)
    } else if code == seq!['A', 'r', 'r', 'o', 'w', 'L', 'e', 'f', 't'] {
        Some(NamedKey::ArrowLeft)
    } else if code == seq!['A', 'r', 'r', 'o', 'w', 'R', 'i', 'g', 'h', 't'] {
        Some(NamedKey::ArrowRight)
    } else if code == seq!['H', 'o', 'm', 'e'] {
        Some(NamedKey::Home)
    } else if code == seq!['E', 'n', 'd'] {
        Some(NamedKey::End)
    } else if code == seq!['P', 'a', 'g', 'e', 'U', 'p'] {
        Some(NamedKey::PageUp)
    } else if code == seq!['P', 'a', 'g', 'e', 'D', 'o', 'w', 'n'] {
        Some(NamedKey::PageDown)
    } else if code == seq!['I', 'n', 's', 'e', 'r', 't'] {
        Some(NamedKey::Insert)
    } else if code == seq!['D', 'e', 'l', 'e', 't', 'e'] {
        Some(NamedKey::Delete)
    } else if code == seq!['F', '1'] {
        Some(NamedKey::F1)
    } else if code == seq!['F', '2'] {
        Some(NamedKey::F2)
    } else if code == seq!['F', '3'] {
        Some(NamedKey::F3)
    } else if code == seq!['F', '4'] {
        Some(NamedKey::F4)
    } else if code == seq!['F', '5'] {
        Some(NamedKey::F5)
    } else if code == seq!['F', '6'] {
        Some(NamedKey::F6)
    } else if code == seq!['F', '7'] {
        Some(NamedKey::F7)
    } else if code == seq!['F', '8'] {
        Some(NamedKey::F8)
    } else if code == seq!['F', '9'] {
        Some(NamedKey::F9)
    } else if code == seq!['F', '1', '0'] {
        Some(NamedKey::F10)
    } else if code == seq!['F', '1', '1'] {
        Some(NamedKey::F11)
    } else if code == seq!['F', '1', '2'] {
        Some(NamedKey::F12)
    } else {
        None
    }
}

proof fn lemma_named_code_names_key(n: NamedKey)
    requires
        named_code(n) is Some,
    ensures
        named_key_with_code(named_code(n).unwrap()) == Some(n),
{
    lemma_key_names();
    match n {
        NamedKey::Space => {
            assert(named_code(n).unwrap() =~= seq!['S', 'p', 'a', 'c', 'e']);
        },
        NamedKey::Enter => {
            assert(named_code(n).unwrap() =~= seq!['E', 'n', 't', 'e', 'r']);
        },
        NamedKey::Tab => {
            assert(named_code(n).unwrap() =~= seq!['T', 'a', 'b']);
        },
        NamedKey::Backspace => {
            assert(named_code(n).unwrap() =~= seq!['B', 'a', 'c', 'k', 's', 'p', 'a', 'c', 'e']);
        },
        NamedKey::Escape => {
            assert(named_code(n).unwrap() =~= seq!['E', 's', 'c', 'a', 'p', 'e']);
        },
        NamedKey::ArrowUp => {
            assert(named_code(n).unwrap() =~= seq!['A', 'r', 'r', 'o', 'w', 'U', 'p']);
        },
        NamedKey::ArrowDown => {
            assert(named_code(n).unwrap() =~= seq!['A', 'r', 'r', 'o', 'w', 'D', 'o', 'w', 'n']);
        },
        NamedKey::ArrowLeft => {
            assert(named_code(n).unwrap() =~= seq!['A', 'r', 'r', 'o', 'w', 'L', 'e', 'f', 't']);
        },
        NamedKey::ArrowRight => {
            assert(named_code(n).unwrap() =~= seq!['A', 'r', 'r', 'o', 'w', 'R', 'i', 'g', 'h', 't']);
        },
        NamedKey::Home => {
            assert(named_code(n).unwrap() =~= seq!['H', 'o', 'm', 'e']);
        },
        NamedKey::End => {
            assert(named_code(n).unwrap() =~= seq!['E', 'n', 'd']);
        },
        NamedKey::PageUp => {
            assert(named_code(n).unwrap() =~= seq!['P', 'a', 'g', 'e', 'U', 'p']);
        },
        NamedKey::PageDown => {
            assert(named_code(n).unwrap() =~= seq!['P', 'a', 'g', 'e', 'D', 'o', 'w', 'n']);
        },
        NamedKey::Insert => {
            assert(named_code(n).unwrap() =~= seq!['I', 'n', 's', 'e', 'r', 't']);
        },
        NamedKey::Delete => {
            assert(named_code(n).unwrap() =~= seq!['D', 'e', 'l', 'e', 't', 'e']);
        },
        NamedKey::F1 => {
            assert(named_code(n).unwrap() =~= seq!['F', '1']);
        },
        NamedKey::F2 => {
            assert(named_code(n).unwrap() =~= seq!['F', '2']);
        },
        NamedKey::F3 => {
            assert(named_code(n).unwrap() =~= seq!['F', '3']);
        },
        NamedKey::F4 => {
            assert(named_code(n).unwrap() =~= seq!['F', '4']);
        },
        NamedKey::F5 => {
            assert(named_code(n).unwrap() =~= seq!['F', '5']);
        },
        NamedKey::F6 => {
            assert(named_code(n).unwrap() =~= seq!['F', '6']);
        },
        NamedKey::F7 => {
            assert(named_code(n).unwrap() =~= seq!['F', '7']);
        },
        NamedKey::F8 => {
            assert(named_code(n).unwrap() =~= seq!['F', '8']);
        },
        NamedKey::F9 => {
            assert(named_code(n).unwrap() =~= seq!['F', '9']);
        },
        NamedKey::F10 => {
            assert(named_code(n).unwrap() =~= seq!['F', '1', '0']);
        },
        NamedKey::F11 => {
            assert(named_code(n).unwrap() =~= seq!['F', '1', '1']);
        },
        NamedKey::F12 => {
            assert(named_code(n).unwrap() =~= seq!['F', '1', '2']);
        },
        _ => {},
    }
}

/// Each named key is recorded under its own name: distinct named keys get
/// distinct codes, and the code of a key spells that key's name.
pub proof fn lemma_named_codes_distinct(n1: NamedKey, n2: NamedKey)
    requires
        named_code(n1) is Some,
        named_code(n1) == named_code(n2),
    ensures
        n1 == n2,
        named_key_with_code(named_code(n1).unwrap()) == Some(n1),
{
    lemma_named_code_names_key(n1);
    lemma_named_code_names_key(n2);
}

/// A typed letter or digit is recorded under its own key: the code ends
/// with the character (letters in upper case), and two characters get the
/// same code only when they are the same up to case.
pub proof fn lemma_character_codes_distinct(c1: char, c2: char)
    requires
        character_code(c1) is Some,
        character_code(c1) == character_code(c2),
    ensures
        text::ascii_upper(c1) == text::ascii_upper(c2),
        character_code(c1).unwrap().last() == text::ascii_upper(c1),
{
    let u1 = text::ascii_upper(c1);
    let u2 = text::ascii_upper(c2);
    if 'A' <= u1 <= 'Z' {
        assert(character_code(c1).unwrap() =~= seq!['K', 'e', 'y', u1]);
        if 'A' <= u2 <= 'Z' {
            assert(character_code(c2).unwrap()[3] == u2);
        } else {
            assert(character_code(c2).unwrap().len() == 6);
        }
    } else {
        assert(character_code(c1).unwrap() =~= seq!['D', 'i', 'g', 'i', 't', c1]);
        if 'A' <= u2 <= 'Z' {
            assert(character_code(c2).unwrap().len() == 4);
        } else {
            assert(character_code(c2).unwrap()[5] == c2);
        }
    }
}

/// A key's label is its name without "Key": as it is on Windows, in upper
/// case on Linux, and in upper case on macOS except Space, shown as "Space".
pub proof fn lemma_key_label(name: Seq<char>)
    ensures
        spec_format_key_code(name, Platform::Windows) == strip_key(name),
        spec_format_key_code(name, Platform::Linux) == text::upper_seq(strip_key(name)),
        name != seq!['S', 'p', 'a', 'c', 'e'] ==> spec_format_key_code(name, Platform::MacOs) == text::upper_seq(strip_key(name)),
        spec_format_key_code(seq!['S', 'p', 'a', 'c', 'e'], Platform::MacOs) == seq!['S', 'p', 'a', 'c', 'e'],
{
    let key = seq!['K', 'e', 'y'];
    if name == key_r() || name == seq!['K', 'e', 'y', 'T'] || name == seq!['K', 'e', 'y', 'S'] {
        assert(name.take(3) =~= key);
        assert(strip_key(name) =~= seq![name[3]]);
        assert(text::upper_seq(seq![name[3]]) =~= seq![name[3]]);
    }
    let sp = seq!['S', 'p', 'a', 'c', 'e'];
    assert(sp.take(3) != key) by {
        assert(sp.take(3)[0] != key[0]);
    }
}

} // verus!
