//! Global hotkey: parsing the configured key combination, and the recording
//! decisions taken on presses and releases.
//!
//! Registering the combination with the desktop is done outside the library;
//! here a combination is a set of modifiers and one key.
use vstd::prelude::*;

use crate::settings::{decimal_text, hex_digit, HotkeyMode};
use crate::text::{
    chars_of, eq_str, lowercase, split_chars, split_on, string_from_chars, to_lowercase, trim,
    trim_chars, trim_end, trim_start, ascii_lowercase, is_ascii_text, lemma_split_appends_piece,
    lemma_split_without_separator,
};

verus! {

/// The keys a hotkey can end in.
#[derive(Debug, Clone, Copy, PartialEq, Eq, Structural)]
pub enum KeyCode {
    Space,
    Enter,
    Tab,
    Backspace,
    Escape,
    Delete,
    Home,
    End,
    PageUp,
    PageDown,
    F1,
    F2,
    F3,
    F4,
    F5,
    F6,
    F7,
    F8,
    F9,
    F10,
    F11,
    F12,
    KeyA,
    KeyB,
    KeyC,
    KeyD,
    KeyE,
    KeyF,
    KeyG,
    KeyH,
    KeyI,
    KeyJ,
    KeyK,
    KeyL,
    KeyM,
    KeyN,
    KeyO,
    KeyP,
    KeyQ,
    KeyR,
    KeyS,
    KeyT,
    KeyU,
    KeyV,
    KeyW,
    KeyX,
    KeyY,
    KeyZ,
    Digit0,
    Digit1,
    Digit2,
    Digit3,
    Digit4,
    Digit5,
    Digit6,
    Digit7,
    Digit8,
    Digit9,
}

/// The modifier keys held with the key.
#[derive(Debug, Clone, Copy, PartialEq, Eq, Structural)]
pub struct ModifierSet {
    pub control: bool,
    pub alt: bool,
    pub shift: bool,
    pub meta: bool,
}

impl ModifierSet {
    /// No modifier is held.
    pub open spec fn none() -> ModifierSet {
        ModifierSet { control: false, alt: false, shift: false, meta: false }
    }

    /// No modifier is held.
    pub fn empty() -> (m: ModifierSet)
        ensures
            m == ModifierSet::none(),
    {
        ModifierSet { control: false, alt: false, shift: false, meta: false }
    }

    /// Whether no modifier is held.
    pub fn is_empty(&self) -> (b: bool)
        ensures
            b == (*self == ModifierSet::none()),
    {
        !self.control && !self.alt && !self.shift && !self.meta
    }
}

/// A key combination: the modifiers and the key.
#[derive(Debug, Clone, Copy, PartialEq, Eq, Structural)]
pub struct ShortcutSpec {
    pub modifiers: ModifierSet,
    pub code: KeyCode,
}

/// Why a hotkey string names no combination.
#[derive(Debug, Clone)]
pub enum HotkeyError {
    /// This part of the string is neither a modifier nor a known key.
    UnknownKey(String),
    /// The string names modifiers only.
    NoKeyCode,
}

/// The key code named by a (lowercase) key name.
pub open spec fn key_code_of(k: Seq<char>) -> Option<KeyCode> {
    if k == "space"@ {
        Some(KeyCode::Space)
    }     else if k == "enter"@ {
        Some(KeyCode::Enter)
    }     else if k == "return"@ {
        Some(KeyCode::Enter)
    }     else if k == "tab"@ {
        Some(KeyCode::Tab)
    }     else if k == "backspace"@ {
        Some(KeyCode::Backspace)
    }     else if k == "escape"@ {
        Some(KeyCode::Escape)
    }     else if k == "esc"@ {
        Some(KeyCode::Escape)
    }     else if k == "delete"@ {
        Some(KeyCode::Delete)
    }     else if k == "home"@ {
        Some(KeyCode::Home)
    }     else if k == "end"@ {
        Some(KeyCode::End)
    }     else if k == "pageup"@ {
        Some(KeyCode::PageUp)
    }     else if k == "pagedown"@ {
        Some(KeyCode::PageDown)
    }     else if k == "f1"@ {
        Some(KeyCode::F1)
    }     else if k == "f2"@ {
        Some(KeyCode::F2)
    }     else if k == "f3"@ {
        Some(KeyCode::F3)
    }     else if k == "f4"@ {
        Some(KeyCode::F4)
    }     else if k == "f5"@ {
        Some(KeyCode::F5)
    }     else if k == "f6"@ {
        Some(KeyCode::F6)
    }     else if k == "f7"@ {
        Some(KeyCode::F7)
    }     else if k == "f8"@ {
        Some(KeyCode::F8)
    }     else if k == "f9"@ {
        Some(KeyCode::F9)
    }     else if k == "f10"@ {
        Some(KeyCode::F10)
    }     else if k == "f11"@ {
        Some(KeyCode::F11)
    }     else if k == "f12"@ {
        Some(KeyCode::F12)
    } else if k.len() == 1 && k[0] == 'a' {
        Some(KeyCode::KeyA)
    } else if k.len() == 1 && k[0] == 'b' {
        Some(KeyCode::KeyB)
    } else if k.len() == 1 && k[0] == 'c' {
        Some(KeyCode::KeyC)
    } else if k.len() == 1 && k[0] == 'd' {
        Some(KeyCode::KeyD)
    } else if k.len() == 1 && k[0] == 'e' {
        Some(KeyCode::KeyE)
    } else if k.len() == 1 && k[0] == 'f' {
        Some(KeyCode::KeyF)
    } else if k.len() == 1 && k[0] == 'g' {
        Some(KeyCode::KeyG)
    } else if k.len() == 1 && k[0] == 'h' {
        Some(KeyCode::KeyH)
    } else if k.len() == 1 && k[0] == 'i' {
        Some(KeyCode::KeyI)
    } else if k.len() == 1 && k[0] == 'j' {
        Some(KeyCode::KeyJ)
    } else if k.len() == 1 && k[0] == 'k' {
        Some(KeyCode::KeyK)
    } else if k.len() == 1 && k[0] == 'l' {
        Some(KeyCode::KeyL)
    } else if k.len() == 1 && k[0] == 'm' {
        Some(KeyCode::KeyM)
    } else if k.len() == 1 && k[0] == 'n' {
        Some(KeyCode::KeyN)
    } else if k.len() == 1 && k[0] == 'o' {
        Some(KeyCode::KeyO)
    } else if k.len() == 1 && k[0] == 'p' {
        Some(KeyCode::KeyP)
    } else if k.len() == 1 && k[0] == 'q' {
        Some(KeyCode::KeyQ)
    } else if k.len() == 1 && k[0] == 'r' {
        Some(KeyCode::KeyR)
    } else if k.len() == 1 && k[0] == 's' {
        Some(KeyCode::KeyS)
    } else if k.len() == 1 && k[0] == 't' {
        Some(KeyCode::KeyT)
    } else if k.len() == 1 && k[0] == 'u' {
        Some(KeyCode::KeyU)
    } else if k.len() == 1 && k[0] == 'v' {
        Some(KeyCode::KeyV)
    } else if k.len() == 1 && k[0] == 'w' {
        Some(KeyCode::KeyW)
    } else if k.len() == 1 && k[0] == 'x' {
        Some(KeyCode::KeyX)
    } else if k.len() == 1 && k[0] == 'y' {
        Some(KeyCode::KeyY)
    } else if k.len() == 1 && k[0] == 'z' {
        Some(KeyCode::KeyZ)
    } else if k.len() == 1 && k[0] == '0' {
        Some(KeyCode::Digit0)
    } else if k.len() == 1 && k[0] == '1' {
        Some(KeyCode::Digit1)
    } else if k.len() == 1 && k[0] == '2' {
        Some(KeyCode::Digit2)
    } else if k.len() == 1 && k[0] == '3' {
        Some(KeyCode::Digit3)
    } else if k.len() == 1 && k[0] == '4' {
        Some(KeyCode::Digit4)
    } else if k.len() == 1 && k[0] == '5' {
        Some(KeyCode::Digit5)
    } else if k.len() == 1 && k[0] == '6' {
        Some(KeyCode::Digit6)
    } else if k.len() == 1 && k[0] == '7' {
        Some(KeyCode::Digit7)
    } else if k.len() == 1 && k[0] == '8' {
        Some(KeyCode::Digit8)
    } else if k.len() == 1 && k[0] == '9' {
        Some(KeyCode::Digit9)
    } else {
        None
    }
}

/// The place of a letter or digit key on the keyboard: `KeyA` to `KeyZ` are
/// 0 to 25 in alphabetical order, `Digit0` to `Digit9` are 26 to 35; other
/// keys have none (-1).
pub open spec fn letter_or_digit_place(k: KeyCode) -> int {
    match k {
        KeyCode::KeyA => 0,
        KeyCode::KeyB => 1,
        KeyCode::KeyC => 2,
        KeyCode::KeyD => 3,
        KeyCode::KeyE => 4,
        KeyCode::KeyF => 5,
        KeyCode::KeyG => 6,
        KeyCode::KeyH => 7,
        KeyCode::KeyI => 8,
        KeyCode::KeyJ => 9,
        KeyCode::KeyK => 10,
        KeyCode::KeyL => 11,
        KeyCode::KeyM => 12,
        KeyCode::KeyN => 13,
        KeyCode::KeyO => 14,
        KeyCode::KeyP => 15,
        KeyCode::KeyQ => 16,
        KeyCode::KeyR => 17,
        KeyCode::KeyS => 18,
        KeyCode::KeyT => 19,
        KeyCode::KeyU => 20,
        KeyCode::KeyV => 21,
        KeyCode::KeyW => 22,
        KeyCode::KeyX => 23,
        KeyCode::KeyY => 24,
        KeyCode::KeyZ => 25,
        KeyCode::Digit0 => 26,
        KeyCode::Digit1 => 27,
        KeyCode::Digit2 => 28,
        KeyCode::Digit3 => 29,
        KeyCode::Digit4 => 30,
        KeyCode::Digit5 => 31,
        KeyCode::Digit6 => 32,
        KeyCode::Digit7 => 33,
        KeyCode::Digit8 => 34,
        KeyCode::Digit9 => 35,
        _ => -1,
    }
}

/// Every single lowercase letter names its own letter key and every single
/// digit its own digit key: `"a"` is `KeyA`, `"d"` is `KeyD`, `"7"` is `Digit7`.
pub proof fn lemma_letters_and_digits_name_their_keys(c: char)
    ensures
        'a' <= c <= 'z' ==> (key_code_of(seq![c]) matches Some(k) && letter_or_digit_place(k)
            == (c as int) - ('a' as int)),
        '0' <= c <= '9' ==> (key_code_of(seq![c]) matches Some(k) && letter_or_digit_place(k)
            == 26 + (c as int) - ('0' as int)),
{
    reveal_strlit("space");
    reveal_strlit("enter");
    reveal_strlit("return");
    reveal_strlit("tab");
    reveal_strlit("backspace");
    reveal_strlit("escape");
    reveal_strlit("esc");
    reveal_strlit("delete");
    reveal_strlit("home");
    reveal_strlit("end");
    reveal_strlit("pageup");
    reveal_strlit("pagedown");
    reveal_strlit("f1");
    reveal_strlit("f2");
    reveal_strlit("f3");
    reveal_strlit("f4");
    reveal_strlit("f5");
    reveal_strlit("f6");
    reveal_strlit("f7");
    reveal_strlit("f8");
    reveal_strlit("f9");
    reveal_strlit("f10");
    reveal_strlit("f11");
    reveal_strlit("f12");
    assert("space"@.len() == 5);
    assert("enter"@.len() == 5);
    assert("return"@.len() == 6);
    assert("tab"@.len() == 3);
    assert("backspace"@.len() == 9);
    assert("escape"@.len() == 6);
    assert("esc"@.len() == 3);
    assert("delete"@.len() == 6);
    assert("home"@.len() == 4);
    assert("end"@.len() == 3);
    assert("pageup"@.len() == 6);
    assert("pagedown"@.len() == 8);
    assert("f1"@.len() == 2);
    assert("f2"@.len() == 2);
    assert("f3"@.len() == 2);
    assert("f4"@.len() == 2);
    assert("f5"@.len() == 2);
    assert("f6"@.len() == 2);
    assert("f7"@.len() == 2);
    assert("f8"@.len() == 2);
    assert("f9"@.len() == 2);
    assert("f10"@.len() == 3);
    assert("f11"@.len() == 3);
    assert("f12"@.len() == 3);
}

fn key_code_of_chars(k: &Vec<char>) -> (r: Option<KeyCode>)
    ensures
        r == key_code_of(k@),
{
    if eq_str(k, "space") {
        Some(KeyCode::Space)
    }     else if eq_str(k, "enter") {
        Some(KeyCode::Enter)
    }     else if eq_str(k, "return") {
        Some(KeyCode::Enter)
    }     else if eq_str(k, "tab") {
        Some(KeyCode::Tab)
    }     else if eq_str(k, "backspace") {
        Some(KeyCode::Backspace)
    }     else if eq_str(k, "escape") {
        Some(KeyCode::Escape)
    }     else if eq_str(k, "esc") {
        Some(KeyCode::Escape)
    }     else if eq_str(k, "delete") {
        Some(KeyCode::Delete)
    }     else if eq_str(k, "home") {
        Some(KeyCode::Home)
    }     else if eq_str(k, "end") {
        Some(KeyCode::End)
    }     else if eq_str(k, "pageup") {
        Some(KeyCode::PageUp)
    }     else if eq_str(k, "pagedown") {
        Some(KeyCode::PageDown)
    }     else if eq_str(k, "f1") {
        Some(KeyCode::F1)
    }     else if eq_str(k, "f2") {
        Some(KeyCode::F2)
    }     else if eq_str(k, "f3") {
        Some(KeyCode::F3)
    }     else if eq_str(k, "f4") {
        Some(KeyCode::F4)
    }     else if eq_str(k, "f5") {
        Some(KeyCode::F5)
    }     else if eq_str(k, "f6") {
        Some(KeyCode::F6)
    }     else if eq_str(k, "f7") {
        Some(KeyCode::F7)
    }     else if eq_str(k, "f8") {
        Some(KeyCode::F8)
    }     else if eq_str(k, "f9") {
        Some(KeyCode::F9)
    }     else if eq_str(k, "f10") {
        Some(KeyCode::F10)
    }     else if eq_str(k, "f11") {
        Some(KeyCode::F11)
    }     else if eq_str(k, "f12") {
        Some(KeyCode::F12)
    } else if k.len() == 1 && k[0] == 'a' {
        Some(KeyCode::KeyA)
    } else if k.len() == 1 && k[0] == 'b' {
        Some(KeyCode::KeyB)
    } else if k.len() == 1 && k[0] == 'c' {
        Some(KeyCode::KeyC)
    } else if k.len() == 1 && k[0] == 'd' {
        Some(KeyCode::KeyD)
    } else if k.len() == 1 && k[0] == 'e' {
        Some(KeyCode::KeyE)
    } else if k.len() == 1 && k[0] == 'f' {
        Some(KeyCode::KeyF)
    } else if k.len() == 1 && k[0] == 'g' {
        Some(KeyCode::KeyG)
    } else if k.len() == 1 && k[0] == 'h' {
        Some(KeyCode::KeyH)
    } else if k.len() == 1 && k[0] == 'i' {
        Some(KeyCode::KeyI)
    } else if k.len() == 1 && k[0] == 'j' {
        Some(KeyCode::KeyJ)
    } else if k.len() == 1 && k[0] == 'k' {
        Some(KeyCode::KeyK)
    } else if k.len() == 1 && k[0] == 'l' {
        Some(KeyCode::KeyL)
    } else if k.len() == 1 && k[0] == 'm' {
        Some(KeyCode::KeyM)
    } else if k.len() == 1 && k[0] == 'n' {
        Some(KeyCode::KeyN)
    } else if k.len() == 1 && k[0] == 'o' {
        Some(KeyCode::KeyO)
    } else if k.len() == 1 && k[0] == 'p' {
        Some(KeyCode::KeyP)
    } else if k.len() == 1 && k[0] == 'q' {
        Some(KeyCode::KeyQ)
    } else if k.len() == 1 && k[0] == 'r' {
        Some(KeyCode::KeyR)
    } else if k.len() == 1 && k[0] == 's' {
        Some(KeyCode::KeyS)
    } else if k.len() == 1 && k[0] == 't' {
        Some(KeyCode::KeyT)
    } else if k.len() == 1 && k[0] == 'u' {
        Some(KeyCode::KeyU)
    } else if k.len() == 1 && k[0] == 'v' {
        Some(KeyCode::KeyV)
    } else if k.len() == 1 && k[0] == 'w' {
        Some(KeyCode::KeyW)
    } else if k.len() == 1 && k[0] == 'x' {
        Some(KeyCode::KeyX)
    } else if k.len() == 1 && k[0] == 'y' {
        Some(KeyCode::KeyY)
    } else if k.len() == 1 && k[0] == 'z' {
        Some(KeyCode::KeyZ)
    } else if k.len() == 1 && k[0] == '0' {
        Some(KeyCode::Digit0)
    } else if k.len() == 1 && k[0] == '1' {
        Some(KeyCode::Digit1)
    } else if k.len() == 1 && k[0] == '2' {
        Some(KeyCode::Digit2)
    } else if k.len() == 1 && k[0] == '3' {
        Some(KeyCode::Digit3)
    } else if k.len() == 1 && k[0] == '4' {
        Some(KeyCode::Digit4)
    } else if k.len() == 1 && k[0] == '5' {
        Some(KeyCode::Digit5)
    } else if k.len() == 1 && k[0] == '6' {
        Some(KeyCode::Digit6)
    } else if k.len() == 1 && k[0] == '7' {
        Some(KeyCode::Digit7)
    } else if k.len() == 1 && k[0] == '8' {
        Some(KeyCode::Digit8)
    } else if k.len() == 1 && k[0] == '9' {
        Some(KeyCode::Digit9)
    } else {
        None
    }
}

/// Parse a (lowercase) key name such as `space`, `f5`, `a` or `7`.
pub fn parse_code(key: &str) -> (r: Result<KeyCode, HotkeyError>)
    ensures
        match key_code_of(key@) {
            Some(c) => r matches Ok(d) && d == c,
            None => r matches Err(HotkeyError::UnknownKey(k)) && k@ == key@,
        },
{
    let k = chars_of(key);
    match key_code_of_chars(&k) {
        Some(c) => Ok(c),
        None => Err(HotkeyError::UnknownKey(string_from_chars(&k))),
    }
}

/// Names of the control modifier.
pub open spec fn is_control_name(p: Seq<char>) -> bool {
    p == "ctrl"@ || p == "control"@
}

/// Names of the alt modifier.
pub open spec fn is_alt_name(p: Seq<char>) -> bool {
    p == "alt"@ || p == "option"@
}

/// Names of the shift modifier.
pub open spec fn is_shift_name(p: Seq<char>) -> bool {
    p == "shift"@
}

/// Names of the meta modifier.
pub open spec fn is_meta_name(p: Seq<char>) -> bool {
    p == "meta"@ || p == "super"@ || p == "win"@ || p == "cmd"@ || p == "command"@
}

/// The modifiers and key gathered from the parts of a hotkey string, in
/// order: a modifier name adds the modifier, any other part must name a key
/// and replaces the key so far; the first part that does neither is the error.
pub open spec fn shortcut_parts(parts: Seq<Seq<char>>) -> Result<
    (ModifierSet, Option<KeyCode>),
    Seq<char>,
>
    decreases parts.len(),
{
    if parts.len() == 0 {
        Ok((ModifierSet::none(), None))
    } else {
        match shortcut_parts(parts.drop_last()) {
            Err(k) => Err(k),
            Ok((m, c)) => {
                let p = trim(parts.last());
                if is_control_name(p) {
                    Ok((ModifierSet { control: true, alt: m.alt, shift: m.shift, meta: m.meta }, c))
                } else if is_alt_name(p) {
                    Ok((ModifierSet { control: m.control, alt: true, shift: m.shift, meta: m.meta }, c))
                } else if is_shift_name(p) {
                    Ok((ModifierSet { control: m.control, alt: m.alt, shift: true, meta: m.meta }, c))
                } else if is_meta_name(p) {
                    Ok((ModifierSet { control: m.control, alt: m.alt, shift: m.shift, meta: true }, c))
                } else {
                    match key_code_of(p) {
                        Some(k) => Ok((m, Some(k))),
                        None => Err(p),
                    }
                }
            },
        }
    }
}

/// The combination a lowercase hotkey string names: its `+`-separated parts,
/// each trimmed. `Err(Some(p))`: part `p` is unknown; `Err(None)`: no key.
pub open spec fn shortcut_of(lowered: Seq<char>) -> Result<ShortcutSpec, Option<Seq<char>>> {
    match shortcut_parts(split_on(lowered, '+')) {
        Err(p) => Err(Some(p)),
        Ok((m, None)) => Err(None),
        Ok((m, Some(c))) => Ok(ShortcutSpec { modifiers: m, code: c }),
    }
}

/// Parse a hotkey string like "ctrl+space" or "alt+shift+f", case-insensitively.
pub fn parse_shortcut(hotkey: &str) -> (r: Result<ShortcutSpec, HotkeyError>)
    ensures
        match shortcut_of(lowercase(hotkey@)) {
            Ok(s) => r matches Ok(t) && t == s,
            Err(Some(p)) => r matches Err(HotkeyError::UnknownKey(k)) && k@ == p,
            Err(None) => r matches Err(HotkeyError::NoKeyCode),
        },
        is_ascii_text(hotkey@) ==> match shortcut_of(ascii_lowercase(hotkey@)) {
            Ok(s) => r matches Ok(t) && t == s,
            Err(Some(p)) => r matches Err(HotkeyError::UnknownKey(k)) && k@ == p,
            Err(None) => r matches Err(HotkeyError::NoKeyCode),
        },
{
    let lowered = to_lowercase(hotkey);
    let chars = chars_of(lowered.as_str());
    let parts = split_chars(&chars, '+');
    let ghost all = split_on(lowercase(hotkey@), '+');
    let n = parts.len();
    let mut m = ModifierSet::empty();
    let mut code: Option<KeyCode> = None;
    let mut i: usize = 0;
    assert(all.take(0) =~= Seq::<Seq<char>>::empty());
    while i < n
        invariant
            n == parts@.len(),
            crate::text::seqs_view(parts@) == all,
            all == split_on(lowercase(hotkey@), '+'),
            is_ascii_text(hotkey@) ==> lowercase(hotkey@) == ascii_lowercase(hotkey@),
            0 <= i <= n,
            shortcut_parts(all.take(i as int)) == Ok::<(ModifierSet, Option<KeyCode>), Seq<char>>(
                (m, code),
            ),
        decreases n - i,
    {
        let p = trim_chars(&parts[i]);
        assert(all.take(i + 1).drop_last() =~= all.take(i as int));
        assert(all.take(i + 1).last() == parts@[i as int]@);
        if eq_str(&p, "ctrl") || eq_str(&p, "control") {
            m = ModifierSet { control: true, alt: m.alt, shift: m.shift, meta: m.meta };
        } else if eq_str(&p, "alt") || eq_str(&p, "option") {
            m = ModifierSet { control: m.control, alt: true, shift: m.shift, meta: m.meta };
        } else if eq_str(&p, "shift") {
            m = ModifierSet { control: m.control, alt: m.alt, shift: true, meta: m.meta };
        } else if eq_str(&p, "meta") || eq_str(&p, "super") || eq_str(&p, "win") || eq_str(&p, "cmd")
            || eq_str(&p, "command") {
            m = ModifierSet { control: m.control, alt: m.alt, shift: m.shift, meta: true };
        } else {
            match key_code_of_chars(&p) {
                Some(k) => {
                    code = Some(k);
                },
                None => {
                    assert(trim(all.take(i + 1).last()) == p@);
                    assert(shortcut_parts(all.take(i + 1)) == Err::<
                        (ModifierSet, Option<KeyCode>),
                        Seq<char>,
                    >(p@));
                    proof {
                        lemma_shortcut_parts_error_sticks(all, i as int + 1);
                    }
                    assert(shortcut_parts(all) == Err::<(ModifierSet, Option<KeyCode>), Seq<char>>(
                        p@,
                    ));
                    assert(shortcut_of(lowercase(hotkey@)) == Err::<
                        ShortcutSpec,
                        Option<Seq<char>>,
                    >(Some(p@)));
                    return Err(HotkeyError::UnknownKey(string_from_chars(&p)));
                },
            }
        }
        i = i + 1;
    }
    assert(all.take(n as int) =~= all);
    match code {
        Some(c) => Ok(ShortcutSpec { modifiers: m, code: c }),
        None => Err(HotkeyError::NoKeyCode),
    }
}

/// Once a part is unknown, the parts after it do not change the outcome.
proof fn lemma_shortcut_parts_error_sticks(parts: Seq<Seq<char>>, i: int)
    requires
        0 <= i <= parts.len(),
        shortcut_parts(parts.take(i)) is Err,
    ensures
        shortcut_parts(parts) == shortcut_parts(parts.take(i)),
    decreases parts.len() - i,
{
    if i < parts.len() {
        assert(parts.take(i + 1).drop_last() =~= parts.take(i));
        lemma_shortcut_parts_error_sticks(parts, i + 1);
    } else {
        assert(parts.take(i) =~= parts);
    }
}


// ──────────────────────────────────────────────────────────────
// Recording decisions
// ──────────────────────────────────────────────────────────────

/// A lowercase hexadecimal digit.
pub open spec fn is_lower_hex(c: char) -> bool {
    ('0' <= c <= '9') || ('a' <= c <= 'f')
}

/// The hyphenated text of a random (version 4) UUID, as `uuid` writes it:
/// 36 characters, hyphens at 8, 13, 18 and 23, lowercase hex digits
/// elsewhere, the version digit `4` at 14 and a variant digit among
/// `8`, `9`, `a`, `b` at 19.
pub open spec fn is_v4_uuid_text(s: Seq<char>) -> bool {
    &&& s.len() == 36
    &&& forall|i: int|
        0 <= i < 36 ==> if i == 8 || i == 13 || i == 18 || i == 23 {
            #[trigger] s[i] == '-'
        } else {
            is_lower_hex(s[i])
        }
    &&& s[14] == '4'
    &&& (s[19] == '8' || s[19] == '9' || s[19] == 'a' || s[19] == 'b')
}

/// Byte `i` of a random UUID built from `bytes`: the version nibble `4` set in
/// byte 6, the variant bits `10` in byte 8, every other byte as drawn.
pub open spec fn v4_uuid_byte(bytes: Seq<u8>, i: int) -> nat {
    if i == 6 {
        (bytes[6] as nat) % 16 + 64
    } else if i == 8 {
        (bytes[8] as nat) % 64 + 128
    } else {
        bytes[i] as nat
    }
}

/// Position of character `k` of the hyphenated text among its 32 hex digits.
pub open spec fn uuid_digit_index(k: int) -> int {
    if k < 8 {
        k
    } else if k < 13 {
        k - 1
    } else if k < 18 {
        k - 2
    } else if k < 23 {
        k - 3
    } else {
        k - 4
    }
}

/// The hyphenated lowercase text of the random UUID built from 16 bytes:
/// two hex digits per byte, high nibble first, in groups of 8-4-4-4-12.
pub open spec fn uuid_v4_text(bytes: Seq<u8>) -> Seq<char> {
    Seq::new(
        36,
        |k: int|
            if k == 8 || k == 13 || k == 18 || k == 23 {
                '-'
            } else {
                let j = uuid_digit_index(k);
                let b = v4_uuid_byte(bytes, j / 2);
                if j % 2 == 0 {
                    hex_digit(b / 16)
                } else {
                    hex_digit(b % 16)
                }
            },
    )
}

/// The text built from any 16 bytes has the format of a random UUID.
pub proof fn lemma_uuid_v4_text_format(bytes: Seq<u8>)
    requires
        bytes.len() == 16,
    ensures
        is_v4_uuid_text(uuid_v4_text(bytes)),
{
    let t = uuid_v4_text(bytes);
    assert forall|i: int|
        0 <= i < 36 implies if i == 8 || i == 13 || i == 18 || i == 23 {
            #[trigger] t[i] == '-'
        } else {
            is_lower_hex(t[i])
        } by {
        if !(i == 8 || i == 13 || i == 18 || i == 23) {
            let j = uuid_digit_index(i);
            let b = v4_uuid_byte(bytes, j / 2);
            assert(0 <= j / 2 < 16);
            assert(b < 256);
            assert(b / 16 < 16);
        }
    }
    let b6 = v4_uuid_byte(bytes, 6);
    assert(b6 / 16 == 4);
    let b8 = v4_uuid_byte(bytes, 8);
    assert(8 <= b8 / 16 < 12);
}

/// Calls `uuid::Builder::from_random_bytes(random).into_uuid().to_string()`:
/// the crate's `with_variant` and `with_version` set the variant bits of byte 8
/// and the version nibble of byte 6, and its `Display` writes the 16 bytes as
/// hyphenated lowercase hex, which is what `uuid_v4_text` states. It does not
/// draw randomness and does not panic.
#[verifier::external_body]
fn v4_uuid_text(random: [u8; 16]) -> (s: String)
    ensures
        s@ == uuid_v4_text(random@),
{
    uuid::Builder::from_random_bytes(random).into_uuid().to_string()
}

/// What the audio side is asked to do.
#[derive(Debug, Clone)]
pub enum RecorderCommand {
    /// Nothing to do.
    Nothing,
    /// Detect the focused app and start capturing a new session.
    Start { session_id: String },
    /// Stop the current capture and hand the audio over for transcription.
    Stop,
    /// Starting the capture failed: report the error.
    ReportStartFailure,
}

/// The recording flag after a step, and the command the step issues.
#[derive(Debug, Clone)]
pub struct RecorderStep {
    pub recording: bool,
    pub command: RecorderCommand,
}

/// Events of the recorder as the hotkey and the audio side see them.
#[derive(Debug, Clone, Copy, PartialEq, Eq, Structural)]
pub enum RecorderEvent {
    /// The hotkey went down (or the start button was used).
    Pressed,
    /// The hotkey went up.
    Released,
    /// A stop was asked for directly (the stop button).
    StopRequested,
    /// Sending the start command to the audio side failed.
    StartFailed,
}

/// The kinds of recorder commands.
#[derive(Debug, Clone, Copy, PartialEq, Eq, Structural)]
pub enum CommandKind {
    Nothing,
    Start,
    Stop,
    ReportStartFailure,
}

/// The kind of command an event leads to, from the recording flag and the mode.
pub open spec fn command_kind(mode: HotkeyMode, recording: bool, e: RecorderEvent) -> CommandKind {
    match e {
        RecorderEvent::Pressed => if recording {
            CommandKind::Stop
        } else {
            CommandKind::Start
        },
        RecorderEvent::Released => if mode == HotkeyMode::Toggle || !recording {
            CommandKind::Nothing
        } else {
            CommandKind::Stop
        },
        RecorderEvent::StopRequested => if recording {
            CommandKind::Stop
        } else {
            CommandKind::Nothing
        },
        RecorderEvent::StartFailed => CommandKind::ReportStartFailure,
    }
}

/// The recording flag after an event.
pub open spec fn recording_after(recording: bool, e: RecorderEvent) -> bool {
    match e {
        RecorderEvent::Pressed => true,
        RecorderEvent::StartFailed => false,
        _ => recording,
    }
}

/// The kind of a command.
pub open spec fn kind_of(c: RecorderCommand) -> CommandKind {
    match c {
        RecorderCommand::Nothing => CommandKind::Nothing,
        RecorderCommand::Start { .. } => CommandKind::Start,
        RecorderCommand::Stop => CommandKind::Stop,
        RecorderCommand::ReportStartFailure => CommandKind::ReportStartFailure,
    }
}

/// Registers and drives the global hotkey.
pub struct HotkeyManager;

impl HotkeyManager {
    /// A press marks the session as recording at once (so that two quick
    /// presses cannot both start one); a press while recording stops it.
    /// A new session's id is the random UUID built from the 16 bytes `random`,
    /// which the caller draws.
    pub fn on_press(was_recording: bool, random: [u8; 16]) -> (s: RecorderStep)
        ensures
            s.recording == recording_after(was_recording, RecorderEvent::Pressed),
            kind_of(s.command) == command_kind(HotkeyMode::Hold, was_recording, RecorderEvent::Pressed),
            s.command matches RecorderCommand::Start { session_id } ==> session_id@ == uuid_v4_text(
                random@,
            ) && is_v4_uuid_text(session_id@),
    {
        if was_recording {
            RecorderStep { recording: true, command: RecorderCommand::Stop }
        } else {
            let session_id = v4_uuid_text(random);
            proof {
                lemma_uuid_v4_text_format(random@);
            }
            RecorderStep { recording: true, command: RecorderCommand::Start { session_id } }
        }
    }

    /// A stop asked for directly stops a running recording and does nothing otherwise.
    pub fn on_stop_request(recording: bool) -> (s: RecorderStep)
        ensures
            s.recording == recording_after(recording, RecorderEvent::StopRequested),
            kind_of(s.command) == command_kind(HotkeyMode::Hold, recording, RecorderEvent::StopRequested),
    {
        if recording {
            RecorderStep { recording, command: RecorderCommand::Stop }
        } else {
            RecorderStep { recording, command: RecorderCommand::Nothing }
        }
    }

    /// In toggle mode, physical release does not stop recording; in hold mode it does.
    pub fn on_release(mode: HotkeyMode, recording: bool) -> (s: RecorderStep)
        ensures
            s.recording == recording_after(recording, RecorderEvent::Released),
            kind_of(s.command) == command_kind(mode, recording, RecorderEvent::Released),
    {
        if mode == HotkeyMode::Toggle {
            RecorderStep { recording, command: RecorderCommand::Nothing }
        } else {
            Self::on_stop_request(recording)
        }
    }

    /// A start that could not be handed to the audio side clears the flag and is reported.
    pub fn on_start_failed() -> (s: RecorderStep)
        ensures
            s.recording == recording_after(true, RecorderEvent::StartFailed),
            kind_of(s.command) == command_kind(HotkeyMode::Hold, true, RecorderEvent::StartFailed),
    {
        RecorderStep { recording: false, command: RecorderCommand::ReportStartFailure }
    }
}

/// A second press always stops what the first one started, in either mode:
/// from idle a press starts and marks recording, and the next press stops.
pub proof fn lemma_press_twice(mode: HotkeyMode)
    ensures
        command_kind(mode, false, RecorderEvent::Pressed) == CommandKind::Start,
        recording_after(false, RecorderEvent::Pressed),
        command_kind(mode, recording_after(false, RecorderEvent::Pressed), RecorderEvent::Pressed)
            == CommandKind::Stop,
{
}

/// In toggle mode a release neither issues a command nor changes the flag.
pub proof fn lemma_toggle_release_inert(recording: bool)
    ensures
        command_kind(HotkeyMode::Toggle, recording, RecorderEvent::Released) == CommandKind::Nothing,
        recording_after(recording, RecorderEvent::Released) == recording,
{
}

/// In hold mode, pressing from idle and releasing starts and then stops.
pub proof fn lemma_hold_press_release()
    ensures
        command_kind(HotkeyMode::Hold, false, RecorderEvent::Pressed) == CommandKind::Start,
        command_kind(HotkeyMode::Hold, recording_after(false, RecorderEvent::Pressed), RecorderEvent::Released)
            == CommandKind::Stop,
{
}

/// Nothing is ever stopped unless it is recording, and a start is only
/// issued from idle.
pub proof fn lemma_commands_follow_flag(mode: HotkeyMode, recording: bool, e: RecorderEvent)
    ensures
        command_kind(mode, recording, e) == CommandKind::Stop ==> recording,
        command_kind(mode, recording, e) == CommandKind::Start ==> !recording,
{
}

/// No modifier name is also a key name, and the modifier names need no trimming.
proof fn lemma_modifier_words()
    ensures
        key_code_of("ctrl"@) is None,
        key_code_of("control"@) is None,
        key_code_of("alt"@) is None,
        key_code_of("option"@) is None,
        key_code_of("shift"@) is None,
        key_code_of("meta"@) is None,
        key_code_of("super"@) is None,
        key_code_of("win"@) is None,
        key_code_of("cmd"@) is None,
        key_code_of("command"@) is None,
        trim("ctrl"@) == "ctrl"@,
        trim("alt"@) == "alt"@,
        trim("shift"@) == "shift"@,
        trim("super"@) == "super"@,
        !is_control_name("alt"@),
        !is_control_name("shift"@) && !is_alt_name("shift"@),
        !is_control_name("super"@) && !is_alt_name("super"@) && !is_shift_name("super"@),
{
    reveal_strlit("space");
    reveal_strlit("enter");
    reveal_strlit("return");
    reveal_strlit("tab");
    reveal_strlit("backspace");
    reveal_strlit("escape");
    reveal_strlit("esc");
    reveal_strlit("delete");
    reveal_strlit("home");
    reveal_strlit("end");
    reveal_strlit("pageup");
    reveal_strlit("pagedown");
    reveal_strlit("f1");
    reveal_strlit("f2");
    reveal_strlit("f3");
    reveal_strlit("f4");
    reveal_strlit("f5");
    reveal_strlit("f6");
    reveal_strlit("f7");
    reveal_strlit("f8");
    reveal_strlit("f9");
    reveal_strlit("f10");
    reveal_strlit("f11");
    reveal_strlit("f12");
    reveal_strlit("ctrl");
    reveal_strlit("control");
    reveal_strlit("alt");
    reveal_strlit("option");
    reveal_strlit("shift");
    reveal_strlit("meta");
    reveal_strlit("super");
    reveal_strlit("win");
    reveal_strlit("cmd");
    reveal_strlit("command");
    assert("space"@.len() == 5 && "space"@[0] == 's' && "space"@[1] == 'p' && "space"@[4] == 'e');
    assert("enter"@.len() == 5 && "enter"@[0] == 'e' && "enter"@[1] == 'n' && "enter"@[4] == 'r');
    assert("return"@.len() == 6 && "return"@[0] == 'r' && "return"@[1] == 'e' && "return"@[5] == 'n');
    assert("tab"@.len() == 3 && "tab"@[0] == 't' && "tab"@[1] == 'a' && "tab"@[2] == 'b');
    assert("backspace"@.len() == 9 && "backspace"@[0] == 'b' && "backspace"@[1] == 'a' && "backspace"@[8] == 'e');
    assert("escape"@.len() == 6 && "escape"@[0] == 'e' && "escape"@[1] == 's' && "escape"@[5] == 'e');
    assert("esc"@.len() == 3 && "esc"@[0] == 'e' && "esc"@[1] == 's' && "esc"@[2] == 'c');
    assert("delete"@.len() == 6 && "delete"@[0] == 'd' && "delete"@[1] == 'e' && "delete"@[5] == 'e');
    assert("home"@.len() == 4 && "home"@[0] == 'h' && "home"@[1] == 'o' && "home"@[3] == 'e');
    assert("end"@.len() == 3 && "end"@[0] == 'e' && "end"@[1] == 'n' && "end"@[2] == 'd');
    assert("pageup"@.len() == 6 && "pageup"@[0] == 'p' && "pageup"@[1] == 'a' && "pageup"@[5] == 'p');
    assert("pagedown"@.len() == 8 && "pagedown"@[0] == 'p' && "pagedown"@[1] == 'a' && "pagedown"@[7] == 'n');
    assert("f1"@.len() == 2 && "f1"@[0] == 'f' && "f1"@[1] == '1' && "f1"@[1] == '1');
    assert("f2"@.len() == 2 && "f2"@[0] == 'f' && "f2"@[1] == '2' && "f2"@[1] == '2');
    assert("f3"@.len() == 2 && "f3"@[0] == 'f' && "f3"@[1] == '3' && "f3"@[1] == '3');
    assert("f4"@.len() == 2 && "f4"@[0] == 'f' && "f4"@[1] == '4' && "f4"@[1] == '4');
    assert("f5"@.len() == 2 && "f5"@[0] == 'f' && "f5"@[1] == '5' && "f5"@[1] == '5');
    assert("f6"@.len() == 2 && "f6"@[0] == 'f' && "f6"@[1] == '6' && "f6"@[1] == '6');
    assert("f7"@.len() == 2 && "f7"@[0] == 'f' && "f7"@[1] == '7' && "f7"@[1] == '7');
    assert("f8"@.len() == 2 && "f8"@[0] == 'f' && "f8"@[1] == '8' && "f8"@[1] == '8');
    assert("f9"@.len() == 2 && "f9"@[0] == 'f' && "f9"@[1] == '9' && "f9"@[1] == '9');
    assert("f10"@.len() == 3 && "f10"@[0] == 'f' && "f10"@[1] == '1' && "f10"@[2] == '0');
    assert("f11"@.len() == 3 && "f11"@[0] == 'f' && "f11"@[1] == '1' && "f11"@[2] == '1');
    assert("f12"@.len() == 3 && "f12"@[0] == 'f' && "f12"@[1] == '1' && "f12"@[2] == '2');
    assert("ctrl"@.len() == 4 && "ctrl"@[0] == 'c' && "ctrl"@[1] == 't' && "ctrl"@[3] == 'l');
    assert("control"@.len() == 7 && "control"@[0] == 'c' && "control"@[1] == 'o' && "control"@[6] == 'l');
    assert("alt"@.len() == 3 && "alt"@[0] == 'a' && "alt"@[1] == 'l' && "alt"@[2] == 't');
    assert("option"@.len() == 6 && "option"@[0] == 'o' && "option"@[1] == 'p' && "option"@[5] == 'n');
    assert("shift"@.len() == 5 && "shift"@[0] == 's' && "shift"@[1] == 'h' && "shift"@[4] == 't');
    assert("meta"@.len() == 4 && "meta"@[0] == 'm' && "meta"@[1] == 'e' && "meta"@[3] == 'a');
    assert("super"@.len() == 5 && "super"@[0] == 's' && "super"@[1] == 'u' && "super"@[4] == 'r');
    assert("win"@.len() == 3 && "win"@[0] == 'w' && "win"@[1] == 'i' && "win"@[2] == 'n');
    assert("cmd"@.len() == 3 && "cmd"@[0] == 'c' && "cmd"@[1] == 'm' && "cmd"@[2] == 'd');
    assert("command"@.len() == 7 && "command"@[0] == 'c' && "command"@[1] == 'o' && "command"@[6] == 'd');
    assert(trim_start("ctrl"@) == "ctrl"@);
    assert(trim_end("ctrl"@) == "ctrl"@);
    assert(trim_start("alt"@) == "alt"@);
    assert(trim_end("alt"@) == "alt"@);
    assert(trim_start("shift"@) == "shift"@);
    assert(trim_end("shift"@) == "shift"@);
    assert(trim_start("super"@) == "super"@);
    assert(trim_end("super"@) == "super"@);
}

/// A key name alone gives that key with no modifier held, and a modifier
/// name before it gives the key with exactly that modifier held.
pub proof fn lemma_modifier_then_key(k: Seq<char>)
    requires
        key_code_of(trim(k)) is Some,
    ensures
        shortcut_parts(seq![k]) == Ok::<(ModifierSet, Option<KeyCode>), Seq<char>>(
            (ModifierSet::none(), key_code_of(trim(k))),
        ),
        shortcut_parts(seq!["ctrl"@, k]) == Ok::<(ModifierSet, Option<KeyCode>), Seq<char>>(
            (ModifierSet { control: true, alt: false, shift: false, meta: false }, key_code_of(trim(k))),
        ),
        shortcut_parts(seq!["alt"@, k]) == Ok::<(ModifierSet, Option<KeyCode>), Seq<char>>(
            (ModifierSet { control: false, alt: true, shift: false, meta: false }, key_code_of(trim(k))),
        ),
        shortcut_parts(seq!["shift"@, k]) == Ok::<(ModifierSet, Option<KeyCode>), Seq<char>>(
            (ModifierSet { control: false, alt: false, shift: true, meta: false }, key_code_of(trim(k))),
        ),
        shortcut_parts(seq!["super"@, k]) == Ok::<(ModifierSet, Option<KeyCode>), Seq<char>>(
            (ModifierSet { control: false, alt: false, shift: false, meta: true }, key_code_of(trim(k))),
        ),
{
    lemma_modifier_words();
    let p = trim(k);
    assert(!is_control_name(p) && !is_alt_name(p) && !is_shift_name(p) && !is_meta_name(p));
    let e = Seq::<Seq<char>>::empty();
    assert(shortcut_parts(e) == Ok::<(ModifierSet, Option<KeyCode>), Seq<char>>(
        (ModifierSet::none(), None),
    ));
    assert(seq![k].drop_last() =~= e);
    assert(seq![k].last() == k);
    assert(shortcut_parts(seq![k]) == Ok::<(ModifierSet, Option<KeyCode>), Seq<char>>(
        (ModifierSet::none(), key_code_of(p)),
    ));
    assert(seq!["ctrl"@, k].drop_last() =~= seq!["ctrl"@]);
    assert(seq!["ctrl"@].drop_last() =~= e);
    assert(seq!["ctrl"@].last() == "ctrl"@);
    assert(shortcut_parts(seq!["ctrl"@]) == Ok::<(ModifierSet, Option<KeyCode>), Seq<char>>(
        (ModifierSet { control: true, alt: false, shift: false, meta: false }, None),
    ));
    assert(seq!["ctrl"@, k].last() == k);
    assert(seq!["alt"@, k].drop_last() =~= seq!["alt"@]);
    assert(seq!["alt"@].drop_last() =~= e);
    assert(seq!["alt"@].last() == "alt"@);
    assert(shortcut_parts(seq!["alt"@]) == Ok::<(ModifierSet, Option<KeyCode>), Seq<char>>(
        (ModifierSet { control: false, alt: true, shift: false, meta: false }, None),
    ));
    assert(seq!["alt"@, k].last() == k);
    assert(seq!["shift"@, k].drop_last() =~= seq!["shift"@]);
    assert(seq!["shift"@].drop_last() =~= e);
    assert(seq!["shift"@].last() == "shift"@);
    assert(shortcut_parts(seq!["shift"@]) == Ok::<(ModifierSet, Option<KeyCode>), Seq<char>>(
        (ModifierSet { control: false, alt: false, shift: true, meta: false }, None),
    ));
    assert(seq!["shift"@, k].last() == k);
    assert(seq!["super"@, k].drop_last() =~= seq!["super"@]);
    assert(seq!["super"@].drop_last() =~= e);
    assert(seq!["super"@].last() == "super"@);
    assert(shortcut_parts(seq!["super"@]) == Ok::<(ModifierSet, Option<KeyCode>), Seq<char>>(
        (ModifierSet { control: false, alt: false, shift: false, meta: true }, None),
    ));
    assert(seq!["super"@, k].last() == k);
}

/// The number of a function key: `F1` to `F12` are 1 to 12; other keys have none (0).
pub open spec fn function_key_number(k: KeyCode) -> int {
    match k {
        KeyCode::F1 => 1,
        KeyCode::F2 => 2,
        KeyCode::F3 => 3,
        KeyCode::F4 => 4,
        KeyCode::F5 => 5,
        KeyCode::F6 => 6,
        KeyCode::F7 => 7,
        KeyCode::F8 => 8,
        KeyCode::F9 => 9,
        KeyCode::F10 => 10,
        KeyCode::F11 => 11,
        KeyCode::F12 => 12,
        _ => 0,
    }
}

/// `f` followed by the decimal number `n`, from 1 to 12, names function key `n`.
pub proof fn lemma_function_keys_are_numbered(n: nat)
    requires
        1 <= n <= 12,
    ensures
        key_code_of(seq!['f'] + decimal_text(n)) matches Some(k) && function_key_number(k) == n,
{
    reveal_strlit("space");
    reveal_strlit("enter");
    reveal_strlit("return");
    reveal_strlit("tab");
    reveal_strlit("backspace");
    reveal_strlit("escape");
    reveal_strlit("esc");
    reveal_strlit("delete");
    reveal_strlit("home");
    reveal_strlit("end");
    reveal_strlit("pageup");
    reveal_strlit("pagedown");
    reveal_strlit("f1");
    reveal_strlit("f2");
    reveal_strlit("f3");
    reveal_strlit("f4");
    reveal_strlit("f5");
    reveal_strlit("f6");
    reveal_strlit("f7");
    reveal_strlit("f8");
    reveal_strlit("f9");
    reveal_strlit("f10");
    reveal_strlit("f11");
    reveal_strlit("f12");
    assert("space"@.len() == 5 && "space"@[0] == 's');
    assert("enter"@.len() == 5 && "enter"@[0] == 'e');
    assert("return"@.len() == 6 && "return"@[0] == 'r');
    assert("tab"@.len() == 3 && "tab"@[0] == 't');
    assert("backspace"@.len() == 9 && "backspace"@[0] == 'b');
    assert("escape"@.len() == 6 && "escape"@[0] == 'e');
    assert("esc"@.len() == 3 && "esc"@[0] == 'e');
    assert("delete"@.len() == 6 && "delete"@[0] == 'd');
    assert("home"@.len() == 4 && "home"@[0] == 'h');
    assert("end"@.len() == 3 && "end"@[0] == 'e');
    assert("pageup"@.len() == 6 && "pageup"@[0] == 'p');
    assert("pagedown"@.len() == 8 && "pagedown"@[0] == 'p');
    reveal_with_fuel(decimal_text, 2);
    assert("f1"@ =~= seq!['f'] + decimal_text(1));
    assert("f2"@ =~= seq!['f'] + decimal_text(2));
    assert("f3"@ =~= seq!['f'] + decimal_text(3));
    assert("f4"@ =~= seq!['f'] + decimal_text(4));
    assert("f5"@ =~= seq!['f'] + decimal_text(5));
    assert("f6"@ =~= seq!['f'] + decimal_text(6));
    assert("f7"@ =~= seq!['f'] + decimal_text(7));
    assert("f8"@ =~= seq!['f'] + decimal_text(8));
    assert("f9"@ =~= seq!['f'] + decimal_text(9));
    assert("f10"@ =~= seq!['f'] + decimal_text(10));
    assert("f11"@ =~= seq!['f'] + decimal_text(11));
    assert("f12"@ =~= seq!['f'] + decimal_text(12));
    assert("f1"@.len() == 2 && "f1"@[1] == '1');
    assert("f2"@.len() == 2 && "f2"@[1] == '2');
    assert("f3"@.len() == 2 && "f3"@[1] == '3');
    assert("f4"@.len() == 2 && "f4"@[1] == '4');
    assert("f5"@.len() == 2 && "f5"@[1] == '5');
    assert("f6"@.len() == 2 && "f6"@[1] == '6');
    assert("f7"@.len() == 2 && "f7"@[1] == '7');
    assert("f8"@.len() == 2 && "f8"@[1] == '8');
    assert("f9"@.len() == 2 && "f9"@[1] == '9');
    assert("f10"@.len() == 3 && "f10"@[1] == '1' && "f10"@[2] == '0');
    assert("f11"@.len() == 3 && "f11"@[1] == '1' && "f11"@[2] == '1');
    assert("f12"@.len() == 3 && "f12"@[1] == '1' && "f12"@[2] == '2');
    if n == 1 {
        assert(key_code_of("f1"@) == Some(KeyCode::F1));
    }
    if n == 2 {
        assert(key_code_of("f2"@) == Some(KeyCode::F2));
    }
    if n == 3 {
        assert(key_code_of("f3"@) == Some(KeyCode::F3));
    }
    if n == 4 {
        assert(key_code_of("f4"@) == Some(KeyCode::F4));
    }
    if n == 5 {
        assert(key_code_of("f5"@) == Some(KeyCode::F5));
    }
    if n == 6 {
        assert(key_code_of("f6"@) == Some(KeyCode::F6));
    }
    if n == 7 {
        assert(key_code_of("f7"@) == Some(KeyCode::F7));
    }
    if n == 8 {
        assert(key_code_of("f8"@) == Some(KeyCode::F8));
    }
    if n == 9 {
        assert(key_code_of("f9"@) == Some(KeyCode::F9));
    }
    if n == 10 {
        assert(key_code_of("f10"@) == Some(KeyCode::F10));
    }
    if n == 11 {
        assert(key_code_of("f11"@) == Some(KeyCode::F11));
    }
    if n == 12 {
        assert(key_code_of("f12"@) == Some(KeyCode::F12));
    }
}

/// A hotkey string made of a key name alone names that key with no modifier;
/// `ctrl+`, `alt+`, `shift+` or `super+` before it names the same key with
/// exactly that modifier.
pub proof fn lemma_modifier_plus_key(k: Seq<char>)
    requires
        key_code_of(trim(k)) is Some,
        forall|i: int| 0 <= i < k.len() ==> k[i] != '+',
    ensures
        shortcut_of(k) == Ok::<ShortcutSpec, Option<Seq<char>>>(
            ShortcutSpec { modifiers: ModifierSet::none(), code: key_code_of(trim(k))->0 },
        ),
        shortcut_of("ctrl"@ + seq!['+'] + k) == Ok::<ShortcutSpec, Option<Seq<char>>>(
            ShortcutSpec {
                modifiers: ModifierSet { control: true, alt: false, shift: false, meta: false },
                code: key_code_of(trim(k))->0,
            },
        ),
        shortcut_of("alt"@ + seq!['+'] + k) == Ok::<ShortcutSpec, Option<Seq<char>>>(
            ShortcutSpec {
                modifiers: ModifierSet { control: false, alt: true, shift: false, meta: false },
                code: key_code_of(trim(k))->0,
            },
        ),
        shortcut_of("shift"@ + seq!['+'] + k) == Ok::<ShortcutSpec, Option<Seq<char>>>(
            ShortcutSpec {
                modifiers: ModifierSet { control: false, alt: false, shift: true, meta: false },
                code: key_code_of(trim(k))->0,
            },
        ),
        shortcut_of("super"@ + seq!['+'] + k) == Ok::<ShortcutSpec, Option<Seq<char>>>(
            ShortcutSpec {
                modifiers: ModifierSet { control: false, alt: false, shift: false, meta: true },
                code: key_code_of(trim(k))->0,
            },
        ),
{
    lemma_modifier_then_key(k);
    lemma_split_without_separator(k, '+');
    reveal_strlit("ctrl");
    reveal_strlit("alt");
    reveal_strlit("shift");
    reveal_strlit("super");
    let ws = seq!["ctrl"@, "alt"@, "shift"@, "super"@];
    assert forall|w: int| 0 <= w < 4 implies #[trigger] split_on(ws[w] + seq!['+'] + k, '+') == seq![
        ws[w],
        k,
    ] by {
        let m = ws[w];
        assert forall|i: int| 0 <= i < m.len() implies m[i] != '+' by {}
        lemma_split_without_separator(m, '+');
        lemma_split_appends_piece(m, k, '+');
        assert(seq![m].push(k) =~= seq![m, k]);
    }
    assert(ws[0] == "ctrl"@);
    assert(ws[1] == "alt"@);
    assert(ws[2] == "shift"@);
    assert(ws[3] == "super"@);
}

} // verus!
