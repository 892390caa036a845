//! The settings as the settings table holds them: one text value per key.
//! Text values are JSON strings, flags and numbers their decimal text, the
//! enumerated options the JSON string of their name (read back also from the
//! object form `{"name":null}`); a key that is missing or holds no readable
//! value falls back to its default.
use vstd::prelude::*;

use crate::commands::pairs_view;
use crate::settings::{
    bool_text, decimal_text, i32_text, json_decode_string, json_str, json_string_value,
    lemma_bool_text_roundtrip, lemma_i32_text_roundtrip, lemma_u32_text_roundtrip,
    parse_bool, parse_bool_text, parse_i32, parse_i32_text, parse_optional_str, parse_str,
    parse_u32, parse_u32_text, quoted_text, stored_text, encode_bool, encode_i32, encode_u32,
    CleanupAggressiveness, HotkeyMode, OverlayPosition, Theme, WhisperModel,
};
use crate::text::{chars_of, eq_str};
use crate::text_map::TextMap;

verus! {

/// The text written for a `u32` value.
pub open spec fn u32_text(n: u32) -> Seq<char> {
    decimal_text(n as nat)
}

/// What `serde_json::from_str::<BTreeMap<String, ()>>` gives for a text: the
/// keys of the JSON object whose values are all `null`, in key order, or
/// `None` where the text is no such object.
pub uninterp spec fn json_unit_map_keys(raw: Seq<char>) -> Option<Seq<Seq<char>>>;

/// Calls `serde_json::from_str::<BTreeMap<String, ()>>` and hands out the
/// keys. The contract claims only that the outcome is determined by the text
/// (the name `json_unit_map_keys`); the JSON grammar is not restated.
#[verifier::external_body]
fn json_decode_unit_map(raw: &str) -> (r: Option<Vec<String>>)
    ensures
        r.deep_view() == json_unit_map_keys(raw@),
{
    serde_json::from_str::<std::collections::BTreeMap<String, ()>>(raw).ok().map(
        |m| m.into_keys().collect(),
    )
}

/// The name of an option that a stored text holds, in either of the forms
/// in which serde reads a unit variant: a JSON string (`"hold"`), or an
/// object with that name as its one key and `null` as its value
/// (`{"hold":null}`).
pub open spec fn json_tag(raw: Seq<char>) -> Option<Seq<char>> {
    match json_string_value(raw) {
        Some(t) => Some(t),
        None => match json_unit_map_keys(raw) {
            Some(keys) => if keys.len() == 1 {
                Some(keys[0])
            } else {
                None
            },
            None => None,
        },
    }
}

/// The option name that the stored value under `k` holds, where the key is
/// present and its value holds one.
pub open spec fn stored_tag(m: Map<Seq<char>, Seq<char>>, k: Seq<char>) -> Option<Seq<char>> {
    if m.contains_key(k) {
        json_tag(m[k])
    } else {
        None
    }
}

/// A text setting: the stored text under `k`, or `d` where `k` is missing.
pub open spec fn text_setting(m: Map<Seq<char>, Seq<char>>, k: Seq<char>, d: Seq<char>) -> Seq<char> {
    if m.contains_key(k) {
        stored_text(m[k])
    } else {
        d
    }
}

/// A setting kept as raw text: the value under `k`, or `d` where `k` is missing.
pub open spec fn raw_setting(m: Map<Seq<char>, Seq<char>>, k: Seq<char>, d: Seq<char>) -> Seq<char> {
    if m.contains_key(k) {
        m[k]
    } else {
        d
    }
}

/// An optional text setting: none where `k` is missing or holds `null`.
pub open spec fn optional_text_setting(m: Map<Seq<char>, Seq<char>>, k: Seq<char>) -> Option<Seq<char>> {
    if m.contains_key(k) && m[k] != "null"@ {
        Some(stored_text(m[k]))
    } else {
        None
    }
}

/// A flag setting: the flag under `k`, or `d` where it is missing or unreadable.
pub open spec fn bool_setting(m: Map<Seq<char>, Seq<char>>, k: Seq<char>, d: bool) -> bool {
    if m.contains_key(k) {
        match parse_bool_text(m[k]) {
            Some(b) => b,
            None => d,
        }
    } else {
        d
    }
}

/// A `u32` setting: the number under `k`, or `d` where it is missing or unreadable.
pub open spec fn u32_setting(m: Map<Seq<char>, Seq<char>>, k: Seq<char>, d: u32) -> u32 {
    if m.contains_key(k) {
        match parse_u32_text(m[k]) {
            Some(n) => n,
            None => d,
        }
    } else {
        d
    }
}

/// An `i32` setting: the number under `k`, or `d` where it is missing or unreadable.
pub open spec fn i32_setting(m: Map<Seq<char>, Seq<char>>, k: Seq<char>, d: i32) -> i32 {
    if m.contains_key(k) {
        match parse_i32_text(m[k]) {
            Some(n) => n,
            None => d,
        }
    } else {
        d
    }
}

/// The name under which a `HotkeyMode` is stored.
pub open spec fn hotkey_mode_tag(x: HotkeyMode) -> Seq<char> {
    match x {
        HotkeyMode::Hold => "hold"@,
        HotkeyMode::Toggle => "toggle"@,
    }
}

/// The `HotkeyMode` stored under a name, if the name is one.
pub open spec fn hotkey_mode_of_tag(t: Seq<char>) -> Option<HotkeyMode> {
    if t == "hold"@ {
        Some(HotkeyMode::Hold)
    } else if t == "toggle"@ {
        Some(HotkeyMode::Toggle)
    } else {
        None
    }
}

/// A `HotkeyMode` setting: the option named under `k`, or `Toggle` where it is
/// missing or names none.
pub open spec fn hotkey_mode_setting(m: Map<Seq<char>, Seq<char>>, k: Seq<char>) -> HotkeyMode {
    match stored_tag(m, k) {
        Some(t) => match hotkey_mode_of_tag(t) {
            Some(x) => x,
            None => HotkeyMode::Toggle,
        },
        None => HotkeyMode::Toggle,
    }
}

/// Each option is read back from its own name.
pub proof fn lemma_hotkey_mode_tags(x: HotkeyMode)
    ensures
        hotkey_mode_of_tag(hotkey_mode_tag(x)) == Some(x),
{
    reveal_strlit("hold");
    reveal_strlit("toggle");
    assert("hold"@.len() == 4 && "hold"@[0] == 'h' && "hold"@[3] == 'd');
    assert("toggle"@.len() == 6 && "toggle"@[0] == 't' && "toggle"@[5] == 'e');
}

fn hotkey_mode_tag_str(x: HotkeyMode) -> (s: &'static str)
    ensures
        s@ == hotkey_mode_tag(x),
{
    match x {
        HotkeyMode::Hold => "hold",
        HotkeyMode::Toggle => "toggle",
    }
}

fn hotkey_mode_of_chars(v: &Vec<char>) -> (r: Option<HotkeyMode>)
    ensures
        r == hotkey_mode_of_tag(v@),
{
    if eq_str(v, "hold") {
        Some(HotkeyMode::Hold)
    } else if eq_str(v, "toggle") {
        Some(HotkeyMode::Toggle)
    } else {
        None
    }
}

fn read_hotkey_mode(map: &TextMap, key: &str) -> (r: HotkeyMode)
    ensures
        r == hotkey_mode_setting(map@, key@),
        forall|x: HotkeyMode|
            map@.contains_key(key@) && #[trigger] quoted_text(hotkey_mode_tag(x)) == map@[key@] ==> r == x,
{
    let r = match read_tag(map, key) {
        Some(v) => match hotkey_mode_of_chars(&v) {
            Some(x) => x,
            None => HotkeyMode::Toggle,
        },
        None => HotkeyMode::Toggle,
    };
    proof {
        assert forall|x: HotkeyMode|
            map@.contains_key(key@) && #[trigger] quoted_text(hotkey_mode_tag(x)) == map@[key@] implies r
            == x by {
            lemma_hotkey_mode_tags(x);
        }
    }
    r
}

/// The name under which a `WhisperModel` is stored.
pub open spec fn whisper_model_tag(x: WhisperModel) -> Seq<char> {
    match x {
        WhisperModel::Tiny => "tiny"@,
        WhisperModel::TinyEn => "tiny_en"@,
        WhisperModel::Base => "base"@,
        WhisperModel::BaseEn => "base_en"@,
        WhisperModel::Small => "small"@,
        WhisperModel::SmallEn => "small_en"@,
        WhisperModel::Medium => "medium"@,
        WhisperModel::MediumEn => "medium_en"@,
        WhisperModel::LargeV3 => "large_v3"@,
    }
}

/// The `WhisperModel` stored under a name, if the name is one.
pub open spec fn whisper_model_of_tag(t: Seq<char>) -> Option<WhisperModel> {
    if t == "tiny"@ {
        Some(WhisperModel::Tiny)
    } else if t == "tiny_en"@ {
        Some(WhisperModel::TinyEn)
    } else if t == "base"@ {
        Some(WhisperModel::Base)
    } else if t == "base_en"@ {
        Some(WhisperModel::BaseEn)
    } else if t == "small"@ {
        Some(WhisperModel::Small)
    } else if t == "small_en"@ {
        Some(WhisperModel::SmallEn)
    } else if t == "medium"@ {
        Some(WhisperModel::Medium)
    } else if t == "medium_en"@ {
        Some(WhisperModel::MediumEn)
    } else if t == "large_v3"@ {
        Some(WhisperModel::LargeV3)
    } else {
        None
    }
}

/// A `WhisperModel` setting: the option named under `k`, or `Base` where it is
/// missing or names none.
pub open spec fn whisper_model_setting(m: Map<Seq<char>, Seq<char>>, k: Seq<char>) -> WhisperModel {
    match stored_tag(m, k) {
        Some(t) => match whisper_model_of_tag(t) {
            Some(x) => x,
            None => WhisperModel::Base,
        },
        None => WhisperModel::Base,
    }
}

/// Each option is read back from its own name.
pub proof fn lemma_whisper_model_tags(x: WhisperModel)
    ensures
        whisper_model_of_tag(whisper_model_tag(x)) == Some(x),
{
    reveal_strlit("tiny");
    reveal_strlit("tiny_en");
    reveal_strlit("base");
    reveal_strlit("base_en");
    reveal_strlit("small");
    reveal_strlit("small_en");
    reveal_strlit("medium");
    reveal_strlit("medium_en");
    reveal_strlit("large_v3");
    assert("tiny"@.len() == 4 && "tiny"@[0] == 't' && "tiny"@[3] == 'y');
    assert("tiny_en"@.len() == 7 && "tiny_en"@[0] == 't' && "tiny_en"@[6] == 'n');
    assert("base"@.len() == 4 && "base"@[0] == 'b' && "base"@[3] == 'e');
    assert("base_en"@.len() == 7 && "base_en"@[0] == 'b' && "base_en"@[6] == 'n');
    assert("small"@.len() == 5 && "small"@[0] == 's' && "small"@[4] == 'l');
    assert("small_en"@.len() == 8 && "small_en"@[0] == 's' && "small_en"@[7] == 'n');
    assert("medium"@.len() == 6 && "medium"@[0] == 'm' && "medium"@[5] == 'm');
    assert("medium_en"@.len() == 9 && "medium_en"@[0] == 'm' && "medium_en"@[8] == 'n');
    assert("large_v3"@.len() == 8 && "large_v3"@[0] == 'l' && "large_v3"@[7] == '3');
}

fn whisper_model_tag_str(x: WhisperModel) -> (s: &'static str)
    ensures
        s@ == whisper_model_tag(x),
{
    match x {
        WhisperModel::Tiny => "tiny",
        WhisperModel::TinyEn => "tiny_en",
        WhisperModel::Base => "base",
        WhisperModel::BaseEn => "base_en",
        WhisperModel::Small => "small",
        WhisperModel::SmallEn => "small_en",
        WhisperModel::Medium => "medium",
        WhisperModel::MediumEn => "medium_en",
        WhisperModel::LargeV3 => "large_v3",
    }
}

fn whisper_model_of_chars(v: &Vec<char>) -> (r: Option<WhisperModel>)
    ensures
        r == whisper_model_of_tag(v@),
{
    if eq_str(v, "tiny") {
        Some(WhisperModel::Tiny)
    } else if eq_str(v, "tiny_en") {
        Some(WhisperModel::TinyEn)
    } else if eq_str(v, "base") {
        Some(WhisperModel::Base)
    } else if eq_str(v, "base_en") {
        Some(WhisperModel::BaseEn)
    } else if eq_str(v, "small") {
        Some(WhisperModel::Small)
    } else if eq_str(v, "small_en") {
        Some(WhisperModel::SmallEn)
    } else if eq_str(v, "medium") {
        Some(WhisperModel::Medium)
    } else if eq_str(v, "medium_en") {
        Some(WhisperModel::MediumEn)
    } else if eq_str(v, "large_v3") {
        Some(WhisperModel::LargeV3)
    } else {
        None
    }
}

fn read_whisper_model(map: &TextMap, key: &str) -> (r: WhisperModel)
    ensures
        r == whisper_model_setting(map@, key@),
        forall|x: WhisperModel|
            map@.contains_key(key@) && #[trigger] quoted_text(whisper_model_tag(x)) == map@[key@] ==> r == x,
{
    let r = match read_tag(map, key) {
        Some(v) => match whisper_model_of_chars(&v) {
            Some(x) => x,
            None => WhisperModel::Base,
        },
        None => WhisperModel::Base,
    };
    proof {
        assert forall|x: WhisperModel|
            map@.contains_key(key@) && #[trigger] quoted_text(whisper_model_tag(x)) == map@[key@] implies r
            == x by {
            lemma_whisper_model_tags(x);
        }
    }
    r
}

/// The name under which a `CleanupAggressiveness` is stored.
pub open spec fn aggressiveness_tag(x: CleanupAggressiveness) -> Seq<char> {
    match x {
        CleanupAggressiveness::Light => "light"@,
        CleanupAggressiveness::Moderate => "moderate"@,
        CleanupAggressiveness::Aggressive => "aggressive"@,
    }
}

/// The `CleanupAggressiveness` stored under a name, if the name is one.
pub open spec fn aggressiveness_of_tag(t: Seq<char>) -> Option<CleanupAggressiveness> {
    if t == "light"@ {
        Some(CleanupAggressiveness::Light)
    } else if t == "moderate"@ {
        Some(CleanupAggressiveness::Moderate)
    } else if t == "aggressive"@ {
        Some(CleanupAggressiveness::Aggressive)
    } else {
        None
    }
}

/// A `CleanupAggressiveness` setting: the option named under `k`, or `Moderate` where it is
/// missing or names none.
pub open spec fn aggressiveness_setting(m: Map<Seq<char>, Seq<char>>, k: Seq<char>) -> CleanupAggressiveness {
    match stored_tag(m, k) {
        Some(t) => match aggressiveness_of_tag(t) {
            Some(x) => x,
            None => CleanupAggressiveness::Moderate,
        },
        None => CleanupAggressiveness::Moderate,
    }
}

/// Each option is read back from its own name.
pub proof fn lemma_aggressiveness_tags(x: CleanupAggressiveness)
    ensures
        aggressiveness_of_tag(aggressiveness_tag(x)) == Some(x),
{
    reveal_strlit("light");
    reveal_strlit("moderate");
    reveal_strlit("aggressive");
    assert("light"@.len() == 5 && "light"@[0] == 'l' && "light"@[4] == 't');
    assert("moderate"@.len() == 8 && "moderate"@[0] == 'm' && "moderate"@[7] == 'e');
    assert("aggressive"@.len() == 10 && "aggressive"@[0] == 'a' && "aggressive"@[9] == 'e');
}

fn aggressiveness_tag_str(x: CleanupAggressiveness) -> (s: &'static str)
    ensures
        s@ == aggressiveness_tag(x),
{
    match x {
        CleanupAggressiveness::Light => "light",
        CleanupAggressiveness::Moderate => "moderate",
        CleanupAggressiveness::Aggressive => "aggressive",
    }
}

fn aggressiveness_of_chars(v: &Vec<char>) -> (r: Option<CleanupAggressiveness>)
    ensures
        r == aggressiveness_of_tag(v@),
{
    if eq_str(v, "light") {
        Some(CleanupAggressiveness::Light)
    } else if eq_str(v, "moderate") {
        Some(CleanupAggressiveness::Moderate)
    } else if eq_str(v, "aggressive") {
        Some(CleanupAggressiveness::Aggressive)
    } else {
        None
    }
}

fn read_aggressiveness(map: &TextMap, key: &str) -> (r: CleanupAggressiveness)
    ensures
        r == aggressiveness_setting(map@, key@),
        forall|x: CleanupAggressiveness|
            map@.contains_key(key@) && #[trigger] quoted_text(aggressiveness_tag(x)) == map@[key@] ==> r == x,
{
    let r = match read_tag(map, key) {
        Some(v) => match aggressiveness_of_chars(&v) {
            Some(x) => x,
            None => CleanupAggressiveness::Moderate,
        },
        None => CleanupAggressiveness::Moderate,
    };
    proof {
        assert forall|x: CleanupAggressiveness|
            map@.contains_key(key@) && #[trigger] quoted_text(aggressiveness_tag(x)) == map@[key@] implies r
            == x by {
            lemma_aggressiveness_tags(x);
        }
    }
    r
}

/// The name under which a `OverlayPosition` is stored.
pub open spec fn overlay_position_tag(x: OverlayPosition) -> Seq<char> {
    match x {
        OverlayPosition::Top => "top"@,
        OverlayPosition::Bottom => "bottom"@,
        OverlayPosition::Cursor => "cursor"@,
    }
}

/// The `OverlayPosition` stored under a name, if the name is one.
pub open spec fn overlay_position_of_tag(t: Seq<char>) -> Option<OverlayPosition> {
    if t == "top"@ {
        Some(OverlayPosition::Top)
    } else if t == "bottom"@ {
        Some(OverlayPosition::Bottom)
    } else if t == "cursor"@ {
        Some(OverlayPosition::Cursor)
    } else {
        None
    }
}

/// A `OverlayPosition` setting: the option named under `k`, or `Bottom` where it is
/// missing or names none.
pub open spec fn overlay_position_setting(m: Map<Seq<char>, Seq<char>>, k: Seq<char>) -> OverlayPosition {
    match stored_tag(m, k) {
        Some(t) => match overlay_position_of_tag(t) {
            Some(x) => x,
            None => OverlayPosition::Bottom,
        },
        None => OverlayPosition::Bottom,
    }
}

/// Each option is read back from its own name.
pub proof fn lemma_overlay_position_tags(x: OverlayPosition)
    ensures
        overlay_position_of_tag(overlay_position_tag(x)) == Some(x),
{
    reveal_strlit("top");
    reveal_strlit("bottom");
    reveal_strlit("cursor");
    assert("top"@.len() == 3 && "top"@[0] == 't' && "top"@[2] == 'p');
    assert("bottom"@.len() == 6 && "bottom"@[0] == 'b' && "bottom"@[5] == 'm');
    assert("cursor"@.len() == 6 && "cursor"@[0] == 'c' && "cursor"@[5] == 'r');
}

fn overlay_position_tag_str(x: OverlayPosition) -> (s: &'static str)
    ensures
        s@ == overlay_position_tag(x),
{
    match x {
        OverlayPosition::Top => "top",
        OverlayPosition::Bottom => "bottom",
        OverlayPosition::Cursor => "cursor",
    }
}

fn overlay_position_of_chars(v: &Vec<char>) -> (r: Option<OverlayPosition>)
    ensures
        r == overlay_position_of_tag(v@),
{
    if eq_str(v, "top") {
        Some(OverlayPosition::Top)
    } else if eq_str(v, "bottom") {
        Some(OverlayPosition::Bottom)
    } else if eq_str(v, "cursor") {
        Some(OverlayPosition::Cursor)
    } else {
        None
    }
}

fn read_overlay_position(map: &TextMap, key: &str) -> (r: OverlayPosition)
    ensures
        r == overlay_position_setting(map@, key@),
        forall|x: OverlayPosition|
            map@.contains_key(key@) && #[trigger] quoted_text(overlay_position_tag(x)) == map@[key@] ==> r == x,
{
    let r = match read_tag(map, key) {
        Some(v) => match overlay_position_of_chars(&v) {
            Some(x) => x,
            None => OverlayPosition::Bottom,
        },
        None => OverlayPosition::Bottom,
    };
    proof {
        assert forall|x: OverlayPosition|
            map@.contains_key(key@) && #[trigger] quoted_text(overlay_position_tag(x)) == map@[key@] implies r
            == x by {
            lemma_overlay_position_tags(x);
        }
    }
    r
}

/// The name under which a `Theme` is stored.
pub open spec fn theme_tag(x: Theme) -> Seq<char> {
    match x {
        Theme::Dark => "dark"@,
        Theme::Light => "light"@,
        Theme::System => "system"@,
    }
}

/// The `Theme` stored under a name, if the name is one.
pub open spec fn theme_of_tag(t: Seq<char>) -> Option<Theme> {
    if t == "dark"@ {
        Some(Theme::Dark)
    } else if t == "light"@ {
        Some(Theme::Light)
    } else if t == "system"@ {
        Some(Theme::System)
    } else {
        None
    }
}

/// A `Theme` setting: the option named under `k`, or `Dark` where it is
/// missing or names none.
pub open spec fn theme_setting(m: Map<Seq<char>, Seq<char>>, k: Seq<char>) -> Theme {
    match stored_tag(m, k) {
        Some(t) => match theme_of_tag(t) {
            Some(x) => x,
            None => Theme::Dark,
        },
        None => Theme::Dark,
    }
}

/// Each option is read back from its own name.
pub proof fn lemma_theme_tags(x: Theme)
    ensures
        theme_of_tag(theme_tag(x)) == Some(x),
{
    reveal_strlit("dark");
    reveal_strlit("light");
    reveal_strlit("system");
    assert("dark"@.len() == 4 && "dark"@[0] == 'd' && "dark"@[3] == 'k');
    assert("light"@.len() == 5 && "light"@[0] == 'l' && "light"@[4] == 't');
    assert("system"@.len() == 6 && "system"@[0] == 's' && "system"@[5] == 'm');
}

fn theme_tag_str(x: Theme) -> (s: &'static str)
    ensures
        s@ == theme_tag(x),
{
    match x {
        Theme::Dark => "dark",
        Theme::Light => "light",
        Theme::System => "system",
    }
}

fn theme_of_chars(v: &Vec<char>) -> (r: Option<Theme>)
    ensures
        r == theme_of_tag(v@),
{
    if eq_str(v, "dark") {
        Some(Theme::Dark)
    } else if eq_str(v, "light") {
        Some(Theme::Light)
    } else if eq_str(v, "system") {
        Some(Theme::System)
    } else {
        None
    }
}

fn read_theme(map: &TextMap, key: &str) -> (r: Theme)
    ensures
        r == theme_setting(map@, key@),
        forall|x: Theme|
            map@.contains_key(key@) && #[trigger] quoted_text(theme_tag(x)) == map@[key@] ==> r == x,
{
    let r = match read_tag(map, key) {
        Some(v) => match theme_of_chars(&v) {
            Some(x) => x,
            None => Theme::Dark,
        },
        None => Theme::Dark,
    };
    proof {
        assert forall|x: Theme|
            map@.contains_key(key@) && #[trigger] quoted_text(theme_tag(x)) == map@[key@] implies r
            == x by {
            lemma_theme_tags(x);
        }
    }
    r
}

fn read_tag(map: &TextMap, key: &str) -> (r: Option<Vec<char>>)
    ensures
        match r {
            Some(v) => stored_tag(map@, key@) == Some(v@),
            None => stored_tag(map@, key@) is None,
        },
        forall|x: Seq<char>|
            map@.contains_key(key@) && #[trigger] quoted_text(x) == map@[key@] ==> r is Some
                && r->0@ == x,
{
    match map.get(key) {
        Some(raw) => match json_decode_string(raw.as_str()) {
            Some(s) => Some(chars_of(s.as_str())),
            None => match json_decode_unit_map(raw.as_str()) {
                Some(keys) => if keys.len() == 1 {
                    assert(keys.deep_view()[0] == keys@[0]@);
                    Some(chars_of(keys[0].as_str()))
                } else {
                    None
                },
                None => None,
            },
        },
        None => None,
    }
}

fn read_text(map: &TextMap, key: &str, default: &str) -> (r: String)
    ensures
        r@ == text_setting(map@, key@, default@),
        forall|x: Seq<char>|
            map@.contains_key(key@) && #[trigger] quoted_text(x) == map@[key@] ==> r@ == x,
{
    match parse_str(map, key) {
        Some(v) => v,
        None => default.to_owned(),
    }
}

fn read_raw(map: &TextMap, key: &str, default: &str) -> (r: String)
    ensures
        r@ == raw_setting(map@, key@, default@),
{
    match map.get(key) {
        Some(v) => v.as_str().to_owned(),
        None => default.to_owned(),
    }
}

fn read_optional_text(map: &TextMap, key: &str) -> (r: Option<String>)
    ensures
        r.deep_view() == optional_text_setting(map@, key@),
        map@.contains_key(key@) && map@[key@] == "null"@ ==> r is None,
        forall|x: Seq<char>|
            map@.contains_key(key@) && #[trigger] quoted_text(x) == map@[key@] ==> r is Some
                && r->0@ == x,
{
    let r = parse_optional_str(map, key);
    proof {
        reveal_strlit("null");
        assert forall|x: Seq<char>|
            map@.contains_key(key@) && #[trigger] quoted_text(x) == map@[key@] implies r is Some
                && r->0@ == x by {
            assert(quoted_text(x)[0] == '"');
            assert("null"@[0] == 'n');
        }
    }
    r
}

fn read_bool(map: &TextMap, key: &str, default: bool) -> (r: bool)
    ensures
        r == bool_setting(map@, key@, default),
        forall|x: bool| map@.contains_key(key@) && #[trigger] bool_text(x) == map@[key@] ==> r == x,
{
    let r = match parse_bool(map, key) {
        Some(b) => b,
        None => default,
    };
    proof {
        assert forall|x: bool| map@.contains_key(key@) && #[trigger] bool_text(x) == map@[key@] implies r
            == x by {
            lemma_bool_text_roundtrip(x);
        }
    }
    r
}

fn read_u32(map: &TextMap, key: &str, default: u32) -> (r: u32)
    ensures
        r == u32_setting(map@, key@, default),
        forall|x: u32| map@.contains_key(key@) && #[trigger] u32_text(x) == map@[key@] ==> r == x,
{
    let r = match parse_u32(map, key) {
        Some(n) => n,
        None => default,
    };
    proof {
        assert forall|x: u32| map@.contains_key(key@) && #[trigger] u32_text(x) == map@[key@] implies r
            == x by {
            lemma_u32_text_roundtrip(x);
        }
    }
    r
}

fn read_i32(map: &TextMap, key: &str, default: i32) -> (r: i32)
    ensures
        r == i32_setting(map@, key@, default),
        forall|x: i32| map@.contains_key(key@) && #[trigger] i32_text(x) == map@[key@] ==> r == x,
{
    let r = match parse_i32(map, key) {
        Some(n) => n,
        None => default,
    };
    proof {
        assert forall|x: i32| map@.contains_key(key@) && #[trigger] i32_text(x) == map@[key@] implies r
            == x by {
            lemma_i32_text_roundtrip(x);
        }
    }
    r
}

/// Every setting, each in the form the settings table keeps (the VAD
/// threshold as the text written for it).
pub struct StoredSettings {
    pub hotkey: String,
    pub hotkey_mode: HotkeyMode,
    pub whisper_model: WhisperModel,
    pub ollama_model: String,
    pub ollama_host: String,
    pub embedding_model: String,
    pub language: String,
    pub auto_detect_language: bool,
    pub cleanup_enabled: bool,
    pub cleanup_aggressiveness: CleanupAggressiveness,
    pub remove_fillers: bool,
    pub fix_punctuation: bool,
    pub fix_capitalization: bool,
    pub vad_enabled: bool,
    pub vad_threshold: String,
    pub silence_duration_ms: u32,
    pub context_aware: bool,
    pub detect_active_app: bool,
    pub use_gpu: bool,
    pub gpu_device_index: i32,
    pub rag_enabled: bool,
    pub rag_max_results: u32,
    pub show_overlay: bool,
    pub overlay_position: OverlayPosition,
    pub theme: Theme,
    pub auto_start: bool,
    pub audio_device: Option<String>,
}

/// The value of a `StoredSettings`: texts as character sequences.
pub struct SettingsView {
    pub hotkey: Seq<char>,
    pub hotkey_mode: HotkeyMode,
    pub whisper_model: WhisperModel,
    pub ollama_model: Seq<char>,
    pub ollama_host: Seq<char>,
    pub embedding_model: Seq<char>,
    pub language: Seq<char>,
    pub auto_detect_language: bool,
    pub cleanup_enabled: bool,
    pub cleanup_aggressiveness: CleanupAggressiveness,
    pub remove_fillers: bool,
    pub fix_punctuation: bool,
    pub fix_capitalization: bool,
    pub vad_enabled: bool,
    pub vad_threshold: Seq<char>,
    pub silence_duration_ms: u32,
    pub context_aware: bool,
    pub detect_active_app: bool,
    pub use_gpu: bool,
    pub gpu_device_index: i32,
    pub rag_enabled: bool,
    pub rag_max_results: u32,
    pub show_overlay: bool,
    pub overlay_position: OverlayPosition,
    pub theme: Theme,
    pub auto_start: bool,
    pub audio_device: Option<Seq<char>>,
}

impl View for StoredSettings {
    type V = SettingsView;

    open spec fn view(&self) -> SettingsView {
        SettingsView {
            hotkey: self.hotkey@,
            hotkey_mode: self.hotkey_mode,
            whisper_model: self.whisper_model,
            ollama_model: self.ollama_model@,
            ollama_host: self.ollama_host@,
            embedding_model: self.embedding_model@,
            language: self.language@,
            auto_detect_language: self.auto_detect_language,
            cleanup_enabled: self.cleanup_enabled,
            cleanup_aggressiveness: self.cleanup_aggressiveness,
            remove_fillers: self.remove_fillers,
            fix_punctuation: self.fix_punctuation,
            fix_capitalization: self.fix_capitalization,
            vad_enabled: self.vad_enabled,
            vad_threshold: self.vad_threshold@,
            silence_duration_ms: self.silence_duration_ms,
            context_aware: self.context_aware,
            detect_active_app: self.detect_active_app,
            use_gpu: self.use_gpu,
            gpu_device_index: self.gpu_device_index,
            rag_enabled: self.rag_enabled,
            rag_max_results: self.rag_max_results,
            show_overlay: self.show_overlay,
            overlay_position: self.overlay_position,
            theme: self.theme,
            auto_start: self.auto_start,
            audio_device: self.audio_device.deep_view(),
        }
    }
}

/// The settings that hold where nothing is stored.
pub open spec fn default_settings() -> SettingsView {
    SettingsView {
        hotkey: "ctrl+space"@,
        hotkey_mode: HotkeyMode::Toggle,
        whisper_model: WhisperModel::Base,
        ollama_model: "qwen3:4b"@,
        ollama_host: "http://localhost:11434"@,
        embedding_model: "nomic-embed-text"@,
        language: "en"@,
        auto_detect_language: false,
        cleanup_enabled: true,
        cleanup_aggressiveness: CleanupAggressiveness::Moderate,
        remove_fillers: true,
        fix_punctuation: true,
        fix_capitalization: true,
        vad_enabled: true,
        vad_threshold: "0.5"@,
        silence_duration_ms: 1500,
        context_aware: true,
        detect_active_app: true,
        use_gpu: true,
        gpu_device_index: 0,
        rag_enabled: true,
        rag_max_results: 5,
        show_overlay: true,
        overlay_position: OverlayPosition::Bottom,
        theme: Theme::Dark,
        auto_start: false,
        audio_device: None,
    }
}

/// The rows written for a value of the settings, key and text, in order.
pub open spec fn settings_pairs(s: SettingsView) -> Seq<(Seq<char>, Seq<char>)> {
    seq![
        ("hotkey"@, quoted_text(s.hotkey)),
        ("hotkey_mode"@, quoted_text(hotkey_mode_tag(s.hotkey_mode))),
        ("whisper_model"@, quoted_text(whisper_model_tag(s.whisper_model))),
        ("ollama_model"@, quoted_text(s.ollama_model)),
        ("ollama_host"@, quoted_text(s.ollama_host)),
        ("embedding_model"@, quoted_text(s.embedding_model)),
        ("language"@, quoted_text(s.language)),
        ("auto_detect_language"@, bool_text(s.auto_detect_language)),
        ("cleanup_enabled"@, bool_text(s.cleanup_enabled)),
        ("cleanup_aggressiveness"@, quoted_text(aggressiveness_tag(s.cleanup_aggressiveness))),
        ("remove_fillers"@, bool_text(s.remove_fillers)),
        ("fix_punctuation"@, bool_text(s.fix_punctuation)),
        ("fix_capitalization"@, bool_text(s.fix_capitalization)),
        ("vad_enabled"@, bool_text(s.vad_enabled)),
        ("vad_threshold"@, s.vad_threshold),
        ("silence_duration_ms"@, u32_text(s.silence_duration_ms)),
        ("context_aware"@, bool_text(s.context_aware)),
        ("detect_active_app"@, bool_text(s.detect_active_app)),
        ("use_gpu"@, bool_text(s.use_gpu)),
        ("gpu_device_index"@, i32_text(s.gpu_device_index)),
        ("rag_enabled"@, bool_text(s.rag_enabled)),
        ("rag_max_results"@, u32_text(s.rag_max_results)),
        ("show_overlay"@, bool_text(s.show_overlay)),
        ("overlay_position"@, quoted_text(overlay_position_tag(s.overlay_position))),
        ("theme"@, quoted_text(theme_tag(s.theme))),
        ("auto_start"@, bool_text(s.auto_start)),
        ("audio_device"@, match s.audio_device {
            Some(d) => quoted_text(d),
            None => "null"@,
        }),
    ]
}

/// `m` holds each of `rows`: its key, with its text as the value.
pub open spec fn holds_rows(m: Map<Seq<char>, Seq<char>>, rows: Seq<(Seq<char>, Seq<char>)>) -> bool {
    forall|i: int| 0 <= i < rows.len() ==> m.contains_key(#[trigger] rows[i].0) && m[rows[i].0] == rows[i].1
}

/// A map that holds the rows written for `s` holds, under each key, the text
/// written for that setting.
proof fn lemma_rows_held(m: Map<Seq<char>, Seq<char>>, s: SettingsView)
    requires
        holds_rows(m, settings_pairs(s)),
    ensures
        m.contains_key("hotkey"@) && m["hotkey"@] == settings_pairs(s)[0].1,
        m.contains_key("hotkey_mode"@) && m["hotkey_mode"@] == settings_pairs(s)[1].1,
        m.contains_key("whisper_model"@) && m["whisper_model"@] == settings_pairs(s)[2].1,
        m.contains_key("ollama_model"@) && m["ollama_model"@] == settings_pairs(s)[3].1,
        m.contains_key("ollama_host"@) && m["ollama_host"@] == settings_pairs(s)[4].1,
        m.contains_key("embedding_model"@) && m["embedding_model"@] == settings_pairs(s)[5].1,
        m.contains_key("language"@) && m["language"@] == settings_pairs(s)[6].1,
        m.contains_key("auto_detect_language"@) && m["auto_detect_language"@] == settings_pairs(s)[7].1,
        m.contains_key("cleanup_enabled"@) && m["cleanup_enabled"@] == settings_pairs(s)[8].1,
        m.contains_key("cleanup_aggressiveness"@) && m["cleanup_aggressiveness"@] == settings_pairs(s)[9].1,
        m.contains_key("remove_fillers"@) && m["remove_fillers"@] == settings_pairs(s)[10].1,
        m.contains_key("fix_punctuation"@) && m["fix_punctuation"@] == settings_pairs(s)[11].1,
        m.contains_key("fix_capitalization"@) && m["fix_capitalization"@] == settings_pairs(s)[12].1,
        m.contains_key("vad_enabled"@) && m["vad_enabled"@] == settings_pairs(s)[13].1,
        m.contains_key("vad_threshold"@) && m["vad_threshold"@] == settings_pairs(s)[14].1,
        m.contains_key("silence_duration_ms"@) && m["silence_duration_ms"@] == settings_pairs(s)[15].1,
        m.contains_key("context_aware"@) && m["context_aware"@] == settings_pairs(s)[16].1,
        m.contains_key("detect_active_app"@) && m["detect_active_app"@] == settings_pairs(s)[17].1,
        m.contains_key("use_gpu"@) && m["use_gpu"@] == settings_pairs(s)[18].1,
        m.contains_key("gpu_device_index"@) && m["gpu_device_index"@] == settings_pairs(s)[19].1,
        m.contains_key("rag_enabled"@) && m["rag_enabled"@] == settings_pairs(s)[20].1,
        m.contains_key("rag_max_results"@) && m["rag_max_results"@] == settings_pairs(s)[21].1,
        m.contains_key("show_overlay"@) && m["show_overlay"@] == settings_pairs(s)[22].1,
        m.contains_key("overlay_position"@) && m["overlay_position"@] == settings_pairs(s)[23].1,
        m.contains_key("theme"@) && m["theme"@] == settings_pairs(s)[24].1,
        m.contains_key("auto_start"@) && m["auto_start"@] == settings_pairs(s)[25].1,
        m.contains_key("audio_device"@) && m["audio_device"@] == settings_pairs(s)[26].1,
{
    let p = settings_pairs(s);
    assert(p[0].0 == "hotkey"@);
    assert(p[1].0 == "hotkey_mode"@);
    assert(p[2].0 == "whisper_model"@);
    assert(p[3].0 == "ollama_model"@);
    assert(p[4].0 == "ollama_host"@);
    assert(p[5].0 == "embedding_model"@);
    assert(p[6].0 == "language"@);
    assert(p[7].0 == "auto_detect_language"@);
    assert(p[8].0 == "cleanup_enabled"@);
    assert(p[9].0 == "cleanup_aggressiveness"@);
    assert(p[10].0 == "remove_fillers"@);
    assert(p[11].0 == "fix_punctuation"@);
    assert(p[12].0 == "fix_capitalization"@);
    assert(p[13].0 == "vad_enabled"@);
    assert(p[14].0 == "vad_threshold"@);
    assert(p[15].0 == "silence_duration_ms"@);
    assert(p[16].0 == "context_aware"@);
    assert(p[17].0 == "detect_active_app"@);
    assert(p[18].0 == "use_gpu"@);
    assert(p[19].0 == "gpu_device_index"@);
    assert(p[20].0 == "rag_enabled"@);
    assert(p[21].0 == "rag_max_results"@);
    assert(p[22].0 == "show_overlay"@);
    assert(p[23].0 == "overlay_position"@);
    assert(p[24].0 == "theme"@);
    assert(p[25].0 == "auto_start"@);
    assert(p[26].0 == "audio_device"@);
}

impl Default for StoredSettings {
    /// The default of every setting.
    fn default() -> (s: Self)
        ensures
            s@ == default_settings(),
    {
        StoredSettings {
            hotkey: "ctrl+space".to_owned(),
            hotkey_mode: HotkeyMode::Toggle,
            whisper_model: WhisperModel::Base,
            ollama_model: "qwen3:4b".to_owned(),
            ollama_host: "http://localhost:11434".to_owned(),
            embedding_model: "nomic-embed-text".to_owned(),
            language: "en".to_owned(),
            auto_detect_language: false,
            cleanup_enabled: true,
            cleanup_aggressiveness: CleanupAggressiveness::Moderate,
            remove_fillers: true,
            fix_punctuation: true,
            fix_capitalization: true,
            vad_enabled: true,
            vad_threshold: "0.5".to_owned(),
            silence_duration_ms: 1500,
            context_aware: true,
            detect_active_app: true,
            use_gpu: true,
            gpu_device_index: 0,
            rag_enabled: true,
            rag_max_results: 5,
            show_overlay: true,
            overlay_position: OverlayPosition::Bottom,
            theme: Theme::Dark,
            auto_start: false,
            audio_device: None,
        }
    }
}

/// Reads every setting from the stored rows, each key falling back to its
/// default where it is missing or holds no readable value. Rows written by
/// `settings_rows` for some settings read back as those settings.
#[verifier::rlimit(100)]
#[verifier::spinoff_prover]
pub fn settings_from_rows(map: &TextMap) -> (s: StoredSettings)
    ensures
        s.hotkey@ == text_setting(map@, "hotkey"@, "ctrl+space"@),
        s.hotkey_mode == hotkey_mode_setting(map@, "hotkey_mode"@),
        s.whisper_model == whisper_model_setting(map@, "whisper_model"@),
        s.ollama_model@ == text_setting(map@, "ollama_model"@, "qwen3:4b"@),
        s.ollama_host@ == text_setting(map@, "ollama_host"@, "http://localhost:11434"@),
        s.embedding_model@ == text_setting(map@, "embedding_model"@, "nomic-embed-text"@),
        s.language@ == text_setting(map@, "language"@, "en"@),
        s.auto_detect_language == bool_setting(map@, "auto_detect_language"@, false),
        s.cleanup_enabled == bool_setting(map@, "cleanup_enabled"@, true),
        s.cleanup_aggressiveness == aggressiveness_setting(map@, "cleanup_aggressiveness"@),
        s.remove_fillers == bool_setting(map@, "remove_fillers"@, true),
        s.fix_punctuation == bool_setting(map@, "fix_punctuation"@, true),
        s.fix_capitalization == bool_setting(map@, "fix_capitalization"@, true),
        s.vad_enabled == bool_setting(map@, "vad_enabled"@, true),
        s.vad_threshold@ == raw_setting(map@, "vad_threshold"@, "0.5"@),
        s.silence_duration_ms == u32_setting(map@, "silence_duration_ms"@, 1500),
        s.context_aware == bool_setting(map@, "context_aware"@, true),
        s.detect_active_app == bool_setting(map@, "detect_active_app"@, true),
        s.use_gpu == bool_setting(map@, "use_gpu"@, true),
        s.gpu_device_index == i32_setting(map@, "gpu_device_index"@, 0),
        s.rag_enabled == bool_setting(map@, "rag_enabled"@, true),
        s.rag_max_results == u32_setting(map@, "rag_max_results"@, 5),
        s.show_overlay == bool_setting(map@, "show_overlay"@, true),
        s.overlay_position == overlay_position_setting(map@, "overlay_position"@),
        s.theme == theme_setting(map@, "theme"@),
        s.auto_start == bool_setting(map@, "auto_start"@, false),
        s.audio_device.deep_view() == optional_text_setting(map@, "audio_device"@),
        forall|t: SettingsView| #[trigger] holds_rows(map@, settings_pairs(t)) ==> s@ == t,
{
    let hotkey = read_text(map, "hotkey", "ctrl+space");
    let hotkey_mode = read_hotkey_mode(map, "hotkey_mode");
    let whisper_model = read_whisper_model(map, "whisper_model");
    let ollama_model = read_text(map, "ollama_model", "qwen3:4b");
    let ollama_host = read_text(map, "ollama_host", "http://localhost:11434");
    let embedding_model = read_text(map, "embedding_model", "nomic-embed-text");
    let language = read_text(map, "language", "en");
    let auto_detect_language = read_bool(map, "auto_detect_language", false);
    let cleanup_enabled = read_bool(map, "cleanup_enabled", true);
    let cleanup_aggressiveness = read_aggressiveness(map, "cleanup_aggressiveness");
    let remove_fillers = read_bool(map, "remove_fillers", true);
    let fix_punctuation = read_bool(map, "fix_punctuation", true);
    let fix_capitalization = read_bool(map, "fix_capitalization", true);
    let vad_enabled = read_bool(map, "vad_enabled", true);
    let vad_threshold = read_raw(map, "vad_threshold", "0.5");
    let silence_duration_ms = read_u32(map, "silence_duration_ms", 1500);
    let context_aware = read_bool(map, "context_aware", true);
    let detect_active_app = read_bool(map, "detect_active_app", true);
    let use_gpu = read_bool(map, "use_gpu", true);
    let gpu_device_index = read_i32(map, "gpu_device_index", 0);
    let rag_enabled = read_bool(map, "rag_enabled", true);
    let rag_max_results = read_u32(map, "rag_max_results", 5);
    let show_overlay = read_bool(map, "show_overlay", true);
    let overlay_position = read_overlay_position(map, "overlay_position");
    let theme = read_theme(map, "theme");
    let auto_start = read_bool(map, "auto_start", false);
    let audio_device = read_optional_text(map, "audio_device");
    let s = StoredSettings {
        hotkey,
        hotkey_mode,
        whisper_model,
        ollama_model,
        ollama_host,
        embedding_model,
        language,
        auto_detect_language,
        cleanup_enabled,
        cleanup_aggressiveness,
        remove_fillers,
        fix_punctuation,
        fix_capitalization,
        vad_enabled,
        vad_threshold,
        silence_duration_ms,
        context_aware,
        detect_active_app,
        use_gpu,
        gpu_device_index,
        rag_enabled,
        rag_max_results,
        show_overlay,
        overlay_position,
        theme,
        auto_start,
        audio_device,
    };
    proof {
        assert forall|t: SettingsView| #[trigger] holds_rows(map@, settings_pairs(t)) implies s@ == t by {
            lemma_rows_held(map@, t);
        }
    }
    s
}

fn row(key: &str, value: String) -> (r: (String, String))
    ensures
        r.0@ == key@,
        r.1@ == value@,
{
    (key.to_owned(), value)
}

/// The rows to store for `s`: each key with the text written for its value.
#[verifier::rlimit(100)]
#[verifier::spinoff_prover]
pub fn settings_rows(s: &StoredSettings) -> (rows: Vec<(String, String)>)
    ensures
        pairs_view(rows@) == settings_pairs(s@),
{
    let mut rows: Vec<(String, String)> = Vec::new();
    rows.push(row("hotkey", json_str(s.hotkey.as_str())));
    rows.push(row("hotkey_mode", json_str(hotkey_mode_tag_str(s.hotkey_mode))));
    rows.push(row("whisper_model", json_str(whisper_model_tag_str(s.whisper_model))));
    rows.push(row("ollama_model", json_str(s.ollama_model.as_str())));
    rows.push(row("ollama_host", json_str(s.ollama_host.as_str())));
    rows.push(row("embedding_model", json_str(s.embedding_model.as_str())));
    rows.push(row("language", json_str(s.language.as_str())));
    rows.push(row("auto_detect_language", encode_bool(s.auto_detect_language)));
    rows.push(row("cleanup_enabled", encode_bool(s.cleanup_enabled)));
    rows.push(row("cleanup_aggressiveness", json_str(aggressiveness_tag_str(s.cleanup_aggressiveness))));
    rows.push(row("remove_fillers", encode_bool(s.remove_fillers)));
    rows.push(row("fix_punctuation", encode_bool(s.fix_punctuation)));
    rows.push(row("fix_capitalization", encode_bool(s.fix_capitalization)));
    rows.push(row("vad_enabled", encode_bool(s.vad_enabled)));
    rows.push(row("vad_threshold", s.vad_threshold.as_str().to_owned()));
    rows.push(row("silence_duration_ms", encode_u32(s.silence_duration_ms)));
    rows.push(row("context_aware", encode_bool(s.context_aware)));
    rows.push(row("detect_active_app", encode_bool(s.detect_active_app)));
    rows.push(row("use_gpu", encode_bool(s.use_gpu)));
    rows.push(row("gpu_device_index", encode_i32(s.gpu_device_index)));
    rows.push(row("rag_enabled", encode_bool(s.rag_enabled)));
    rows.push(row("rag_max_results", encode_u32(s.rag_max_results)));
    rows.push(row("show_overlay", encode_bool(s.show_overlay)));
    rows.push(row("overlay_position", json_str(overlay_position_tag_str(s.overlay_position))));
    rows.push(row("theme", json_str(theme_tag_str(s.theme))));
    rows.push(row("auto_start", encode_bool(s.auto_start)));
    rows.push(row("audio_device", match &s.audio_device {
        Some(d) => json_str(d.as_str()),
        None => "null".to_owned(),
    }));
    assert(pairs_view(rows@) =~= settings_pairs(s@));
    rows
}

/// An empty settings table reads as the default settings: every enumerated
/// option falls back to the same default that `StoredSettings::default` gives,
/// whatever key it is read under.
pub proof fn lemma_empty_store_reads_defaults(k: Seq<char>)
    ensures
        hotkey_mode_setting(Map::empty(), k) == default_settings().hotkey_mode,
        whisper_model_setting(Map::empty(), k) == default_settings().whisper_model,
        aggressiveness_setting(Map::empty(), k) == default_settings().cleanup_aggressiveness,
        overlay_position_setting(Map::empty(), k) == default_settings().overlay_position,
        theme_setting(Map::empty(), k) == default_settings().theme,
        optional_text_setting(Map::empty(), k) == default_settings().audio_device,
{
}

/// A stored option name that names no option, or a value that holds no
/// name, leaves the default in place; a stored name of an option always
/// gives that option, whichever form it is stored in.
pub proof fn lemma_enum_setting_reads_its_name(m: Map<Seq<char>, Seq<char>>, k: Seq<char>, x: HotkeyMode, y: Theme)
    ensures
        stored_tag(m, k) == Some(hotkey_mode_tag(x)) ==> hotkey_mode_setting(m, k) == x,
        stored_tag(m, k) == Some(theme_tag(y)) ==> theme_setting(m, k) == y,
        stored_tag(m, k) is None ==> hotkey_mode_setting(m, k) == default_settings().hotkey_mode
            && theme_setting(m, k) == default_settings().theme,
{
    lemma_hotkey_mode_tags(x);
    lemma_theme_tags(y);
}

} // verus!
