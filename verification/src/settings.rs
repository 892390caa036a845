//! Settings: the enumerated options, and the text encoding of setting values
//! as they are stored, one text value per key, in the settings table.
use vstd::prelude::*;

use crate::text::{chars_of, string_from_chars};
use crate::text_map::TextMap;

verus! {

/// Whether the hotkey is held while recording or pressed once to start and again to stop.
#[derive(Debug, Clone, Copy, PartialEq, Eq, Structural)]
pub enum HotkeyMode {
    Hold,
    Toggle,
}

impl Default for HotkeyMode {
    /// Hold-to-record.
    fn default() -> (m: Self)
        ensures
            m == HotkeyMode::Hold,
    {
        HotkeyMode::Hold
    }
}

/// How much the cleanup model may rewrite.
#[derive(Debug, Clone, Copy, PartialEq, Eq, Structural)]
pub enum CleanupAggressiveness {
    Light,
    Moderate,
    Aggressive,
}

impl Default for CleanupAggressiveness {
    /// Moderate cleanup.
    fn default() -> (a: Self)
        ensures
            a == CleanupAggressiveness::Moderate,
    {
        CleanupAggressiveness::Moderate
    }
}

/// Where the recording overlay is shown.
#[derive(Debug, Clone, Copy, PartialEq, Eq, Structural)]
pub enum OverlayPosition {
    Top,
    Bottom,
    Cursor,
}

impl Default for OverlayPosition {
    /// At the bottom of the screen.
    fn default() -> (p: Self)
        ensures
            p == OverlayPosition::Bottom,
    {
        OverlayPosition::Bottom
    }
}

/// The colour theme of the interface.
#[derive(Debug, Clone, Copy, PartialEq, Eq, Structural)]
pub enum Theme {
    Dark,
    Light,
    System,
}

impl Default for Theme {
    /// Dark.
    fn default() -> (t: Self)
        ensures
            t == Theme::Dark,
    {
        Theme::Dark
    }
}

/// The Whisper model used for transcription.
#[derive(Debug, Clone, Copy, PartialEq, Eq, Structural)]
pub enum WhisperModel {
    Tiny,
    TinyEn,
    Base,
    BaseEn,
    Small,
    SmallEn,
    Medium,
    MediumEn,
    LargeV3,
}

impl Default for WhisperModel {
    /// The `base` model.
    fn default() -> (m: Self)
        ensures
            m == WhisperModel::Base,
    {
        WhisperModel::Base
    }
}

/// The model name that the transcription service understands.
pub open spec fn whisper_model_name(m: WhisperModel) -> Seq<char> {
    match m {
        WhisperModel::Tiny => "tiny"@,
        WhisperModel::TinyEn => "tiny.en"@,
        WhisperModel::Base => "base"@,
        WhisperModel::BaseEn => "base.en"@,
        WhisperModel::Small => "small"@,
        WhisperModel::SmallEn => "small.en"@,
        WhisperModel::Medium => "medium"@,
        WhisperModel::MediumEn => "medium.en"@,
        WhisperModel::LargeV3 => "large-v3"@,
    }
}

/// Each model has its own name.
pub proof fn lemma_whisper_model_names_distinct(a: WhisperModel, b: WhisperModel)
    ensures
        a != b ==> whisper_model_name(a) != whisper_model_name(b),
{
    reveal_strlit("tiny");
    reveal_strlit("tiny.en");
    reveal_strlit("base");
    reveal_strlit("base.en");
    reveal_strlit("small");
    reveal_strlit("small.en");
    reveal_strlit("medium");
    reveal_strlit("medium.en");
    reveal_strlit("large-v3");
    assert("tiny"@.len() == 4 && "tiny"@[0] == 't');
    assert("tiny.en"@.len() == 7 && "tiny.en"@[0] == 't');
    assert("base"@.len() == 4 && "base"@[0] == 'b');
    assert("base.en"@.len() == 7 && "base.en"@[0] == 'b');
    assert("small"@.len() == 5 && "small"@[0] == 's');
    assert("small.en"@.len() == 8 && "small.en"@[0] == 's');
    assert("medium"@.len() == 6 && "medium"@[0] == 'm');
    assert("medium.en"@.len() == 9 && "medium.en"@[0] == 'm');
    assert("large-v3"@.len() == 8 && "large-v3"@[0] == 'l');
}

impl WhisperModel {
    /// The model name that the transcription service understands.
    pub fn as_str(&self) -> (s: &'static str)
        ensures
            s@ == whisper_model_name(*self),
    {
        match self {
            WhisperModel::Tiny => "tiny",
            WhisperModel::TinyEn => "tiny.en",
            WhisperModel::Base => "base",
            WhisperModel::BaseEn => "base.en",
            WhisperModel::Small => "small",
            WhisperModel::SmallEn => "small.en",
            WhisperModel::Medium => "medium",
            WhisperModel::MediumEn => "medium.en",
            WhisperModel::LargeV3 => "large-v3",
        }
    }
}

// ──────────────────────────────────────────────────────────────
// Decimal numbers
// ──────────────────────────────────────────────────────────────

/// `c` is one of the ASCII digits.
pub open spec fn is_digit(c: char) -> bool {
    '0' <= c <= '9'
}

/// The value of a digit character.
pub open spec fn digit_value(c: char) -> nat {
    (c as u32 - '0' as u32) as nat
}

/// Every character of `d` is a digit.
pub open spec fn all_digits(d: Seq<char>) -> bool {
    forall|i: int| 0 <= i < d.len() ==> is_digit(#[trigger] d[i])
}

/// The number that a string of decimal digits denotes.
pub open spec fn decimal_value(d: Seq<char>) -> nat
    decreases d.len(),
{
    if d.len() == 0 {
        0
    } else {
        decimal_value(d.drop_last()) * 10 + digit_value(d.last())
    }
}

/// The digit character for `n < 10`.
pub open spec fn digit_char(n: nat) -> char {
    if n == 0 {
        '0'
    } else if n == 1 {
        '1'
    } else if n == 2 {
        '2'
    } else if n == 3 {
        '3'
    } else if n == 4 {
        '4'
    } else if n == 5 {
        '5'
    } else if n == 6 {
        '6'
    } else if n == 7 {
        '7'
    } else if n == 8 {
        '8'
    } else {
        '9'
    }
}

/// The shortest decimal representation of `n` (no sign, no leading zero).
pub open spec fn decimal_text(n: nat) -> Seq<char>
    decreases n,
{
    if n < 10 {
        seq![digit_char(n)]
    } else {
        decimal_text(n / 10).push(digit_char(n % 10))
    }
}

/// `str::parse::<u32>`: an optional `+`, then one or more decimal digits
/// whose value fits in a `u32`.
pub open spec fn parse_u32_text(s: Seq<char>) -> Option<u32> {
    let d = if s.len() > 0 && s[0] == '+' {
        s.drop_first()
    } else {
        s
    };
    if d.len() > 0 && all_digits(d) && decimal_value(d) <= u32::MAX {
        Some(decimal_value(d) as u32)
    } else {
        None
    }
}

/// `str::parse::<i32>`: an optional `+` or `-`, then one or more decimal
/// digits, the signed value fitting in an `i32`.
pub open spec fn parse_i32_text(s: Seq<char>) -> Option<i32> {
    let neg = s.len() > 0 && s[0] == '-';
    let d = if s.len() > 0 && (s[0] == '+' || s[0] == '-') {
        s.drop_first()
    } else {
        s
    };
    if d.len() > 0 && all_digits(d) {
        let v: int = if neg {
            -decimal_value(d)
        } else {
            decimal_value(d) as int
        };
        if i32::MIN <= v <= i32::MAX {
            Some(v as i32)
        } else {
            None
        }
    } else {
        None
    }
}

/// `str::parse::<bool>`: exactly `true` or `false`.
pub open spec fn parse_bool_text(s: Seq<char>) -> Option<bool> {
    if s == "true"@ {
        Some(true)
    } else if s == "false"@ {
        Some(false)
    } else {
        None
    }
}

/// The text of a boolean, as `bool::to_string` gives it.
pub open spec fn bool_text(b: bool) -> Seq<char> {
    if b {
        "true"@
    } else {
        "false"@
    }
}

/// The text of a signed integer, as `i32::to_string` gives it.
pub open spec fn i32_text(n: i32) -> Seq<char> {
    if n < 0 {
        seq!['-'] + decimal_text((-(n as int)) as nat)
    } else {
        decimal_text(n as nat)
    }
}

/// Outcome of reading a run of decimal digits.
enum Digits {
    /// Empty, or a character that is not a digit.
    Invalid,
    /// Only digits, denoting a number above `u32::MAX + 1`.
    TooLarge,
    /// Only digits, denoting this number (at most `u32::MAX + 1`).
    Value(u64),
}

/// Reads the digits of `v` from position `start` on.
fn read_digits(v: &Vec<char>, start: usize) -> (r: Digits)
    requires
        start <= v@.len(),
    ensures
        ({
            let d = v@.subrange(start as int, v@.len() as int);
            match r {
                Digits::Invalid => !(d.len() > 0 && all_digits(d)),
                Digits::TooLarge => d.len() > 0 && all_digits(d) && decimal_value(d) > u32::MAX
                    + 1,
                Digits::Value(x) => d.len() > 0 && all_digits(d) && x == decimal_value(d) && x
                    <= u32::MAX + 1,
            }
        }),
{
    let n = v.len();
    if start == n {
        return Digits::Invalid;
    }
    let ghost d = v@.subrange(start as int, n as int);
    let mut acc: u64 = 0;
    let mut big = false;
    let mut i: usize = start;
    assert(d.take(0) =~= Seq::<char>::empty());
    while i < n
        invariant
            n == v@.len(),
            start < n,
            d == v@.subrange(start as int, n as int),
            start <= i <= n,
            all_digits(d.take(i - start)),
            big ==> decimal_value(d.take(i - start)) > u32::MAX + 1,
            !big ==> acc == decimal_value(d.take(i - start)) && acc <= u32::MAX + 1,
        decreases n - i,
    {
        let c = v[i];
        if !('0' <= c && c <= '9') {
            assert(d[i - start] == c);
            return Digits::Invalid;
        }
        let ghost t = d.take(i - start + 1);
        assert(t.drop_last() =~= d.take(i - start));
        assert(t.last() == c);
        assert(all_digits(t)) by {
            assert forall|k: int| 0 <= k < t.len() implies is_digit(#[trigger] t[k]) by {
                if k < t.len() - 1 {
                    assert(t[k] == d.take(i - start)[k]);
                }
            }
        }
        if !big {
            let dv: u64 = (c as u32 - '0' as u32) as u64;
            let next = acc * 10 + dv;
            if next > 0x1_0000_0000 {
                big = true;
            } else {
                acc = next;
            }
        }
        i = i + 1;
    }
    assert(d.take(n - start) =~= d);
    if big {
        Digits::TooLarge
    } else {
        Digits::Value(acc)
    }
}

/// Parses a `u32` as `str::parse::<u32>` does.
pub fn parse_u32_str(s: &str) -> (r: Option<u32>)
    ensures
        r == parse_u32_text(s@),
{
    let v = chars_of(s);
    let start: usize = if v.len() > 0 && v[0] == '+' {
        1
    } else {
        0
    };
    assert(start == 1 ==> v@.subrange(1, v@.len() as int) =~= v@.drop_first());
    assert(start == 0 ==> v@.subrange(0, v@.len() as int) =~= v@);
    match read_digits(&v, start) {
        Digits::Value(x) => {
            if x <= 0xFFFF_FFFF {
                Some(x as u32)
            } else {
                None
            }
        },
        _ => None,
    }
}

/// Parses an `i32` as `str::parse::<i32>` does.
pub fn parse_i32_str(s: &str) -> (r: Option<i32>)
    ensures
        r == parse_i32_text(s@),
{
    let v = chars_of(s);
    let neg = v.len() > 0 && v[0] == '-';
    let start: usize = if v.len() > 0 && (v[0] == '+' || v[0] == '-') {
        1
    } else {
        0
    };
    assert(start == 1 ==> v@.subrange(1, v@.len() as int) =~= v@.drop_first());
    assert(start == 0 ==> v@.subrange(0, v@.len() as int) =~= v@);
    match read_digits(&v, start) {
        Digits::Value(x) => {
            if neg {
                if x <= 0x8000_0000 {
                    let y: i64 = -(x as i64);
                    Some(y as i32)
                } else {
                    None
                }
            } else {
                if x <= 0x7FFF_FFFF {
                    Some(x as i32)
                } else {
                    None
                }
            }
        },
        _ => None,
    }
}

/// Parses a boolean as `str::parse::<bool>` does.
pub fn parse_bool_str(s: &str) -> (r: Option<bool>)
    ensures
        r == parse_bool_text(s@),
{
    let v = chars_of(s);
    if crate::text::eq_str(&v, "true") {
        Some(true)
    } else if crate::text::eq_str(&v, "false") {
        Some(false)
    } else {
        None
    }
}

/// Digit character of a value below ten.
fn digit_char_of(n: u32) -> (c: char)
    requires
        n < 10,
    ensures
        c == digit_char(n as nat),
{
    if n == 0 {
        '0'
    } else if n == 1 {
        '1'
    } else if n == 2 {
        '2'
    } else if n == 3 {
        '3'
    } else if n == 4 {
        '4'
    } else if n == 5 {
        '5'
    } else if n == 6 {
        '6'
    } else if n == 7 {
        '7'
    } else if n == 8 {
        '8'
    } else {
        '9'
    }
}

fn decimal_chars(n: u32) -> (v: Vec<char>)
    ensures
        v@ == decimal_text(n as nat),
    decreases n,
{
    if n < 10 {
        let mut v: Vec<char> = Vec::new();
        v.push(digit_char_of(n));
        assert(v@ =~= seq![digit_char(n as nat)]);
        v
    } else {
        let mut v = decimal_chars(n / 10);
        v.push(digit_char_of(n % 10));
        v
    }
}

/// The text of `n`, as `u32::to_string` gives it.
pub fn encode_u32(n: u32) -> (s: String)
    ensures
        s@ == decimal_text(n as nat),
{
    let v = decimal_chars(n);
    string_from_chars(&v)
}

/// The text of `n`, as `i32::to_string` gives it.
pub fn encode_i32(n: i32) -> (s: String)
    ensures
        s@ == i32_text(n),
{
    if n < 0 {
        let m: u32 = if n == i32::MIN {
            0x8000_0000
        } else {
            (-n) as u32
        };
        let d = decimal_chars(m);
        let mut v: Vec<char> = Vec::new();
        v.push('-');
        let k = d.len();
        let mut i: usize = 0;
        while i < k
            invariant
                k == d@.len(),
                0 <= i <= k,
                v@ == seq!['-'] + d@.take(i as int),
            decreases k - i,
        {
            v.push(d[i]);
            assert(d@.take(i + 1) =~= d@.take(i as int).push(d@[i as int]));
            assert(v@ =~= seq!['-'] + d@.take(i + 1));
            i = i + 1;
        }
        assert(d@.take(k as int) =~= d@);
        string_from_chars(&v)
    } else {
        encode_u32(n as u32)
    }
}

/// The text of `b`, as `bool::to_string` gives it.
pub fn encode_bool(b: bool) -> (s: String)
    ensures
        s@ == bool_text(b),
{
    if b {
        let v = chars_of("true");
        string_from_chars(&v)
    } else {
        let v = chars_of("false");
        string_from_chars(&v)
    }
}

// ──────────────────────────────────────────────────────────────
// Decimal round trips
// ──────────────────────────────────────────────────────────────

/// Each digit character is a digit and denotes its value.
proof fn lemma_digit_char(k: nat)
    requires
        k < 10,
    ensures
        is_digit(digit_char(k)),
        digit_value(digit_char(k)) == k,
{
}

/// The decimal text of a number is made of digits and denotes that number.
pub proof fn lemma_decimal_text(n: nat)
    ensures
        decimal_text(n).len() > 0,
        all_digits(decimal_text(n)),
        decimal_value(decimal_text(n)) == n,
        decimal_text(n)[0] != '+' && decimal_text(n)[0] != '-',
    decreases n,
{
    lemma_digit_char(n % 10);
    if n < 10 {
        let s = decimal_text(n);
        assert(s.drop_last() =~= Seq::<char>::empty());
        assert(decimal_value(s.drop_last()) == 0);
        assert(s.last() == digit_char(n));
        assert(decimal_value(s) == decimal_value(s.drop_last()) * 10 + digit_value(s.last()));
    } else {
        lemma_decimal_text(n / 10);
        let t = decimal_text(n / 10);
        let s = t.push(digit_char(n % 10));
        assert(s.drop_last() =~= t);
        assert forall|i: int| 0 <= i < s.len() implies is_digit(#[trigger] s[i]) by {
            if i < t.len() {
                assert(s[i] == t[i]);
            }
        }
        assert(s[0] == t[0]);
        assert(decimal_text(n) == s);
        assert(s.last() == digit_char(n % 10));
        assert(decimal_value(s) == decimal_value(t) * 10 + digit_value(s.last()));
        assert(n == (n / 10) * 10 + n % 10) by (nonlinear_arith);
    }
}

/// A `u32` written as text reads back as itself.
pub proof fn lemma_u32_text_roundtrip(n: u32)
    ensures
        parse_u32_text(decimal_text(n as nat)) == Some(n),
{
    lemma_decimal_text(n as nat);
}

/// An `i32` written as text reads back as itself.
pub proof fn lemma_i32_text_roundtrip(n: i32)
    ensures
        parse_i32_text(i32_text(n)) == Some(n),
{
    if n < 0 {
        let m = (-(n as int)) as nat;
        lemma_decimal_text(m);
        let s = i32_text(n);
        assert(s.drop_first() =~= decimal_text(m));
    } else {
        lemma_decimal_text(n as nat);
    }
}

/// A boolean written as text reads back as itself.
pub proof fn lemma_bool_text_roundtrip(b: bool)
    ensures
        parse_bool_text(bool_text(b)) == Some(b),
{
    reveal_strlit("true");
    reveal_strlit("false");
    assert("true"@.len() == 4);
    assert("false"@.len() == 5);
}


// ──────────────────────────────────────────────────────────────
// Stored setting values
// ──────────────────────────────────────────────────────────────

/// What `serde_json::from_str::<String>` gives for a text: the string that a
/// JSON string literal denotes, or `None` where the text is no such literal.
pub uninterp spec fn json_string_value(raw: Seq<char>) -> Option<Seq<char>>;

/// The whitespace that JSON allows around a value.
pub open spec fn is_json_ws(c: char) -> bool {
    c == ' ' || c == '\n' || c == '\t' || c == '\r'
}

/// Calls `serde_json::from_str::<String>`. The contract claims that the
/// outcome is determined by the input text (the name `json_string_value`),
/// and, as the crate's string reader shows (`parse_str_bytes` and
/// `parse_escape` in `read.rs`), that the literal `quoted_text(s)` that its
/// writer produces for a string `s` reads back as `s`. Other literals (other
/// escapes, surrounding whitespace) and the rest of the JSON grammar are not
/// restated, except that a text that is empty or starts with neither JSON
/// whitespace nor `"` is no string (the reader skips whitespace and then
/// refuses anything but a quote).
#[verifier::external_body]
pub(crate) fn json_decode_string(raw: &str) -> (r: Option<String>)
    ensures
        r.deep_view() == json_string_value(raw@),
        forall|s: Seq<char>| #[trigger] quoted_text(s) == raw@ ==> r.deep_view() == Some(s),
        raw@.len() == 0 || (raw@[0] != '"' && !is_json_ws(raw@[0])) ==> r is None,
{
    serde_json::from_str::<String>(raw).ok()
}

/// `s` without its leading `"` characters.
pub open spec fn strip_quotes_start(s: Seq<char>) -> Seq<char>
    decreases s.len(),
{
    if s.len() > 0 && s[0] == '"' {
        strip_quotes_start(s.drop_first())
    } else {
        s
    }
}

/// `s` without its trailing `"` characters.
pub open spec fn strip_quotes_end(s: Seq<char>) -> Seq<char>
    decreases s.len(),
{
    if s.len() > 0 && s.last() == '"' {
        strip_quotes_end(s.drop_last())
    } else {
        s
    }
}

/// `s` without the `"` characters at either end, as `str::trim_matches('"')` gives it.
pub open spec fn strip_quotes(s: Seq<char>) -> Seq<char> {
    strip_quotes_end(strip_quotes_start(s))
}

fn strip_quotes_chars(v: &Vec<char>) -> (r: Vec<char>)
    ensures
        r@ == strip_quotes(v@),
{
    let n = v.len();
    let mut i: usize = 0;
    assert(v@.subrange(0, n as int) =~= v@);
    while i < n && v[i] == '"'
        invariant
            n == v@.len(),
            0 <= i <= n,
            strip_quotes_start(v@) == strip_quotes_start(v@.subrange(i as int, n as int)),
        decreases n - i,
    {
        assert(v@.subrange(i as int, n as int).drop_first() =~= v@.subrange(i + 1, n as int));
        i = i + 1;
    }
    let mut j: usize = n;
    while j > i && v[j - 1] == '"'
        invariant
            n == v@.len(),
            0 <= i <= j <= n,
            strip_quotes(v@) == strip_quotes_end(v@.subrange(i as int, j as int)),
        decreases j,
    {
        assert(v@.subrange(i as int, j as int).drop_last() =~= v@.subrange(i as int, j - 1));
        j = j - 1;
    }
    let mut r: Vec<char> = Vec::new();
    let mut k: usize = i;
    while k < j
        invariant
            n == v@.len(),
            0 <= i <= k <= j <= n,
            r@ == v@.subrange(i as int, k as int),
        decreases j - k,
    {
        r.push(v[k]);
        assert(r@ =~= v@.subrange(i as int, k + 1));
        k = k + 1;
    }
    r
}

/// A stored text value: the JSON string it holds, or, where it holds none,
/// the text itself without surrounding quotes.
pub open spec fn stored_text(raw: Seq<char>) -> Seq<char> {
    match json_string_value(raw) {
        Some(s) => s,
        None => strip_quotes(raw),
    }
}

/// Reads a stored text value.
fn decode_text(raw: &str) -> (r: String)
    ensures
        r@ == stored_text(raw@),
        forall|s: Seq<char>| #[trigger] quoted_text(s) == raw@ ==> r@ == s,
{
    match json_decode_string(raw) {
        Some(s) => s,
        None => {
            let v = chars_of(raw);
            let t = strip_quotes_chars(&v);
            string_from_chars(&t)
        },
    }
}

/// Values are stored as JSON strings: `"hello"` → hello; a value that is no
/// JSON string is taken without its surrounding quotes. What `json_str`
/// wrote for a text reads back as that text.
pub fn parse_str(map: &TextMap, key: &str) -> (r: Option<String>)
    ensures
        r is Some <==> map@.contains_key(key@),
        r matches Some(v) ==> v@ == stored_text(map@[key@]),
        r matches Some(v) ==> forall|s: Seq<char>| #[trigger] quoted_text(s) == map@[key@] ==> v@
            == s,
{
    match map.get(key) {
        Some(raw) => Some(decode_text(raw.as_str())),
        None => None,
    }
}

/// Like `parse_str`, except that the stored text `null` means no value.
pub fn parse_optional_str(map: &TextMap, key: &str) -> (r: Option<String>)
    ensures
        r is Some <==> (map@.contains_key(key@) && map@[key@] != "null"@),
        r matches Some(v) ==> v@ == stored_text(map@[key@]),
        r matches Some(v) ==> forall|s: Seq<char>| #[trigger] quoted_text(s) == map@[key@] ==> v@
            == s,
{
    match map.get(key) {
        Some(raw) => {
            let v = chars_of(raw.as_str());
            if crate::text::eq_str(&v, "null") {
                None
            } else {
                Some(decode_text(raw.as_str()))
            }
        },
        None => None,
    }
}

/// The stored boolean under `key`, if it reads as one.
pub fn parse_bool(map: &TextMap, key: &str) -> (r: Option<bool>)
    ensures
        r == (if map@.contains_key(key@) {
            parse_bool_text(map@[key@])
        } else {
            None
        }),
{
    match map.get(key) {
        Some(raw) => parse_bool_str(raw.as_str()),
        None => None,
    }
}

/// The stored `u32` under `key`, if it reads as one.
pub fn parse_u32(map: &TextMap, key: &str) -> (r: Option<u32>)
    ensures
        r == (if map@.contains_key(key@) {
            parse_u32_text(map@[key@])
        } else {
            None
        }),
{
    match map.get(key) {
        Some(raw) => parse_u32_str(raw.as_str()),
        None => None,
    }
}

/// The stored `i32` under `key`, if it reads as one.
pub fn parse_i32(map: &TextMap, key: &str) -> (r: Option<i32>)
    ensures
        r == (if map@.contains_key(key@) {
            parse_i32_text(map@[key@])
        } else {
            None
        }),
{
    match map.get(key) {
        Some(raw) => parse_i32_str(raw.as_str()),
        None => None,
    }
}

/// The lowercase hexadecimal digit for `n < 16`.
pub open spec fn hex_digit(n: nat) -> char {
    if n < 10 {
        digit_char(n)
    } else if n == 10 {
        'a'
    } else if n == 11 {
        'b'
    } else if n == 12 {
        'c'
    } else if n == 13 {
        'd'
    } else if n == 14 {
        'e'
    } else {
        'f'
    }
}

/// How a JSON string literal writes `c`: quote and backslash escaped with a
/// backslash, the control characters with a short escape where JSON has one
/// and as `\u00XX` otherwise, every other character as itself.
pub open spec fn json_char_escape(c: char) -> Seq<char> {
    if c == '"' {
        seq!['\\', '"']
    } else if c == '\\' {
        seq!['\\', '\\']
    } else if c == '\x08' {
        seq!['\\', 'b']
    } else if c == '\x0c' {
        seq!['\\', 'f']
    } else if c == '\n' {
        seq!['\\', 'n']
    } else if c == '\r' {
        seq!['\\', 'r']
    } else if c == '\t' {
        seq!['\\', 't']
    } else if (c as nat) < 0x20 {
        seq!['\\', 'u', '0', '0', hex_digit((c as nat) / 16), hex_digit((c as nat) % 16)]
    } else {
        seq![c]
    }
}

/// The inside of the JSON string literal for `s`: each character escaped.
pub open spec fn json_escape(s: Seq<char>) -> Seq<char>
    decreases s.len(),
{
    if s.len() == 0 {
        Seq::<char>::empty()
    } else {
        json_escape(s.drop_last()) + json_char_escape(s.last())
    }
}

/// The JSON string literal for `s`: its escaped characters between double quotes.
pub open spec fn quoted_text(s: Seq<char>) -> Seq<char> {
    seq!['"'] + json_escape(s) + seq!['"']
}

fn hex_digit_of(n: u32) -> (c: char)
    requires
        n < 16,
    ensures
        c == hex_digit(n as nat),
{
    if n < 10 {
        digit_char_of(n)
    } else if n == 10 {
        'a'
    } else if n == 11 {
        'b'
    } else if n == 12 {
        'c'
    } else if n == 13 {
        'd'
    } else if n == 14 {
        'e'
    } else {
        'f'
    }
}

fn push_json_char(out: &mut Vec<char>, c: char)
    ensures
        final(out)@ == old(out)@ + json_char_escape(c),
{
    let ghost before = out@;
    if c == '"' {
        out.push('\\');
        out.push('"');
    } else if c == '\\' {
        out.push('\\');
        out.push('\\');
    } else if c == '\x08' {
        out.push('\\');
        out.push('b');
    } else if c == '\x0c' {
        out.push('\\');
        out.push('f');
    } else if c == '\n' {
        out.push('\\');
        out.push('n');
    } else if c == '\r' {
        out.push('\\');
        out.push('r');
    } else if c == '\t' {
        out.push('\\');
        out.push('t');
    } else if (c as u32) < 0x20 {
        let n: u32 = c as u32;
        out.push('\\');
        out.push('u');
        out.push('0');
        out.push('0');
        out.push(hex_digit_of(n / 16));
        out.push(hex_digit_of(n % 16));
    } else {
        out.push(c);
    }
    assert(out@ =~= before + json_char_escape(c));
}

/// Writes a text value for storage as a JSON string: `hello` → `"hello"`,
/// `C:\new` → `"C:\\new"`.
pub fn json_str(s: &str) -> (r: String)
    ensures
        r@ == quoted_text(s@),
{
    let v = chars_of(s);
    let n = v.len();
    let mut out: Vec<char> = Vec::new();
    out.push('"');
    let mut i: usize = 0;
    assert(v@.take(0) =~= Seq::<char>::empty());
    while i < n
        invariant
            n == v@.len(),
            0 <= i <= n,
            out@ == seq!['"'] + json_escape(v@.take(i as int)),
        decreases n - i,
    {
        let c = v[i];
        assert(v@.take(i + 1).drop_last() =~= v@.take(i as int));
        assert(v@.take(i + 1).last() == c);
        push_json_char(&mut out, c);
        assert(out@ =~= seq!['"'] + json_escape(v@.take(i + 1)));
        i = i + 1;
    }
    assert(v@.take(n as int) =~= v@);
    out.push('"');
    assert(out@ =~= quoted_text(s@));
    string_from_chars(&out)
}


/// A boolean or integer setting that is saved and loaded again keeps its
/// value: the text written for it, read back from the stored rows under the
/// same key, gives the value.
pub proof fn lemma_saved_setting_loads_back(
    m: Map<Seq<char>, Seq<char>>,
    key: Seq<char>,
    b: bool,
    n: u32,
    i: i32,
)
    ensures
        parse_bool_text(m.insert(key, bool_text(b))[key]) == Some(b),
        parse_u32_text(m.insert(key, decimal_text(n as nat))[key]) == Some(n),
        parse_i32_text(m.insert(key, i32_text(i))[key]) == Some(i),
{
    lemma_bool_text_roundtrip(b);
    lemma_u32_text_roundtrip(n);
    lemma_i32_text_roundtrip(i);
}

/// Decimal text reads back as its number exactly when the number fits: a
/// `u32` setting accepts the decimal text of any value up to `u32::MAX`, with
/// or without a leading `+`, and refuses larger values and a leading `-`; an
/// `i32` setting reads `-` followed by the decimal text of `n` as `-n` when
/// that fits.
pub proof fn lemma_decimal_numbers_read_back(n: nat)
    ensures
        parse_u32_text(decimal_text(n)) == (if n <= u32::MAX {
            Some(n as u32)
        } else {
            None
        }),
        parse_u32_text(seq!['+'] + decimal_text(n)) == parse_u32_text(decimal_text(n)),
        parse_u32_text(seq!['-'] + decimal_text(n)) is None,
        parse_i32_text(seq!['-'] + decimal_text(n)) == (if n <= 0x8000_0000 {
            Some((-(n as int)) as i32)
        } else {
            None
        }),
        parse_i32_text(decimal_text(n)) == (if n <= i32::MAX {
            Some(n as i32)
        } else {
            None
        }),
{
    lemma_decimal_text(n);
    let d = decimal_text(n);
    assert((seq!['+'] + d).drop_first() =~= d);
    assert((seq!['-'] + d).drop_first() =~= d);
    assert(!is_digit('-'));
}

/// The JSON escape of a character: a character that may stand in a JSON
/// string stands for itself; any other starts with a backslash and is at
/// least two characters long; no escape holds a control character, and no
/// escape but the quote's holds a quote; and two different characters never
/// get the same escape.
pub proof fn lemma_json_char_escape(c: char, d: char)
    ensures
        (c != '"' && c != '\\' && (c as nat) >= 0x20) ==> json_char_escape(c) == seq![c],
        !(c != '"' && c != '\\' && (c as nat) >= 0x20) ==> (json_char_escape(c).len() >= 2
            && json_char_escape(c)[0] == '\\'),
        forall|i: int|
            0 <= i < json_char_escape(c).len() ==> (#[trigger] json_char_escape(c)[i] as nat)
                >= 0x20,
        c != '"' ==> forall|i: int|
            0 <= i < json_char_escape(c).len() ==> #[trigger] json_char_escape(c)[i] != '"',
        c != d ==> json_char_escape(c) != json_char_escape(d),
{
    let ec = json_char_escape(c);
    let ed = json_char_escape(d);
    if (c as nat) < 0x20 {
        assert((c as nat) / 16 < 2);
    }
    if (d as nat) < 0x20 {
        assert((d as nat) / 16 < 2);
    }
    if c != d && ec == ed {
        assert(ec.len() == ed.len());
        if ec.len() == 1 {
            assert(ec[0] == ed[0]);
        } else if ec.len() == 2 {
            assert(ec[1] == ed[1]);
        } else {
            assert(ec[4] == ed[4]);
            assert(ec[5] == ed[5]);
            assert((c as nat) == ((c as nat) / 16) * 16 + (c as nat) % 16);
            assert((d as nat) == ((d as nat) / 16) * 16 + (d as nat) % 16);
        }
    }
}

} // verus!
