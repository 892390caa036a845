use flowlocal::settings::{
    encode_bool, encode_i32, encode_u32, json_str, parse_bool, parse_bool_str, parse_i32,
    parse_i32_str, parse_optional_str, parse_str, parse_u32, parse_u32_str, CleanupAggressiveness,
    HotkeyMode, OverlayPosition, Theme, WhisperModel,
};
use flowlocal::text_map::TextMap;

fn rows(pairs: &[(&str, &str)]) -> TextMap {
    TextMap::from_rows(pairs.iter().map(|(k, v)| (k.to_string(), v.to_string())).collect())
}

#[test]
fn whisper_model_names() {
    let all = [
        (WhisperModel::Tiny, "tiny"),
        (WhisperModel::TinyEn, "tiny.en"),
        (WhisperModel::Base, "base"),
        (WhisperModel::BaseEn, "base.en"),
        (WhisperModel::Small, "small"),
        (WhisperModel::SmallEn, "small.en"),
        (WhisperModel::Medium, "medium"),
        (WhisperModel::MediumEn, "medium.en"),
        (WhisperModel::LargeV3, "large-v3"),
    ];
    for (m, s) in all.iter() {
        assert_eq!(m.as_str(), *s);
    }
}

#[test]
fn enum_defaults() {
    assert_eq!(HotkeyMode::default(), HotkeyMode::Hold);
    assert_eq!(CleanupAggressiveness::default(), CleanupAggressiveness::Moderate);
    assert_eq!(OverlayPosition::default(), OverlayPosition::Bottom);
    assert_eq!(Theme::default(), Theme::Dark);
    assert_eq!(WhisperModel::default(), WhisperModel::Base);
}

#[test]
fn numbers_parse_like_std() {
    for s in ["0", "7", "+7", "-7", "", "+", "-", "4294967295", "4294967296", "007", " 1", "1a",
              "99999999999999999999", "2147483647", "2147483648", "-2147483648", "-2147483649", "-0"] {
        assert_eq!(parse_u32_str(s), s.parse::<u32>().ok(), "u32 {:?}", s);
        assert_eq!(parse_i32_str(s), s.parse::<i32>().ok(), "i32 {:?}", s);
    }
    for s in ["true", "false", "True", "", " true", "1"] {
        assert_eq!(parse_bool_str(s), s.parse::<bool>().ok(), "bool {:?}", s);
    }
}

#[test]
fn numbers_write_like_std() {
    for n in [0u32, 1, 9, 10, 1500, 4294967295] {
        assert_eq!(encode_u32(n), n.to_string());
        assert_eq!(parse_u32_str(&encode_u32(n)), Some(n));
    }
    for n in [0i32, -1, 5, -2147483648, 2147483647, -100] {
        assert_eq!(encode_i32(n), n.to_string());
        assert_eq!(parse_i32_str(&encode_i32(n)), Some(n));
    }
    for b in [true, false] {
        assert_eq!(encode_bool(b), b.to_string());
        assert_eq!(parse_bool_str(&encode_bool(b)), Some(b));
    }
}

#[test]
fn stored_values_are_read_by_key() {
    let m = rows(&[
        ("rag_enabled", "true"),
        ("rag_max_results", "5"),
        ("gpu_device_index", "-1"),
        ("bad_bool", "yes"),
        ("rag_max_results", "7"),
    ]);
    assert_eq!(parse_bool(&m, "rag_enabled"), Some(true));
    assert_eq!(parse_bool(&m, "bad_bool"), None);
    assert_eq!(parse_bool(&m, "missing"), None);
    // A later row for the same key wins.
    assert_eq!(parse_u32(&m, "rag_max_results"), Some(7));
    assert_eq!(parse_i32(&m, "gpu_device_index"), Some(-1));
    assert_eq!(parse_u32(&m, "gpu_device_index"), None);
}

#[test]
fn stored_text_values() {
    let m = rows(&[
        ("hotkey", "\"ctrl+space\""),
        ("bare", "hello"),
        ("quoted_badly", "\"\"a\"b"),
        ("escaped", "\"say \\\"hi\\\"\""),
        ("audio_device", "null"),
        ("mic", "\"USB Mic\""),
    ]);
    assert_eq!(parse_str(&m, "hotkey"), Some("ctrl+space".to_string()));
    assert_eq!(parse_str(&m, "bare"), Some("hello".to_string()));
    assert_eq!(parse_str(&m, "quoted_badly"), Some("a\"b".to_string()));
    assert_eq!(parse_str(&m, "escaped"), Some("say \"hi\"".to_string()));
    assert_eq!(parse_str(&m, "missing"), None);
    assert_eq!(parse_optional_str(&m, "audio_device"), None);
    assert_eq!(parse_optional_str(&m, "mic"), Some("USB Mic".to_string()));
    assert_eq!(parse_optional_str(&m, "missing"), None);
}

#[test]
fn text_values_are_written_quoted() {
    assert_eq!(json_str("ctrl+space"), "\"ctrl+space\"");
    assert_eq!(json_str("say \"hi\""), "\"say \\\"hi\\\"\"");
    assert_eq!(json_str(""), "\"\"");
    let m = rows(&[("k", &json_str("qwen3:4b"))]);
    assert_eq!(parse_str(&m, "k"), Some("qwen3:4b".to_string()));
}

#[test]
fn text_values_are_written_as_json_strings() {
    assert_eq!(json_str("C:\\new"), "\"C:\\\\new\"");
    assert_eq!(json_str("a\tb\n"), "\"a\\tb\\n\"");
    assert_eq!(json_str("\u{1}"), "\"\\u0001\"");
    assert_eq!(json_str("\u{1f}\u{8}\u{c}\r"), "\"\\u001f\\b\\f\\r\"");
    let samples = [
        "", "plain", "C:\\new", "say \"hi\"", "tab\there", "\u{0}\u{7f}", "émoji 🎤", "\\\"\\",
        "line\u{2028}sep", "/slash/",
    ];
    for s in samples {
        let written = json_str(s);
        assert_eq!(written, serde_json::to_string(s).unwrap(), "{:?}", s);
        let m = rows(&[("k", &written)]);
        assert_eq!(parse_str(&m, "k"), Some(s.to_string()), "{:?}", s);
        assert_eq!(parse_optional_str(&m, "k"), Some(s.to_string()), "{:?}", s);
    }
}
