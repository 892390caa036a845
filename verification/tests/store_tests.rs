use flowlocal::settings::{CleanupAggressiveness, HotkeyMode, OverlayPosition, Theme, WhisperModel};
use flowlocal::settings_store::{settings_from_rows, settings_rows, StoredSettings};
use flowlocal::text_map::TextMap;

fn map_of(rows: Vec<(String, String)>) -> TextMap {
    TextMap::from_rows(rows)
}

fn assert_same(a: &StoredSettings, b: &StoredSettings) {
    assert_eq!(a.hotkey, b.hotkey);
    assert_eq!(a.hotkey_mode, b.hotkey_mode);
    assert_eq!(a.whisper_model, b.whisper_model);
    assert_eq!(a.ollama_model, b.ollama_model);
    assert_eq!(a.ollama_host, b.ollama_host);
    assert_eq!(a.embedding_model, b.embedding_model);
    assert_eq!(a.language, b.language);
    assert_eq!(a.auto_detect_language, b.auto_detect_language);
    assert_eq!(a.cleanup_enabled, b.cleanup_enabled);
    assert_eq!(a.cleanup_aggressiveness, b.cleanup_aggressiveness);
    assert_eq!(a.remove_fillers, b.remove_fillers);
    assert_eq!(a.fix_punctuation, b.fix_punctuation);
    assert_eq!(a.fix_capitalization, b.fix_capitalization);
    assert_eq!(a.vad_enabled, b.vad_enabled);
    assert_eq!(a.vad_threshold, b.vad_threshold);
    assert_eq!(a.silence_duration_ms, b.silence_duration_ms);
    assert_eq!(a.context_aware, b.context_aware);
    assert_eq!(a.detect_active_app, b.detect_active_app);
    assert_eq!(a.use_gpu, b.use_gpu);
    assert_eq!(a.gpu_device_index, b.gpu_device_index);
    assert_eq!(a.rag_enabled, b.rag_enabled);
    assert_eq!(a.rag_max_results, b.rag_max_results);
    assert_eq!(a.show_overlay, b.show_overlay);
    assert_eq!(a.overlay_position, b.overlay_position);
    assert_eq!(a.theme, b.theme);
    assert_eq!(a.auto_start, b.auto_start);
    assert_eq!(a.audio_device, b.audio_device);
}

#[test]
fn empty_store_gives_defaults() {
    let s = settings_from_rows(&TextMap::new());
    assert_same(&s, &StoredSettings::default());
    assert_eq!(s.hotkey, "ctrl+space");
    assert_eq!(s.hotkey_mode, HotkeyMode::Toggle);
    assert_eq!(s.whisper_model, WhisperModel::Base);
    assert_eq!(s.ollama_model, "qwen3:4b");
    assert_eq!(s.ollama_host, "http://localhost:11434");
    assert_eq!(s.embedding_model, "nomic-embed-text");
    assert_eq!(s.language, "en");
    assert!(!s.auto_detect_language);
    assert!(s.cleanup_enabled);
    assert_eq!(s.cleanup_aggressiveness, CleanupAggressiveness::Moderate);
    assert_eq!(s.vad_threshold, "0.5");
    assert_eq!(s.silence_duration_ms, 1500);
    assert_eq!(s.gpu_device_index, 0);
    assert_eq!(s.rag_max_results, 5);
    assert_eq!(s.overlay_position, OverlayPosition::Bottom);
    assert_eq!(s.theme, Theme::Dark);
    assert!(!s.auto_start);
    assert_eq!(s.audio_device, None);
}

#[test]
fn each_key_falls_back_on_its_own() {
    let rows = vec![
        ("hotkey".to_string(), "\"alt+d\"".to_string()),
        ("hotkey_mode".to_string(), "\"hold\"".to_string()),
        ("whisper_model".to_string(), "\"nonsense\"".to_string()),
        ("rag_max_results".to_string(), "many".to_string()),
        ("use_gpu".to_string(), "false".to_string()),
        ("theme".to_string(), "light".to_string()),
        ("audio_device".to_string(), "null".to_string()),
        ("gpu_device_index".to_string(), "-1".to_string()),
        ("unrelated".to_string(), "x".to_string()),
    ];
    let s = settings_from_rows(&map_of(rows));
    assert_eq!(s.hotkey, "alt+d");
    assert_eq!(s.hotkey_mode, HotkeyMode::Hold);
    assert_eq!(s.whisper_model, WhisperModel::Base);
    assert_eq!(s.rag_max_results, 5);
    assert!(!s.use_gpu);
    // A bare word is no JSON string, so the theme keeps its default.
    assert_eq!(s.theme, Theme::Dark);
    assert_eq!(s.audio_device, None);
    assert_eq!(s.gpu_device_index, -1);
    assert_eq!(s.language, "en");
}

#[test]
fn enum_values_are_stored_as_serde_names() {
    let mut s = StoredSettings::default();
    s.whisper_model = WhisperModel::LargeV3;
    s.hotkey_mode = HotkeyMode::Hold;
    s.cleanup_aggressiveness = CleanupAggressiveness::Aggressive;
    s.overlay_position = OverlayPosition::Cursor;
    s.theme = Theme::System;
    let rows = settings_rows(&s);
    let get = |k: &str| rows.iter().find(|(key, _)| key == k).map(|(_, v)| v.clone()).unwrap();
    assert_eq!(get("whisper_model"), "\"large_v3\"");
    assert_eq!(get("hotkey_mode"), "\"hold\"");
    assert_eq!(get("cleanup_aggressiveness"), "\"aggressive\"");
    assert_eq!(get("overlay_position"), "\"cursor\"");
    assert_eq!(get("theme"), "\"system\"");
    assert_eq!(get("audio_device"), "null");
    assert_eq!(get("silence_duration_ms"), "1500");
    assert_eq!(get("hotkey"), "\"ctrl+space\"");
    assert_eq!(rows.len(), 27);
    assert_eq!(rows[0].0, "hotkey");
    assert_eq!(rows[26].0, "audio_device");
}

#[test]
fn saved_settings_load_back() {
    let mut s = StoredSettings::default();
    s.hotkey = "ctrl+\"q\"".to_string();
    s.hotkey_mode = HotkeyMode::Hold;
    s.whisper_model = WhisperModel::SmallEn;
    s.ollama_model = "llama3".to_string();
    s.ollama_host = "http://10.0.0.2:11434".to_string();
    s.embedding_model = "C:\\models\\embed".to_string();
    s.language = "de".to_string();
    s.auto_detect_language = true;
    s.cleanup_enabled = false;
    s.cleanup_aggressiveness = CleanupAggressiveness::Light;
    s.remove_fillers = false;
    s.fix_punctuation = false;
    s.fix_capitalization = false;
    s.vad_enabled = false;
    s.vad_threshold = "0.35".to_string();
    s.silence_duration_ms = 4294967295;
    s.context_aware = false;
    s.detect_active_app = false;
    s.use_gpu = false;
    s.gpu_device_index = -2147483648;
    s.rag_enabled = false;
    s.rag_max_results = 0;
    s.show_overlay = false;
    s.overlay_position = OverlayPosition::Top;
    s.theme = Theme::Light;
    s.auto_start = true;
    s.audio_device = Some("USB \"Mic\"\n".to_string());
    let loaded = settings_from_rows(&map_of(settings_rows(&s)));
    assert_same(&loaded, &s);
    let mut both = settings_rows(&StoredSettings::default());
    both.extend(settings_rows(&s));
    assert_same(&settings_from_rows(&map_of(both)), &s);
}

#[test]
fn stored_enum_names_match_serde() {
    // The names written for the options are the JSON that serde writes for
    // the same variants with snake_case renaming.
    for (m, name) in [
        (WhisperModel::Tiny, "tiny"),
        (WhisperModel::TinyEn, "tiny_en"),
        (WhisperModel::Base, "base"),
        (WhisperModel::BaseEn, "base_en"),
        (WhisperModel::Small, "small"),
        (WhisperModel::SmallEn, "small_en"),
        (WhisperModel::Medium, "medium"),
        (WhisperModel::MediumEn, "medium_en"),
        (WhisperModel::LargeV3, "large_v3"),
    ] {
        let mut s = StoredSettings::default();
        s.whisper_model = m;
        let rows = settings_rows(&s);
        assert_eq!(rows[2].1, serde_json::to_string(name).unwrap());
        assert_eq!(settings_from_rows(&map_of(rows)).whisper_model, m);
    }
}

#[test]
fn enum_values_read_from_the_object_form() {
    let read = |raw: &str| {
        let s = settings_from_rows(&map_of(vec![("theme".to_string(), raw.to_string())]));
        s.theme
    };
    assert_eq!(read("{\"light\":null}"), Theme::Light);
    assert_eq!(read(" { \"system\" : null } "), Theme::System);
    assert_eq!(read("\"light\""), Theme::Light);
    assert_eq!(read(" \"light\" "), Theme::Light);
    assert_eq!(read("{\"light\":1}"), Theme::Dark);
    assert_eq!(read("{\"light\":null,\"system\":null}"), Theme::Dark);
    assert_eq!(read("{}"), Theme::Dark);
    assert_eq!(read("{\"blue\":null}"), Theme::Dark);
    let s = settings_from_rows(&map_of(vec![("hotkey_mode".to_string(), "{\"hold\":null}".to_string())]));
    assert_eq!(s.hotkey_mode, HotkeyMode::Hold);
}
