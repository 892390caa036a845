use flowlocal::commands::{history_page_bounds, import_entries, validate_dictionary_entry, DictionaryError};
use flowlocal::context::AppContext;
use flowlocal::db::{dictionary_pairs, DictionaryEntry, NewSession};
use flowlocal::inject::{inject_plan, injector_args, injector_program_name, InjectPlan, Injector};
use flowlocal::pipeline::{final_text, service_environment, text_ready_event};
use flowlocal::settings::WhisperModel;
use flowlocal::text::{split_chars, trim_str, word_count};
use flowlocal::text_map::TextMap;

#[test]
fn words_are_counted_like_split_whitespace() {
    for s in ["", "   ", "one", " two  words ", "tab\tand\nnewline", "a\u{3000}b", "x\u{200B}y"] {
        assert_eq!(word_count(s), s.split_whitespace().count(), "{:?}", s);
    }
}

#[test]
fn trimming_is_like_std() {
    for s in ["  hi  ", "\u{00A0}x\u{2009}", "", "   ", "a b"] {
        assert_eq!(trim_str(s), s.trim());
    }
}

#[test]
fn splitting_is_like_std() {
    for s in ["a+b", "+", "", "ctrl+", "+x+"] {
        let parts: Vec<String> = split_chars(&s.chars().collect(), '+')
            .into_iter()
            .map(|p| p.into_iter().collect())
            .collect();
        let expected: Vec<String> = s.split('+').map(|p| p.to_string()).collect();
        assert_eq!(parts, expected);
    }
}

#[test]
fn history_pages_are_bounded() {
    assert_eq!(history_page_bounds(None, None), (50, 0));
    assert_eq!(history_page_bounds(Some(500), Some(-3)), (200, 0));
    assert_eq!(history_page_bounds(Some(20), Some(40)), (20, 40));
    assert_eq!(history_page_bounds(Some(-1), None), (-1, 0));
}

#[test]
fn dictionary_entries_are_checked() {
    assert_eq!(
        validate_dictionary_entry("  teh ", " the").unwrap(),
        ("teh".to_string(), "the".to_string())
    );
    assert_eq!(validate_dictionary_entry("   ", "the").unwrap_err(), DictionaryError::EmptyTerm);
    assert_eq!(validate_dictionary_entry("teh", "").unwrap_err(), DictionaryError::EmptyTerm);
}

#[test]
fn imports_keep_complete_entries() {
    let kept = import_entries(&vec![
        (Some(" recieve ".to_string()), Some("receive".to_string())),
        (None, Some("x".to_string())),
        (Some("a".to_string()), Some("   ".to_string())),
        (Some("teh".to_string()), Some("the".to_string())),
    ]);
    assert_eq!(
        kept,
        vec![("recieve".to_string(), "receive".to_string()), ("teh".to_string(), "the".to_string())]
    );
}

#[test]
fn dictionary_pairs_follow_entries() {
    let e = vec![
        DictionaryEntry { id: 1, wrong: "teh".into(), correct: "the".into(), created_at: 0, use_count: 3 },
        DictionaryEntry { id: 2, wrong: "adn".into(), correct: "and".into(), created_at: 0, use_count: 1 },
    ];
    let p = dictionary_pairs(e);
    assert_eq!(p, vec![["teh".to_string(), "the".to_string()], ["adn".to_string(), "and".to_string()]]);
}

#[test]
fn sessions_are_recorded() {
    let s = NewSession::for_dictation(
        "id".into(),
        "um hello there".into(),
        "Hello there.".into(),
        AppContext::Chat,
        "general | Slack".into(),
        "en".into(),
        1500,
        WhisperModel::SmallEn,
        "qwen3:4b".into(),
    );
    assert_eq!(s.app_context, "chat");
    assert_eq!(s.model_used, "small.en");
    assert_eq!(s.duration_ms, 1500);
    assert_eq!(s.counts(), (2, 12));
    let u = NewSession { clean_text: "héllo wörld ✓".into(), ..s };
    assert_eq!(u.counts(), (3, "héllo wörld ✓".len() as i64));
}

#[test]
fn injection_tools() {
    assert_eq!(inject_plan("", false, false), InjectPlan::Nothing);
    assert_eq!(inject_plan("hi", true, true), InjectPlan::Run(Injector::Xdotool));
    assert_eq!(inject_plan("hi", false, true), InjectPlan::Run(Injector::Ydotool));
    assert_eq!(inject_plan("hi", false, false), InjectPlan::NoTool);
    assert_eq!(injector_program_name(Injector::Xdotool), "xdotool");
    assert_eq!(
        injector_args(Injector::Xdotool, "-rf"),
        vec!["type", "--clearmodifiers", "--delay", "0", "--", "-rf"]
    );
    assert_eq!(injector_args(Injector::Ydotool, "hi"), vec!["type", "--", "hi"]);
}

#[test]
fn pipeline_choices() {
    assert_eq!(final_text("raw", Some("Clean.".to_string())), "Clean.");
    assert_eq!(final_text("raw", None), "raw");
    let e = text_ready_event("s", "raw words", "Clean words here.", AppContext::Code, "en", 900);
    assert_eq!(e.word_count, 3);
    assert_eq!(e.app_context, "code");
    let env = service_environment(
        WhisperModel::Base, true, "en", true, "0.5", 1500, false, "http://localhost:11434",
        "qwen3:4b", "nomic-embed-text", 5,
    );
    let get = |k: &str| env.iter().find(|(n, _)| n == k).map(|(_, v)| v.clone()).unwrap();
    assert_eq!(env.len(), 11);
    assert_eq!(get("FLOWLOCAL_WHISPER_MODEL"), "base");
    assert_eq!(get("FLOWLOCAL_WHISPER_LANGUAGE"), "");
    assert_eq!(get("FLOWLOCAL_WHISPER_VAD"), "true");
    assert_eq!(get("FLOWLOCAL_WHISPER_SILENCE_MS"), "1500");
    assert_eq!(get("FLOWLOCAL_WHISPER_DEVICE"), "cpu");
    assert_eq!(get("FLOWLOCAL_RAG_MAX_RESULTS"), "5");
}

#[test]
fn text_map_reads_back_writes() {
    let mut m = TextMap::new();
    m.insert("a".into(), "1".into());
    m.insert("b".into(), "2".into());
    m.insert("a".into(), "3".into());
    assert_eq!(m.get("a").map(|s| s.as_str()), Some("3"));
    assert_eq!(m.get("b").map(|s| s.as_str()), Some("2"));
    m.remove("a");
    assert_eq!(m.get("a"), None);
    assert_eq!(m.get("b").map(|s| s.as_str()), Some("2"));
    m.remove("zzz");
    assert_eq!(m.get("b").map(|s| s.as_str()), Some("2"));
}
