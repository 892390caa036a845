use flowlocal::context::AppContext;
use flowlocal::pipeline::{pipeline_step, PipelineAction, PipelineEvent, PipelineInput, PipelineState};
use flowlocal::ipc::protocol::OutboundMsg;
use flowlocal::settings::{CleanupAggressiveness, WhisperModel};

fn input(rag: bool, cleanup: bool) -> PipelineInput {
    PipelineInput {
        session_id: "s1".to_string(),
        raw_text: "um hello world".to_string(),
        context: AppContext::Chat,
        window_title: "Slack".to_string(),
        language: "en".to_string(),
        duration_ms: 1200,
        rag_enabled: rag,
        rag_max_results: 5,
        cleanup_enabled: cleanup,
        cleanup_language: "de".to_string(),
        cleanup_aggressiveness: CleanupAggressiveness::Aggressive,
        remove_fillers: true,
        fix_punctuation: false,
        fix_capitalization: true,
        whisper_model: WhisperModel::Base,
        ollama_model: "qwen3:4b".to_string(),
    }
}

fn finish(inp: &PipelineInput, state: PipelineState, injected: bool, expect_clean: &str) {
    let (state, action) = pipeline_step(inp, state, PipelineEvent::Continue);
    match action {
        PipelineAction::Inject { text } => assert_eq!(text, expect_clean),
        _ => panic!("expected injection"),
    }
    let (state, action) = pipeline_step(inp, state, PipelineEvent::Injected(injected));
    match (injected, action) {
        (true, PipelineAction::EmitInjected { text }) => assert_eq!(text, expect_clean),
        (false, PipelineAction::EmitError) => {}
        _ => panic!("expected the injection report"),
    }
    let (state, action) = pipeline_step(inp, state, PipelineEvent::Continue);
    match action {
        PipelineAction::Persist(s) => {
            assert_eq!(s.id, "s1");
            assert_eq!(s.raw_text, "um hello world");
            assert_eq!(s.clean_text, expect_clean);
            assert_eq!(s.app_context, "chat");
            assert_eq!(s.window_title, "Slack");
            assert_eq!(s.duration_ms, 1200);
            assert_eq!(s.model_used, "base");
            assert_eq!(s.cleanup_model, "qwen3:4b");
        }
        _ => panic!("expected persistence"),
    }
    let (state, action) = pipeline_step(inp, state, PipelineEvent::Continue);
    match action {
        PipelineAction::StoreCorrection { raw_text, clean_text } => {
            assert_eq!(raw_text, "um hello world");
            assert_eq!(clean_text, expect_clean);
        }
        _ => panic!("expected the correction"),
    }
    assert!(matches!(state, PipelineState::Done));
    let (state, action) = pipeline_step(inp, state, PipelineEvent::Continue);
    assert!(matches!(state, PipelineState::Done));
    assert!(matches!(action, PipelineAction::Nothing));
}

#[test]
fn full_pipeline_uses_the_cleaned_text() {
    let inp = input(true, true);
    let (state, action) = pipeline_step(&inp, PipelineState::Start, PipelineEvent::Begin);
    assert!(matches!(action, PipelineAction::RetrieveContext { max_results: 5 }));
    let (state, action) =
        pipeline_step(&inp, state, PipelineEvent::ContextRetrieved(Some(vec!["hi there".to_string()])));
    assert!(matches!(action, PipelineAction::FetchDictionary));
    let dict = vec![["wrld".to_string(), "world".to_string()]];
    let (state, action) = pipeline_step(&inp, state, PipelineEvent::DictionaryLoaded(Some(dict.clone())));
    match action {
        PipelineAction::CleanText(OutboundMsg::CleanText {
            session_id,
            raw_text,
            app_context,
            language,
            aggressiveness,
            rag_context,
            dictionary_terms,
            remove_fillers,
            fix_punctuation,
            fix_capitalization,
        }) => {
            assert_eq!(session_id, "s1");
            assert_eq!(raw_text, "um hello world");
            assert_eq!(app_context, "chat");
            assert_eq!(language, "de");
            assert_eq!(aggressiveness, "aggressive");
            assert_eq!(rag_context, vec!["hi there".to_string()]);
            assert_eq!(dictionary_terms, dict);
            assert!(remove_fillers && !fix_punctuation && fix_capitalization);
        }
        _ => panic!("expected cleanup"),
    }
    let (state, action) = pipeline_step(&inp, state, PipelineEvent::Cleaned(Some("Hello world.".to_string())));
    match action {
        PipelineAction::EmitReady(e) => {
            assert_eq!(e.clean_text, "Hello world.");
            assert_eq!(e.raw_text, "um hello world");
            assert_eq!(e.word_count, 2);
            assert_eq!(e.app_context, "chat");
        }
        _ => panic!("expected the ready report"),
    }
    finish(&inp, state, true, "Hello world.");
}

#[test]
fn failed_cleanup_falls_back_to_raw_text() {
    let inp = input(true, true);
    let (state, _) = pipeline_step(&inp, PipelineState::Start, PipelineEvent::Begin);
    let (state, _) = pipeline_step(&inp, state, PipelineEvent::ContextRetrieved(None));
    let (state, action) = pipeline_step(&inp, state, PipelineEvent::DictionaryLoaded(None));
    match action {
        PipelineAction::CleanText(OutboundMsg::CleanText { rag_context, dictionary_terms, .. }) => {
            assert!(rag_context.is_empty());
            assert!(dictionary_terms.is_empty());
        }
        _ => panic!("expected cleanup"),
    }
    let (state, _) = pipeline_step(&inp, state, PipelineEvent::Cleaned(None));
    finish(&inp, state, false, "um hello world");
}

#[test]
fn disabled_steps_are_skipped() {
    let inp = input(false, false);
    let (state, action) = pipeline_step(&inp, PipelineState::Start, PipelineEvent::Begin);
    assert!(matches!(action, PipelineAction::FetchDictionary));
    let (state, action) = pipeline_step(&inp, state, PipelineEvent::DictionaryLoaded(Some(vec![])));
    match action {
        PipelineAction::EmitReady(e) => assert_eq!(e.clean_text, "um hello world"),
        _ => panic!("expected the ready report without cleanup"),
    }
    finish(&inp, state, true, "um hello world");
}

#[test]
fn unexpected_events_change_nothing() {
    let inp = input(true, true);
    let (state, action) = pipeline_step(&inp, PipelineState::Start, PipelineEvent::Injected(true));
    assert!(matches!(state, PipelineState::Start));
    assert!(matches!(action, PipelineAction::Nothing));
    let (state, _) = pipeline_step(&inp, state, PipelineEvent::Begin);
    let (state, action) = pipeline_step(&inp, state, PipelineEvent::Cleaned(None));
    assert!(matches!(state, PipelineState::AwaitingContext));
    assert!(matches!(action, PipelineAction::Nothing));
}
