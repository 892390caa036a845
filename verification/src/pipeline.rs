//! The steps after transcription that decide what is injected, reported and
//! passed on to the service processes.
use vstd::prelude::*;

use crate::context::{context_label, AppContext};
use crate::db::NewSession;
use crate::ipc::bridge::{aggressiveness_label, clean_text_msg};
use crate::ipc::protocol::OutboundMsg;
use crate::settings::{
    bool_text, decimal_text, encode_bool, encode_u32, whisper_model_name, CleanupAggressiveness,
    WhisperModel,
};
use crate::text::{word_count, word_count_of};

verus! {

/// The text that gets injected: the cleaned text when cleanup ran and
/// succeeded, the raw transcript otherwise (cleanup disabled or failed).
pub fn final_text(raw_text: &str, cleaned: Option<String>) -> (t: String)
    ensures
        cleaned matches Some(c) ==> t == c,
        cleaned is None ==> t@ == raw_text@,
{
    match cleaned {
        Some(c) => c,
        None => raw_text.to_owned(),
    }
}

/// What the interface is told once the text is ready.
#[derive(Debug, Clone)]
pub struct TextReadyEvent {
    pub session_id: String,
    pub raw_text: String,
    pub clean_text: String,
    pub app_context: String,
    pub language: String,
    pub duration_ms: u64,
    pub word_count: usize,
}

/// The text-ready report of a session.
pub fn text_ready_event(
    session_id: &str,
    raw_text: &str,
    clean_text: &str,
    context: AppContext,
    language: &str,
    duration_ms: u64,
) -> (e: TextReadyEvent)
    ensures
        e.session_id@ == session_id@,
        e.raw_text@ == raw_text@,
        e.clean_text@ == clean_text@,
        e.app_context@ == context_label(context),
        e.language@ == language@,
        e.duration_ms == duration_ms,
        e.word_count == word_count_of(clean_text@),
{
    TextReadyEvent {
        session_id: session_id.to_owned(),
        raw_text: raw_text.to_owned(),
        clean_text: clean_text.to_owned(),
        app_context: context.as_str().to_owned(),
        language: language.to_owned(),
        duration_ms,
        word_count: word_count(clean_text),
    }
}

/// The environment handed to the service processes, as (name, value) pairs in order.
pub open spec fn service_env(
    whisper_model: WhisperModel,
    auto_detect_language: bool,
    language: Seq<char>,
    vad_enabled: bool,
    vad_threshold_text: Seq<char>,
    silence_duration_ms: u32,
    use_gpu: bool,
    ollama_host: Seq<char>,
    ollama_model: Seq<char>,
    embedding_model: Seq<char>,
    rag_max_results: u32,
) -> Seq<(Seq<char>, Seq<char>)> {
    seq![
        ("FLOWLOCAL_WHISPER_MODEL"@, whisper_model_name(whisper_model)),
        ("FLOWLOCAL_WHISPER_LANGUAGE"@, if auto_detect_language { ""@ } else { language }),
        ("FLOWLOCAL_WHISPER_VAD"@, bool_text(vad_enabled)),
        ("FLOWLOCAL_WHISPER_VAD_THRESHOLD"@, vad_threshold_text),
        ("FLOWLOCAL_WHISPER_SILENCE_MS"@, decimal_text(silence_duration_ms as nat)),
        ("FLOWLOCAL_WHISPER_DEVICE"@, if use_gpu { "auto"@ } else { "cpu"@ }),
        ("FLOWLOCAL_WHISPER_COMPUTE_TYPE"@, "auto"@),
        ("FLOWLOCAL_OLLAMA_HOST"@, ollama_host),
        ("FLOWLOCAL_OLLAMA_MODEL"@, ollama_model),
        ("FLOWLOCAL_EMBEDDING_MODEL"@, embedding_model),
        ("FLOWLOCAL_RAG_MAX_RESULTS"@, decimal_text(rag_max_results as nat)),
    ]
}

/// The environment variables that configure the service processes. The VAD
/// threshold is passed already written as text.
pub fn service_environment(
    whisper_model: WhisperModel,
    auto_detect_language: bool,
    language: &str,
    vad_enabled: bool,
    vad_threshold_text: &str,
    silence_duration_ms: u32,
    use_gpu: bool,
    ollama_host: &str,
    ollama_model: &str,
    embedding_model: &str,
    rag_max_results: u32,
) -> (env: Vec<(String, String)>)
    ensures
        crate::commands::pairs_view(env@) == service_env(
            whisper_model,
            auto_detect_language,
            language@,
            vad_enabled,
            vad_threshold_text@,
            silence_duration_ms,
            use_gpu,
            ollama_host@,
            ollama_model@,
            embedding_model@,
            rag_max_results,
        ),
        env@.len() == 11,
        env@[1].0@ == "FLOWLOCAL_WHISPER_LANGUAGE"@,
        !auto_detect_language ==> env@[1].1@ == language@,
        auto_detect_language ==> env@[1].1@.len() == 0,
{
    proof {
        reveal_strlit("");
    }
    let mut env: Vec<(String, String)> = Vec::new();
    env.push(("FLOWLOCAL_WHISPER_MODEL".to_owned(), whisper_model.as_str().to_owned()));
    let lang = if auto_detect_language {
        "".to_owned()
    } else {
        language.to_owned()
    };
    env.push(("FLOWLOCAL_WHISPER_LANGUAGE".to_owned(), lang));
    env.push(("FLOWLOCAL_WHISPER_VAD".to_owned(), encode_bool(vad_enabled)));
    env.push(("FLOWLOCAL_WHISPER_VAD_THRESHOLD".to_owned(), vad_threshold_text.to_owned()));
    env.push(("FLOWLOCAL_WHISPER_SILENCE_MS".to_owned(), encode_u32(silence_duration_ms)));
    let device = if use_gpu {
        "auto"
    } else {
        "cpu"
    };
    env.push(("FLOWLOCAL_WHISPER_DEVICE".to_owned(), device.to_owned()));
    env.push(("FLOWLOCAL_WHISPER_COMPUTE_TYPE".to_owned(), "auto".to_owned()));
    env.push(("FLOWLOCAL_OLLAMA_HOST".to_owned(), ollama_host.to_owned()));
    env.push(("FLOWLOCAL_OLLAMA_MODEL".to_owned(), ollama_model.to_owned()));
    env.push(("FLOWLOCAL_EMBEDDING_MODEL".to_owned(), embedding_model.to_owned()));
    env.push(("FLOWLOCAL_RAG_MAX_RESULTS".to_owned(), encode_u32(rag_max_results)));
    assert(crate::commands::pairs_view(env@) =~= service_env(
        whisper_model,
        auto_detect_language,
        language@,
        vad_enabled,
        vad_threshold_text@,
        silence_duration_ms,
        use_gpu,
        ollama_host@,
        ollama_model@,
        embedding_model@,
        rag_max_results,
    ));
    env
}

// ──────────────────────────────────────────────────────────────
// The dictation pipeline after transcription
// ──────────────────────────────────────────────────────────────

/// What the pipeline works from: the transcription of one session and the
/// settings that steer it (`cleanup_language` is the language setting that
/// the cleanup request carries; `language` is the one the transcription found).
pub struct PipelineInput {
    pub session_id: String,
    pub raw_text: String,
    pub context: AppContext,
    pub window_title: String,
    pub language: String,
    pub duration_ms: u64,
    pub rag_enabled: bool,
    pub rag_max_results: u32,
    pub cleanup_enabled: bool,
    pub cleanup_language: String,
    pub cleanup_aggressiveness: CleanupAggressiveness,
    pub remove_fillers: bool,
    pub fix_punctuation: bool,
    pub fix_capitalization: bool,
    pub whisper_model: WhisperModel,
    pub ollama_model: String,
}

/// Where the pipeline stands: which outcome it waits for.
pub enum PipelineState {
    Start,
    AwaitingContext,
    AwaitingDictionary { rag_context: Vec<String> },
    AwaitingCleanup,
    AwaitingReady { clean_text: String },
    AwaitingInjection { clean_text: String },
    AwaitingReport { clean_text: String },
    AwaitingPersist { clean_text: String },
    Done,
}

/// What happened outside: the outcome of the last action. `Continue` is the
/// outcome of an action whose result does not matter (a report, a write).
pub enum PipelineEvent {
    Begin,
    ContextRetrieved(Option<Vec<String>>),
    DictionaryLoaded(Option<Vec<[String; 2]>>),
    Cleaned(Option<String>),
    Injected(bool),
    Continue,
}

/// What the pipeline asks to be done next.
pub enum PipelineAction {
    /// Ask the cleanup service for similar earlier corrections.
    RetrieveContext { max_results: u32 },
    /// Read the personal dictionary.
    FetchDictionary,
    /// Send this cleanup request to the cleanup service.
    CleanText(OutboundMsg),
    /// Tell the interface that the text is ready.
    EmitReady(TextReadyEvent),
    /// Type the text into the active application.
    Inject { text: String },
    /// Tell the interface that the text was injected.
    EmitInjected { text: String },
    /// Tell the interface that injection failed.
    EmitError,
    /// Store the session.
    Persist(NewSession),
    /// Hand the correction to the cleanup service for later retrieval.
    StoreCorrection { raw_text: String, clean_text: String },
    /// The event does not fit the state: nothing to do.
    Nothing,
}

/// `e` reports `clean` as the text of the session of `inp`.
pub open spec fn is_ready_event(inp: PipelineInput, clean: Seq<char>, e: TextReadyEvent) -> bool {
    &&& e.session_id@ == inp.session_id@
    &&& e.raw_text@ == inp.raw_text@
    &&& e.clean_text@ == clean
    &&& e.app_context@ == context_label(inp.context)
    &&& e.language@ == inp.language@
    &&& e.duration_ms == inp.duration_ms
    &&& e.word_count == word_count_of(clean)
}

/// `m` asks the cleanup service to clean the raw text of `inp` in its app
/// context, with the cleanup settings of `inp`, the retrieved corrections
/// `rag` and the dictionary `dict`.
pub open spec fn is_cleanup_request(
    inp: PipelineInput,
    rag: Seq<String>,
    dict: Seq<[String; 2]>,
    m: OutboundMsg,
) -> bool {
    m matches OutboundMsg::CleanText {
        session_id,
        raw_text,
        app_context,
        language,
        aggressiveness,
        rag_context,
        dictionary_terms,
        remove_fillers,
        fix_punctuation,
        fix_capitalization,
    } && session_id@ == inp.session_id@ && raw_text@ == inp.raw_text@ && app_context@
        == context_label(inp.context) && language@ == inp.cleanup_language@ && aggressiveness@
        == aggressiveness_label(inp.cleanup_aggressiveness) && rag_context@ == rag
        && dictionary_terms@ == dict && remove_fillers == inp.remove_fillers && fix_punctuation
        == inp.fix_punctuation && fix_capitalization == inp.fix_capitalization
}

/// `s` records the session of `inp` with `clean` as its final text.
pub open spec fn is_session_record(inp: PipelineInput, clean: Seq<char>, s: NewSession) -> bool {
    &&& s.id@ == inp.session_id@
    &&& s.raw_text@ == inp.raw_text@
    &&& s.clean_text@ == clean
    &&& s.app_context@ == context_label(inp.context)
    &&& s.window_title@ == inp.window_title@
    &&& s.language@ == inp.language@
    &&& s.duration_ms == inp.duration_ms as i64
    &&& s.model_used@ == whisper_model_name(inp.whisper_model)
    &&& s.cleanup_model@ == inp.ollama_model@
}

/// The list in `o`, or the empty list.
pub open spec fn list_or_empty<T>(o: Option<Vec<T>>) -> Seq<T> {
    match o {
        Some(v) => v@,
        None => Seq::empty(),
    }
}

/// The text that is injected and stored: the cleaned text where cleanup
/// gave one, the raw text otherwise.
pub open spec fn final_text_of(raw: Seq<char>, cleaned: Option<String>) -> Seq<char> {
    match cleaned {
        Some(c) => c@,
        None => raw,
    }
}

/// `s2` and `a` are the next state and action after the outcome of cleanup,
/// `clean` being the final text.
pub open spec fn is_ready_step(inp: PipelineInput, clean: Seq<char>, s2: PipelineState, a: PipelineAction) -> bool {
    &&& s2 matches PipelineState::AwaitingReady { clean_text } && clean_text@ == clean
    &&& a matches PipelineAction::EmitReady(e) && is_ready_event(inp, clean, e)
}

/// One step of the pipeline: retrieval of earlier corrections (where RAG is
/// enabled), the dictionary, cleanup (where enabled; a failed cleanup leaves
/// the raw text), the ready report, injection, its report, the session
/// record and the correction handed back. An event that does not fit the
/// state changes nothing.
pub open spec fn pipeline_next(
    inp: PipelineInput,
    s: PipelineState,
    e: PipelineEvent,
    s2: PipelineState,
    a: PipelineAction,
) -> bool {
    let unchanged = s2 == s && a is Nothing;
    match s {
        PipelineState::Start => match e {
            PipelineEvent::Begin => if inp.rag_enabled {
                s2 is AwaitingContext && a == (PipelineAction::RetrieveContext {
                    max_results: inp.rag_max_results,
                })
            } else {
                s2 matches PipelineState::AwaitingDictionary { rag_context } && rag_context@.len()
                    == 0 && a is FetchDictionary
            },
            _ => unchanged,
        },
        PipelineState::AwaitingContext => match e {
            PipelineEvent::ContextRetrieved(r) => s2 matches PipelineState::AwaitingDictionary {
                rag_context,
            } && rag_context@ == list_or_empty(r) && a is FetchDictionary,
            _ => unchanged,
        },
        PipelineState::AwaitingDictionary { rag_context } => match e {
            PipelineEvent::DictionaryLoaded(d) => if inp.cleanup_enabled {
                &&& s2 is AwaitingCleanup
                &&& a matches PipelineAction::CleanText(m) && is_cleanup_request(
                    inp,
                    rag_context@,
                    list_or_empty(d),
                    m,
                )
            } else {
                is_ready_step(inp, inp.raw_text@, s2, a)
            },
            _ => unchanged,
        },
        PipelineState::AwaitingCleanup => match e {
            PipelineEvent::Cleaned(c) => is_ready_step(inp, final_text_of(inp.raw_text@, c), s2, a),
            _ => unchanged,
        },
        PipelineState::AwaitingReady { clean_text } => match e {
            PipelineEvent::Continue => {
                &&& s2 matches PipelineState::AwaitingInjection { clean_text: t } && t@
                    == clean_text@
                &&& a matches PipelineAction::Inject { text } && text@ == clean_text@
            },
            _ => unchanged,
        },
        PipelineState::AwaitingInjection { clean_text } => match e {
            PipelineEvent::Injected(ok) => {
                &&& s2 matches PipelineState::AwaitingReport { clean_text: t } && t@ == clean_text@
                &&& if ok {
                    a matches PipelineAction::EmitInjected { text } && text@ == clean_text@
                } else {
                    a is EmitError
                }
            },
            _ => unchanged,
        },
        PipelineState::AwaitingReport { clean_text } => match e {
            PipelineEvent::Continue => {
                &&& s2 matches PipelineState::AwaitingPersist { clean_text: t } && t@ == clean_text@
                &&& a matches PipelineAction::Persist(r) && is_session_record(inp, clean_text@, r)
            },
            _ => unchanged,
        },
        PipelineState::AwaitingPersist { clean_text } => match e {
            PipelineEvent::Continue => {
                &&& s2 is Done
                &&& a matches PipelineAction::StoreCorrection { raw_text, clean_text: c }
                    && raw_text@ == inp.raw_text@ && c@ == clean_text@
            },
            _ => unchanged,
        },
        PipelineState::Done => unchanged,
    }
}

fn owned_copy(s: &String) -> (r: String)
    ensures
        r@ == s@,
{
    s.as_str().to_owned()
}

fn ready_step(inp: &PipelineInput, clean_text: String) -> (r: (PipelineState, PipelineAction))
    ensures
        is_ready_step(*inp, clean_text@, r.0, r.1),
{
    let e = text_ready_event(
        inp.session_id.as_str(),
        inp.raw_text.as_str(),
        clean_text.as_str(),
        inp.context,
        inp.language.as_str(),
        inp.duration_ms,
    );
    (PipelineState::AwaitingReady { clean_text }, PipelineAction::EmitReady(e))
}

/// Decides the pipeline's next state and action from its state and the
/// outcome of the last action.
pub fn pipeline_step(inp: &PipelineInput, state: PipelineState, event: PipelineEvent) -> (r: (
    PipelineState,
    PipelineAction,
))
    ensures
        pipeline_next(*inp, state, event, r.0, r.1),
{
    match state {
        PipelineState::Start => match event {
            PipelineEvent::Begin => if inp.rag_enabled {
                (
                    PipelineState::AwaitingContext,
                    PipelineAction::RetrieveContext { max_results: inp.rag_max_results },
                )
            } else {
                (
                    PipelineState::AwaitingDictionary { rag_context: Vec::new() },
                    PipelineAction::FetchDictionary,
                )
            },
            _ => (PipelineState::Start, PipelineAction::Nothing),
        },
        PipelineState::AwaitingContext => match event {
            PipelineEvent::ContextRetrieved(r) => {
                let rag_context = match r {
                    Some(v) => v,
                    None => Vec::new(),
                };
                (PipelineState::AwaitingDictionary { rag_context }, PipelineAction::FetchDictionary)
            },
            _ => (PipelineState::AwaitingContext, PipelineAction::Nothing),
        },
        PipelineState::AwaitingDictionary { rag_context } => match event {
            PipelineEvent::DictionaryLoaded(d) => {
                if inp.cleanup_enabled {
                    let dictionary = match d {
                        Some(v) => v,
                        None => Vec::new(),
                    };
                    let request = clean_text_msg(
                        inp.session_id.as_str(),
                        inp.raw_text.as_str(),
                        inp.context.as_str(),
                        inp.cleanup_language.as_str(),
                        &inp.cleanup_aggressiveness,
                        rag_context,
                        dictionary,
                        inp.remove_fillers,
                        inp.fix_punctuation,
                        inp.fix_capitalization,
                    );
                    (PipelineState::AwaitingCleanup, PipelineAction::CleanText(request))
                } else {
                    ready_step(inp, owned_copy(&inp.raw_text))
                }
            },
            _ => (PipelineState::AwaitingDictionary { rag_context }, PipelineAction::Nothing),
        },
        PipelineState::AwaitingCleanup => match event {
            PipelineEvent::Cleaned(c) => {
                let clean_text = final_text(inp.raw_text.as_str(), c);
                ready_step(inp, clean_text)
            },
            _ => (PipelineState::AwaitingCleanup, PipelineAction::Nothing),
        },
        PipelineState::AwaitingReady { clean_text } => match event {
            PipelineEvent::Continue => {
                let text = owned_copy(&clean_text);
                (PipelineState::AwaitingInjection { clean_text }, PipelineAction::Inject { text })
            },
            _ => (PipelineState::AwaitingReady { clean_text }, PipelineAction::Nothing),
        },
        PipelineState::AwaitingInjection { clean_text } => match event {
            PipelineEvent::Injected(ok) => {
                let action = if ok {
                    PipelineAction::EmitInjected { text: owned_copy(&clean_text) }
                } else {
                    PipelineAction::EmitError
                };
                (PipelineState::AwaitingReport { clean_text }, action)
            },
            _ => (PipelineState::AwaitingInjection { clean_text }, PipelineAction::Nothing),
        },
        PipelineState::AwaitingReport { clean_text } => match event {
            PipelineEvent::Continue => {
                let record = NewSession::for_dictation(
                    owned_copy(&inp.session_id),
                    owned_copy(&inp.raw_text),
                    owned_copy(&clean_text),
                    inp.context,
                    owned_copy(&inp.window_title),
                    owned_copy(&inp.language),
                    inp.duration_ms,
                    inp.whisper_model,
                    owned_copy(&inp.ollama_model),
                );
                (PipelineState::AwaitingPersist { clean_text }, PipelineAction::Persist(record))
            },
            _ => (PipelineState::AwaitingReport { clean_text }, PipelineAction::Nothing),
        },
        PipelineState::AwaitingPersist { clean_text } => match event {
            PipelineEvent::Continue => (
                PipelineState::Done,
                PipelineAction::StoreCorrection { raw_text: owned_copy(&inp.raw_text), clean_text },
            ),
            _ => (PipelineState::AwaitingPersist { clean_text }, PipelineAction::Nothing),
        },
        PipelineState::Done => (PipelineState::Done, PipelineAction::Nothing),
    }
}

/// Whatever cleanup answers, the text then injected is the cleaned text, or
/// the raw transcript where cleanup failed.
pub proof fn lemma_cleanup_outcome_is_injected(
    inp: PipelineInput,
    c: Option<String>,
    s1: PipelineState,
    a1: PipelineAction,
    s2: PipelineState,
    a2: PipelineAction,
)
    requires
        pipeline_next(inp, PipelineState::AwaitingCleanup, PipelineEvent::Cleaned(c), s1, a1),
        pipeline_next(inp, s1, PipelineEvent::Continue, s2, a2),
    ensures
        a2 matches PipelineAction::Inject { text } && text@ == final_text_of(inp.raw_text@, c),
        c matches Some(t) ==> (a2 matches PipelineAction::Inject { text } && text@ == t@),
        c is None ==> (a2 matches PipelineAction::Inject { text } && text@ == inp.raw_text@),
{
}

/// With cleanup disabled, the raw transcript is what gets injected.
pub proof fn lemma_disabled_cleanup_injects_raw_text(
    inp: PipelineInput,
    rag_context: Vec<String>,
    d: Option<Vec<[String; 2]>>,
    s1: PipelineState,
    a1: PipelineAction,
    s2: PipelineState,
    a2: PipelineAction,
)
    requires
        !inp.cleanup_enabled,
        pipeline_next(
            inp,
            PipelineState::AwaitingDictionary { rag_context },
            PipelineEvent::DictionaryLoaded(d),
            s1,
            a1,
        ),
        pipeline_next(inp, s1, PipelineEvent::Continue, s2, a2),
    ensures
        a2 matches PipelineAction::Inject { text } && text@ == inp.raw_text@,
{
}

/// Whether injection succeeds or fails, the session then stored records the
/// text that injection was asked to type.
pub proof fn lemma_injected_text_is_recorded(
    inp: PipelineInput,
    s0: PipelineState,
    s1: PipelineState,
    text: String,
    ok: bool,
    s2: PipelineState,
    a2: PipelineAction,
    s3: PipelineState,
    a3: PipelineAction,
)
    requires
        pipeline_next(inp, s0, PipelineEvent::Continue, s1, PipelineAction::Inject { text }),
        pipeline_next(inp, s1, PipelineEvent::Injected(ok), s2, a2),
        pipeline_next(inp, s2, PipelineEvent::Continue, s3, a3),
    ensures
        a3 matches PipelineAction::Persist(r) && r.clean_text@ == text@ && r.raw_text@
            == inp.raw_text@,
{
}

/// Retrieval of earlier corrections is asked for exactly when RAG is enabled,
/// with the configured number of results; otherwise the pipeline goes
/// straight to the dictionary with no retrieved context.
pub proof fn lemma_retrieval_follows_rag_setting(inp: PipelineInput, s1: PipelineState, a1: PipelineAction)
    requires
        pipeline_next(inp, PipelineState::Start, PipelineEvent::Begin, s1, a1),
    ensures
        inp.rag_enabled ==> (a1 matches PipelineAction::RetrieveContext { max_results }
            && max_results == inp.rag_max_results),
        !inp.rag_enabled ==> a1 is FetchDictionary,
        !inp.rag_enabled ==> (s1 matches PipelineState::AwaitingDictionary { rag_context }
            && rag_context@.len() == 0),
{
}

/// With cleanup enabled, the loaded dictionary always leads to a cleanup
/// request, whether or not RAG is enabled: it asks for the raw transcript to
/// be cleaned in the application's context, with the cleanup settings, the
/// retrieved corrections and the dictionary (empty where it could not be read).
pub proof fn lemma_cleanup_requested_when_enabled(
    inp: PipelineInput,
    rag: Vec<String>,
    d: Option<Vec<[String; 2]>>,
    s1: PipelineState,
    a1: PipelineAction,
)
    requires
        inp.cleanup_enabled,
        pipeline_next(
            inp,
            PipelineState::AwaitingDictionary { rag_context: rag },
            PipelineEvent::DictionaryLoaded(d),
            s1,
            a1,
        ),
    ensures
        s1 is AwaitingCleanup,
        a1 matches PipelineAction::CleanText(m) && m matches OutboundMsg::CleanText {
            session_id,
            raw_text,
            app_context,
            language,
            aggressiveness,
            rag_context,
            dictionary_terms,
            remove_fillers,
            fix_punctuation,
            fix_capitalization,
        } && session_id@ == inp.session_id@ && raw_text@ == inp.raw_text@ && app_context@
            == context_label(inp.context) && language@ == inp.cleanup_language@ && aggressiveness@
            == aggressiveness_label(inp.cleanup_aggressiveness) && rag_context@ == rag@
            && dictionary_terms@ == list_or_empty(d) && remove_fillers == inp.remove_fillers && fix_punctuation == inp.fix_punctuation
            && fix_capitalization == inp.fix_capitalization,
{
}

/// With RAG disabled and cleanup enabled, the second step after the start is
/// still the cleanup request for the raw transcript.
pub proof fn lemma_cleanup_without_rag(
    inp: PipelineInput,
    d: Option<Vec<[String; 2]>>,
    s1: PipelineState,
    a1: PipelineAction,
    s2: PipelineState,
    a2: PipelineAction,
)
    requires
        !inp.rag_enabled,
        inp.cleanup_enabled,
        pipeline_next(inp, PipelineState::Start, PipelineEvent::Begin, s1, a1),
        pipeline_next(inp, s1, PipelineEvent::DictionaryLoaded(d), s2, a2),
    ensures
        s2 is AwaitingCleanup,
        a2 matches PipelineAction::CleanText(m) && m matches OutboundMsg::CleanText {
            raw_text,
            rag_context,
            ..
        } && raw_text@ == inp.raw_text@ && rag_context@.len() == 0,
{
}

/// The language handed to the transcription service is the configured one
/// unless auto-detection is on, in which case it is left empty; the model,
/// the service addresses and models and the VAD threshold are passed through
/// as given, each under its own variable.
pub proof fn lemma_service_env_carries_settings(
    whisper_model: WhisperModel,
    auto_detect_language: bool,
    language: Seq<char>,
    vad_enabled: bool,
    vad_threshold_text: Seq<char>,
    silence_duration_ms: u32,
    use_gpu: bool,
    ollama_host: Seq<char>,
    ollama_model: Seq<char>,
    embedding_model: Seq<char>,
    rag_max_results: u32,
)
    ensures
        ({
            let env = service_env(
                whisper_model,
                auto_detect_language,
                language,
                vad_enabled,
                vad_threshold_text,
                silence_duration_ms,
                use_gpu,
                ollama_host,
                ollama_model,
                embedding_model,
                rag_max_results,
            );
            &&& env.len() == 11
            &&& env[1].0 == "FLOWLOCAL_WHISPER_LANGUAGE"@
            &&& !auto_detect_language ==> env[1].1 == language
            &&& auto_detect_language ==> env[1].1.len() == 0
            &&& env[0].1 == whisper_model_name(whisper_model)
            &&& env[3].1 == vad_threshold_text
            &&& env[7].1 == ollama_host
            &&& env[8].1 == ollama_model
            &&& env[9].1 == embedding_model
        }),
{
    reveal_strlit("");
}

/// Once the correction is handed back the pipeline is finished: no event
/// moves it on or asks for anything more.
pub proof fn lemma_done_is_final(inp: PipelineInput, e: PipelineEvent, s2: PipelineState, a: PipelineAction)
    requires
        pipeline_next(inp, PipelineState::Done, e, s2, a),
    ensures
        s2 is Done,
        a is Nothing,
{
}

/// Before it has begun, the pipeline ignores every event but `Begin`.
pub proof fn lemma_start_waits_for_begin(inp: PipelineInput, e: PipelineEvent, s2: PipelineState, a: PipelineAction)
    requires
        !(e is Begin),
        pipeline_next(inp, PipelineState::Start, e, s2, a),
    ensures
        s2 is Start,
        a is Nothing,
{
}

} // verus!
