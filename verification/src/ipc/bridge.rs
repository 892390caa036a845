//! Requests to the services and the decisions taken on their replies.
//!
//! The connections themselves (TCP, timeouts, sleeping between attempts) are
//! run outside the library; every choice they lead to is made here.
use base64::Engine;
use vstd::prelude::*;

use super::protocol::{InboundMsg, OutboundMsg};
use crate::settings::CleanupAggressiveness;
use crate::settings_store::{aggressiveness_of_tag, aggressiveness_tag, lemma_aggressiveness_tags};
use crate::text::{chars_of, eq_str};
use crate::text_map::TextMap;

verus! {

/// The character of the standard base64 alphabet for a six-bit value `n`:
/// `A`-`Z`, `a`-`z`, `0`-`9`, `+`, `/`.
pub open spec fn base64_char(n: nat) -> char {
    if n < 26 {
        (65 + n) as char
    } else if n < 52 {
        (97 + (n - 26)) as char
    } else if n < 62 {
        (48 + (n - 52)) as char
    } else if n == 62 {
        '+'
    } else {
        '/'
    }
}

/// The standard, padded base64 text of a run of bytes: each group of three
/// bytes gives four characters of six bits each; a last group of one or two
/// bytes gives two or three characters, filled up with `=` to four.
pub open spec fn base64_standard(data: Seq<u8>) -> Seq<char>
    decreases data.len(),
{
    if data.len() == 0 {
        Seq::empty()
    } else if data.len() == 1 {
        let b0 = data[0] as nat;
        seq![base64_char(b0 / 4), base64_char((b0 % 4) * 16), '=', '=']
    } else if data.len() == 2 {
        let b0 = data[0] as nat;
        let b1 = data[1] as nat;
        seq![
            base64_char(b0 / 4),
            base64_char((b0 % 4) * 16 + b1 / 16),
            base64_char((b1 % 16) * 4),
            '=',
        ]
    } else {
        let b0 = data[0] as nat;
        let b1 = data[1] as nat;
        let b2 = data[2] as nat;
        seq![
            base64_char(b0 / 4),
            base64_char((b0 % 4) * 16 + b1 / 16),
            base64_char((b1 % 16) * 4 + b2 / 64),
            base64_char(b2 % 64),
        ] + base64_standard(data.subrange(3, data.len() as int))
    }
}

/// The base64 text of `n` bytes has four characters per started group of three.
pub proof fn lemma_base64_length(data: Seq<u8>)
    ensures
        base64_standard(data).len() == (data.len() + 2) / 3 * 4,
    decreases data.len(),
{
    if data.len() >= 3 {
        lemma_base64_length(data.subrange(3, data.len() as int));
    }
}

/// Calls `STANDARD.encode` of the `base64` crate: the standard alphabet with
/// `=` padding, which the crate's `encode` and `encoded_len` produce and size
/// as `base64_standard` states. The crate panics where that length overflows
/// `usize`, which `requires` rules out.
#[verifier::external_body]
fn encode_base64(data: &[u8]) -> (s: String)
    requires
        data@.len() / 3 * 4 + 4 <= usize::MAX,
    ensures
        s@ == base64_standard(data@),
{
    base64::engine::general_purpose::STANDARD.encode(data)
}

/// The final transcript of a session.
#[derive(Debug, Clone)]
pub struct TranscriptResult {
    pub text: String,
    pub language: String,
    pub duration_ms: u64,
}

/// The name under which the cleanup service knows an aggressiveness.
pub open spec fn aggressiveness_label(a: CleanupAggressiveness) -> Seq<char> {
    match a {
        CleanupAggressiveness::Light => "light"@,
        CleanupAggressiveness::Moderate => "moderate"@,
        CleanupAggressiveness::Aggressive => "aggressive"@,
    }
}

/// The label sent to the cleanup service for an aggressiveness is its own
/// lowercase name, the one under which the setting is stored, so different
/// levels are always told apart.
pub proof fn lemma_aggressiveness_label_is_its_name(a: CleanupAggressiveness, b: CleanupAggressiveness)
    ensures
        aggressiveness_label(a) == aggressiveness_tag(a),
        aggressiveness_of_tag(aggressiveness_label(a)) == Some(a),
        a != b ==> aggressiveness_label(a) != aggressiveness_label(b),
{
    lemma_aggressiveness_tags(a);
    lemma_aggressiveness_tags(b);
}

fn aggressiveness_str(a: &CleanupAggressiveness) -> (s: &'static str)
    ensures
        s@ == aggressiveness_label(*a),
{
    match a {
        CleanupAggressiveness::Light => "light",
        CleanupAggressiveness::Moderate => "moderate",
        CleanupAggressiveness::Aggressive => "aggressive",
    }
}

fn owned(s: &str) -> (r: String)
    ensures
        r@ == s@,
{
    s.to_owned()
}

/// The message that carries one chunk of audio: `pcm` is the raw little-endian
/// sample bytes, sent as base64 text.
pub fn audio_chunk_msg(session_id: &str, seq: u32, pcm: &[u8], sample_rate: u32) -> (m: OutboundMsg)
    requires
        pcm@.len() / 3 * 4 + 4 <= usize::MAX,
    ensures
        m matches OutboundMsg::AudioChunk { session_id: sid, seq: q, data, sample_rate: r } && sid@
            == session_id@ && q == seq && data@ == base64_standard(pcm@) && r == sample_rate,
{
    let data = encode_base64(pcm);
    OutboundMsg::AudioChunk { session_id: owned(session_id), seq, data, sample_rate }
}

/// The message that ends the audio of a session.
pub fn audio_end_msg(session_id: &str) -> (m: OutboundMsg)
    ensures
        m matches OutboundMsg::AudioEnd { session_id: sid } && sid@ == session_id@,
{
    OutboundMsg::AudioEnd { session_id: owned(session_id) }
}

/// The request to clean up raw transcribed text.
pub fn clean_text_msg(
    session_id: &str,
    raw_text: &str,
    app_context: &str,
    language: &str,
    aggressiveness: &CleanupAggressiveness,
    rag_context: Vec<String>,
    dictionary_terms: Vec<[String; 2]>,
    remove_fillers: bool,
    fix_punctuation: bool,
    fix_capitalization: bool,
) -> (m: OutboundMsg)
    ensures
        m matches OutboundMsg::CleanText {
            session_id: sid,
            raw_text: raw,
            app_context: ctx,
            language: lang,
            aggressiveness: agg,
            rag_context: rag,
            dictionary_terms: dict,
            remove_fillers: rf,
            fix_punctuation: fp,
            fix_capitalization: fc,
        } && sid@ == session_id@ && raw@ == raw_text@ && ctx@ == app_context@ && lang@
            == language@ && agg@ == aggressiveness_label(*aggressiveness) && rag == rag_context
            && dict == dictionary_terms && rf == remove_fillers && fp == fix_punctuation && fc
            == fix_capitalization,
{
    let agg = aggressiveness_str(aggressiveness);
    OutboundMsg::CleanText {
        session_id: owned(session_id),
        raw_text: owned(raw_text),
        app_context: owned(app_context),
        language: owned(language),
        aggressiveness: owned(agg),
        rag_context,
        dictionary_terms,
        remove_fillers,
        fix_punctuation,
        fix_capitalization,
    }
}

/// The request to run a voice command on text.
pub fn execute_command_msg(session_id: &str, command: &str, text: &str, language: &str) -> (m:
    OutboundMsg)
    ensures
        m matches OutboundMsg::ExecuteCommand { session_id: sid, command: c, text: t, language: l }
            && sid@ == session_id@ && c@ == command@ && t@ == text@ && l@ == language@,
{
    OutboundMsg::ExecuteCommand {
        session_id: owned(session_id),
        command: owned(command),
        text: owned(text),
        language: owned(language),
    }
}

/// The request for past corrections similar to `query_text`.
pub fn retrieve_context_msg(session_id: &str, query_text: &str, max_results: u32) -> (m:
    OutboundMsg)
    ensures
        m matches OutboundMsg::RetrieveContext { session_id: sid, query_text: q, max_results: n }
            && sid@ == session_id@ && q@ == query_text@ && n == max_results,
{
    OutboundMsg::RetrieveContext {
        session_id: owned(session_id),
        query_text: owned(query_text),
        max_results,
    }
}

/// The request to remember a raw → clean correction.
pub fn store_correction_msg(
    session_id: &str,
    raw_text: &str,
    clean_text: &str,
    app_context: &str,
    language: &str,
) -> (m: OutboundMsg)
    ensures
        m matches OutboundMsg::StoreCorrection {
            session_id: sid,
            raw_text: r,
            clean_text: c,
            app_context: a,
            language: l,
        } && sid@ == session_id@ && r@ == raw_text@ && c@ == clean_text@ && a@ == app_context@
            && l@ == language@,
{
    OutboundMsg::StoreCorrection {
        session_id: owned(session_id),
        raw_text: owned(raw_text),
        clean_text: owned(clean_text),
        app_context: owned(app_context),
        language: owned(language),
    }
}

/// Why a request got no usable answer.
#[derive(Debug, Clone)]
pub enum ServiceReplyError {
    /// The service reported an error with this message.
    Service(String),
    /// The service answered with a message of another kind.
    Unexpected(InboundMsg),
}

/// The cleaned text of a cleanup reply.
pub fn clean_text_reply(resp: InboundMsg) -> (r: Result<String, ServiceReplyError>)
    ensures
        match resp {
            InboundMsg::TextReady { text, .. } => r matches Ok(t) && t == text,
            InboundMsg::ServiceError { message, .. } => r matches Err(
                ServiceReplyError::Service(m),
            ) && m == message,
            _ => r matches Err(ServiceReplyError::Unexpected(other)) && other == resp,
        },
{
    match resp {
        InboundMsg::TextReady { text, .. } => Ok(text),
        InboundMsg::ServiceError { message, .. } => Err(ServiceReplyError::Service(message)),
        other => Err(ServiceReplyError::Unexpected(other)),
    }
}

/// The text of a command reply.
pub fn command_reply(resp: InboundMsg) -> (r: Result<String, ServiceReplyError>)
    ensures
        match resp {
            InboundMsg::CommandResult { text, .. } => r matches Ok(t) && t == text,
            InboundMsg::ServiceError { message, .. } => r matches Err(
                ServiceReplyError::Service(m),
            ) && m == message,
            _ => r matches Err(ServiceReplyError::Unexpected(other)) && other == resp,
        },
{
    match resp {
        InboundMsg::CommandResult { text, .. } => Ok(text),
        InboundMsg::ServiceError { message, .. } => Err(ServiceReplyError::Service(message)),
        other => Err(ServiceReplyError::Unexpected(other)),
    }
}

/// The segments of a context reply.
pub fn context_reply(resp: InboundMsg) -> (r: Result<Vec<String>, ServiceReplyError>)
    ensures
        match resp {
            InboundMsg::ContextReady { segments, .. } => r matches Ok(s) && s == segments,
            InboundMsg::ServiceError { message, .. } => r matches Err(
                ServiceReplyError::Service(m),
            ) && m == message,
            _ => r matches Err(ServiceReplyError::Unexpected(other)) && other == resp,
        },
{
    match resp {
        InboundMsg::ContextReady { segments, .. } => Ok(segments),
        InboundMsg::ServiceError { message, .. } => Err(ServiceReplyError::Service(message)),
        other => Err(ServiceReplyError::Unexpected(other)),
    }
}

/// A ping is answered by a pong.
pub fn is_pong(resp: &InboundMsg) -> (b: bool)
    ensures
        b == (*resp is Pong),
{
    match resp {
        InboundMsg::Pong { .. } => true,
        _ => false,
    }
}

/// After a service error the connection is dropped and made again on the next request.
pub fn resets_connection(resp: &InboundMsg) -> (b: bool)
    ensures
        b == (*resp is ServiceError),
{
    match resp {
        InboundMsg::ServiceError { .. } => true,
        _ => false,
    }
}

/// What to do with one message read while waiting for a final transcript.
#[derive(Debug, Clone)]
pub enum TranscriptStep {
    /// Keep waiting (the message was a partial transcript, or concerned another session).
    Continue,
    /// The final transcript of the session.
    Done(TranscriptResult),
    /// The transcription service reported this error.
    Failed(String),
}

/// Handles one message from the transcription service for the session
/// `session_id`: a partial transcript of the session is kept in `partials`,
/// its final transcript ends the wait and drops the partial one, and a
/// service error ends the wait whatever session it names.
pub fn transcript_step(partials: &mut TextMap, session_id: &str, msg: InboundMsg) -> (step:
    TranscriptStep)
    ensures
        match msg {
            InboundMsg::TranscriptPartial { session_id: sid, text } => if sid@ == session_id@ {
                step is Continue && final(partials)@ == old(partials)@.insert(session_id@, text@)
            } else {
                step is Continue && final(partials)@ == old(partials)@
            },
            InboundMsg::TranscriptFinal { session_id: sid, text, language, duration_ms } => if sid@
                == session_id@ {
                &&& step matches TranscriptStep::Done(t)
                &&& t.text == text && t.language == language && t.duration_ms == duration_ms
                &&& final(partials)@ == old(partials)@.remove(session_id@)
            } else {
                step is Continue && final(partials)@ == old(partials)@
            },
            InboundMsg::ServiceError { message, .. } => step matches TranscriptStep::Failed(m)
                && m == message && final(partials)@ == old(partials)@,
            _ => step is Continue && final(partials)@ == old(partials)@,
        },
{
    match msg {
        InboundMsg::TranscriptPartial { session_id: sid, text } => {
            let s = chars_of(sid.as_str());
            if eq_str(&s, session_id) {
                partials.insert(owned(session_id), text);
            }
            TranscriptStep::Continue
        },
        InboundMsg::TranscriptFinal { session_id: sid, text, language, duration_ms } => {
            let s = chars_of(sid.as_str());
            if eq_str(&s, session_id) {
                partials.remove(session_id);
                TranscriptStep::Done(TranscriptResult { text, language, duration_ms })
            } else {
                TranscriptStep::Continue
            }
        },
        InboundMsg::ServiceError { message, .. } => TranscriptStep::Failed(message),
        _ => TranscriptStep::Continue,
    }
}

/// The latest partial transcript of a session, if one has arrived.
pub fn try_recv_partial(partials: &TextMap, session_id: &str) -> (r: Option<String>)
    ensures
        r is Some <==> partials@.contains_key(session_id@),
        r matches Some(t) ==> t@ == partials@[session_id@],
{
    match partials.get(session_id) {
        Some(t) => Some(t.clone()),
        None => None,
    }
}

/// How many times a connection to a service is tried before giving up.
pub const CONNECT_ATTEMPTS: u32 = 20;

/// Milliseconds to wait between two connection attempts.
pub const CONNECT_RETRY_DELAY_MS: u64 = 500;

/// What follows one connection attempt.
#[derive(Debug, Clone, Copy, PartialEq, Eq, Structural)]
pub enum ConnectStep {
    Connected,
    /// Wait, then try again.
    Retry,
    GiveUp,
}

/// After attempt number `attempt` (from 1) of `max`: a success is kept, a
/// failure is tried again until the last attempt has failed.
pub fn connect_step(attempt: u32, max: u32, connected: bool) -> (s: ConnectStep)
    ensures
        connected ==> s == ConnectStep::Connected,
        !connected && attempt < max ==> s == ConnectStep::Retry,
        !connected && attempt >= max ==> s == ConnectStep::GiveUp,
{
    if connected {
        ConnectStep::Connected
    } else if attempt < max {
        ConnectStep::Retry
    } else {
        ConnectStep::GiveUp
    }
}

/// How many one-second rounds the start-up health check waits for the services.
pub const HEALTH_CHECK_ATTEMPTS: u32 = 30;

/// What follows one round of the start-up health check.
#[derive(Debug, Clone, Copy, PartialEq, Eq, Structural)]
pub enum HealthStep {
    /// All services answered: report them ready.
    AllReady,
    /// Wait a second; `warn` asks for a progress warning, `last` means the
    /// rounds are used up and the final state is reported after the wait.
    Wait { warn: bool, last: bool },
}

/// Round `attempt` (from 1) of the start-up health check.
pub fn health_step(attempt: u32, whisper: bool, llm: bool, rag: bool) -> (s: HealthStep)
    ensures
        whisper && llm && rag ==> s == HealthStep::AllReady,
        !(whisper && llm && rag) ==> s == (HealthStep::Wait {
            warn: attempt % 5 == 0,
            last: attempt >= HEALTH_CHECK_ATTEMPTS,
        }),
{
    if whisper && llm && rag {
        HealthStep::AllReady
    } else {
        HealthStep::Wait { warn: attempt % 5 == 0, last: attempt >= HEALTH_CHECK_ATTEMPTS }
    }
}

/// The base64 alphabet: the 64 six-bit values get 64 different characters,
/// each a letter, a digit, `+` or `/`, and never the padding `=`.
pub proof fn lemma_base64_alphabet(a: nat, b: nat)
    requires
        a < 64,
        b < 64,
    ensures
        a != b ==> base64_char(a) != base64_char(b),
        ('A' <= base64_char(a) <= 'Z') || ('a' <= base64_char(a) <= 'z') || ('0' <= base64_char(a)
            <= '9') || base64_char(a) == '+' || base64_char(a) == '/',
        base64_char(a) != '=',
{
}

} // verus!
