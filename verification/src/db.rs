//! Records kept in the local database: dictation sessions and the personal
//! dictionary. The queries themselves run outside the library.
use vstd::prelude::*;

use crate::context::{context_label, AppContext};
use crate::settings::{whisper_model_name, WhisperModel};
use crate::text::word_count_of;
use vstd::utf8::encode_utf8;

verus! {

/// A finished dictation, as it is inserted into the sessions table.
#[derive(Debug, Clone)]
pub struct NewSession {
    pub id: String,
    pub raw_text: String,
    pub clean_text: String,
    pub app_context: String,
    pub window_title: String,
    pub language: String,
    pub duration_ms: i64,
    pub model_used: String,
    pub cleanup_model: String,
}

/// A session as the history view lists it.
#[derive(Debug, Clone)]
pub struct SessionRow {
    pub id: String,
    pub created_at: i64,
    pub raw_text: String,
    pub clean_text: String,
    pub app_context: String,
    pub window_title: String,
    pub language: String,
    pub duration_ms: i64,
    pub word_count: i64,
}

/// One personal dictionary entry: a misheard term and its correction.
#[derive(Debug, Clone)]
pub struct DictionaryEntry {
    pub id: i64,
    pub wrong: String,
    pub correct: String,
    pub created_at: i64,
    pub use_count: i64,
}

impl NewSession {
    /// The record of a finished dictation.
    pub fn for_dictation(
        id: String,
        raw_text: String,
        clean_text: String,
        context: AppContext,
        window_title: String,
        language: String,
        duration_ms: u64,
        model: WhisperModel,
        cleanup_model: String,
    ) -> (s: NewSession)
        ensures
            s.id == id,
            s.raw_text == raw_text,
            s.clean_text == clean_text,
            s.app_context@ == context_label(context),
            s.window_title == window_title,
            s.language == language,
            s.duration_ms == duration_ms as i64,
            s.model_used@ == whisper_model_name(model),
            s.cleanup_model == cleanup_model,
    {
        NewSession {
            id,
            raw_text,
            clean_text,
            app_context: context.as_str().to_owned(),
            window_title,
            language,
            duration_ms: duration_ms as i64,
            model_used: model.as_str().to_owned(),
            cleanup_model,
        }
    }

    /// The word count and the byte count stored with the session.
    pub fn counts(&self) -> (r: (i64, i64))
        ensures
            r.0 == word_count_of(self.clean_text@) as i64,
            r.1 == (encode_utf8(self.clean_text@).len() as usize) as i64,
    {
        let w = crate::text::word_count(self.clean_text.as_str());
        let c = self.clean_text.as_str().len();
        (w as i64, c as i64)
    }
}

/// The dictionary as (wrong, correct) pairs for inclusion in cleanup prompts.
pub fn dictionary_pairs(entries: Vec<DictionaryEntry>) -> (pairs: Vec<[String; 2]>)
    ensures
        pairs@.len() == entries@.len(),
        forall|i: int|
            0 <= i < entries@.len() ==> #[trigger] pairs@[i][0] == entries@[i].wrong && pairs@[i][1]
                == entries@[i].correct,
{
    let n = entries.len();
    let mut pairs: Vec<[String; 2]> = Vec::new();
    let mut i: usize = 0;
    while i < n
        invariant
            n == entries@.len(),
            0 <= i <= n,
            pairs@.len() == i,
            forall|k: int|
                0 <= k < i ==> #[trigger] pairs@[k][0] == entries@[k].wrong && pairs@[k][1]
                    == entries@[k].correct,
        decreases n - i,
    {
        let e = &entries[i];
        pairs.push([e.wrong.clone(), e.correct.clone()]);
        i = i + 1;
    }
    pairs
}

} // verus!
