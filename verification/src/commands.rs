//! The decisions behind the commands that the interface invokes: paging the
//! history, and checking dictionary entries before they are stored.
use vstd::prelude::*;

use crate::db::SessionRow;
use crate::text::{trim, trim_str};

verus! {

/// Health of the AI services and the current recording state.
#[derive(Debug, Clone, Copy, PartialEq, Eq, Structural)]
pub struct ServiceStatus {
    pub whisper: bool,
    pub llm: bool,
    pub rag: bool,
    pub is_recording: bool,
}

/// One page of dictation history.
#[derive(Debug, Clone)]
pub struct HistoryPage {
    pub items: Vec<SessionRow>,
    pub total: i64,
    pub limit: i64,
    pub offset: i64,
}

/// Page size used when none is asked for.
pub const DEFAULT_PAGE_LIMIT: i64 = 50;

/// Largest page size served.
pub const MAX_PAGE_LIMIT: i64 = 200;

/// The page limit actually used for a requested one.
pub open spec fn page_limit(limit: Option<i64>) -> i64 {
    let l = match limit {
        Some(l) => l,
        None => DEFAULT_PAGE_LIMIT,
    };
    if l < MAX_PAGE_LIMIT {
        l
    } else {
        MAX_PAGE_LIMIT
    }
}

/// The offset actually used for a requested one.
pub open spec fn page_offset(offset: Option<i64>) -> i64 {
    let o = match offset {
        Some(o) => o,
        None => 0,
    };
    if o > 0 {
        o
    } else {
        0
    }
}

/// Limit and offset of a history page: the limit defaults to 50 and is
/// capped at 200, the offset defaults to 0 and is never negative.
pub fn history_page_bounds(limit: Option<i64>, offset: Option<i64>) -> (r: (i64, i64))
    ensures
        r.0 == page_limit(limit),
        r.1 == page_offset(offset),
        r.0 <= MAX_PAGE_LIMIT,
        r.1 >= 0,
{
    let l = match limit {
        Some(l) => l,
        None => DEFAULT_PAGE_LIMIT,
    };
    let o = match offset {
        Some(o) => o,
        None => 0,
    };
    let l = if l < MAX_PAGE_LIMIT {
        l
    } else {
        MAX_PAGE_LIMIT
    };
    let o = if o > 0 {
        o
    } else {
        0
    };
    (l, o)
}

/// Why a dictionary entry is refused.
#[derive(Debug, Clone, Copy, PartialEq, Eq, Structural)]
pub enum DictionaryError {
    /// Both 'wrong' and 'correct' must be non-empty.
    EmptyTerm,
}

/// Checks a dictionary entry: both terms, trimmed, must be non-empty; the
/// trimmed terms are what gets stored.
pub fn validate_dictionary_entry(wrong: &str, correct: &str) -> (r: Result<
    (String, String),
    DictionaryError,
>)
    ensures
        (trim(wrong@).len() == 0 || trim(correct@).len() == 0) ==> r == Err::<
            (String, String),
            DictionaryError,
        >(DictionaryError::EmptyTerm),
        !(trim(wrong@).len() == 0 || trim(correct@).len() == 0) ==> (r matches Ok((w, c)) && w@
            == trim(wrong@) && c@ == trim(correct@)),
{
    let w = trim_str(wrong);
    let c = trim_str(correct);
    if w.as_str().is_empty() || c.as_str().is_empty() {
        Err(DictionaryError::EmptyTerm)
    } else {
        Ok((w, c))
    }
}

/// The trimmed text of an optional term; a missing term reads as empty.
pub open spec fn term_text(t: Option<String>) -> Seq<char> {
    match t {
        Some(s) => trim(s@),
        None => Seq::<char>::empty(),
    }
}

/// The entries of an import that are kept: those whose two terms, trimmed,
/// are both non-empty, in order, with their trimmed terms.
pub open spec fn import_terms(entries: Seq<(Option<String>, Option<String>)>) -> Seq<
    (Seq<char>, Seq<char>),
>
    decreases entries.len(),
{
    if entries.len() == 0 {
        Seq::empty()
    } else {
        let rest = import_terms(entries.drop_last());
        let w = term_text(entries.last().0);
        let c = term_text(entries.last().1);
        if w.len() == 0 || c.len() == 0 {
            rest
        } else {
            rest.push((w, c))
        }
    }
}

/// The view of a list of term pairs.
pub open spec fn pairs_view(v: Seq<(String, String)>) -> Seq<(Seq<char>, Seq<char>)> {
    Seq::new(v.len(), |i: int| (v[i].0@, v[i].1@))
}

fn term_of(t: &Option<String>) -> (r: String)
    ensures
        r@ == term_text(*t),
{
    match t {
        Some(s) => trim_str(s.as_str()),
        None => String::new(),
    }
}

/// Bulk import: keeps the entries whose `wrong` and `correct` terms are both
/// present and non-empty after trimming, and trims them. Each kept pair is
/// stored, a later pair for the same `wrong` term overwriting an earlier one.
pub fn import_entries(entries: &Vec<(Option<String>, Option<String>)>) -> (r: Vec<(String, String)>)
    ensures
        pairs_view(r@) == import_terms(entries@),
{
    let n = entries.len();
    let mut out: Vec<(String, String)> = Vec::new();
    let mut i: usize = 0;
    assert(entries@.take(0) =~= Seq::<(Option<String>, Option<String>)>::empty());
    assert(pairs_view(out@) =~= import_terms(entries@.take(0)));
    while i < n
        invariant
            n == entries@.len(),
            0 <= i <= n,
            pairs_view(out@) == import_terms(entries@.take(i as int)),
        decreases n - i,
    {
        let w = term_of(&entries[i].0);
        let c = term_of(&entries[i].1);
        assert(entries@.take(i + 1).drop_last() =~= entries@.take(i as int));
        assert(entries@.take(i + 1).last() == entries@[i as int]);
        if !(w.as_str().is_empty() || c.as_str().is_empty()) {
            let ghost before = out@;
            out.push((w, c));
            assert(pairs_view(out@) =~= pairs_view(before).push((w@, c@)));
        }
        i = i + 1;
    }
    assert(entries@.take(n as int) =~= entries@);
    out
}

} // verus!
