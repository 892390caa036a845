//! A map from text keys to text values, kept as a vector of pairs in which
//! no key occurs twice. It holds the raw rows of the settings table and the
//! partial transcripts kept per session.
use vstd::prelude::*;

use crate::text::{chars_of, eq_str};

verus! {

/// No key occurs twice among `e`.
pub open spec fn keys_unique(e: Seq<(String, String)>) -> bool {
    forall|i: int, j: int| 0 <= i < j < e.len() ==> #[trigger] e[i].0@ != #[trigger] e[j].0@
}

/// `k` is the key of some entry of `e`.
pub open spec fn has_key(e: Seq<(String, String)>, k: Seq<char>) -> bool {
    exists|i: int| 0 <= i < e.len() && #[trigger] e[i].0@ == k
}

/// The map that a sequence of pairs with unique keys stands for.
pub open spec fn entries_map(e: Seq<(String, String)>) -> Map<Seq<char>, Seq<char>> {
    Map::new(
        |k: Seq<char>| has_key(e, k),
        |k: Seq<char>| e[choose|i: int| 0 <= i < e.len() && #[trigger] e[i].0@ == k].1@,
    )
}

/// The map obtained by inserting the pairs of `rows` in order into an empty
/// map, a later pair replacing an earlier one with the same key.
pub open spec fn rows_map(rows: Seq<(String, String)>) -> Map<Seq<char>, Seq<char>>
    decreases rows.len(),
{
    if rows.len() == 0 {
        Map::empty()
    } else {
        rows_map(rows.drop_last()).insert(rows.last().0@, rows.last().1@)
    }
}

/// A finite map from text keys to text values.
pub struct TextMap {
    entries: Vec<(String, String)>,
}

impl View for TextMap {
    type V = Map<Seq<char>, Seq<char>>;

    closed spec fn view(&self) -> Map<Seq<char>, Seq<char>> {
        entries_map(self.entries@)
    }
}

/// Position of the entry with key `key`, if any.
fn find(e: &Vec<(String, String)>, key: &str) -> (r: Option<usize>)
    requires
        keys_unique(e@),
    ensures
        match r {
            Some(i) => i < e@.len() && e@[i as int].0@ == key@,
            None => !has_key(e@, key@),
        },
{
    let n = e.len();
    let kk = chars_of(key);
    let mut i: usize = 0;
    while i < n
        invariant
            n == e@.len(),
            kk@ == key@,
            0 <= i <= n,
            forall|j: int| 0 <= j < i ==> #[trigger] e@[j].0@ != key@,
        decreases n - i,
    {
        if eq_str(&kk, e[i].0.as_str()) {
            return Some(i);
        }
        i = i + 1;
    }
    None
}

/// In a map with unique keys, the entry found at `i` is the one the map reads.
proof fn lemma_entry_value(e: Seq<(String, String)>, i: int)
    requires
        keys_unique(e),
        0 <= i < e.len(),
    ensures
        entries_map(e).contains_key(e[i].0@),
        entries_map(e)[e[i].0@] == e[i].1@,
{
    let k = e[i].0@;
    assert(has_key(e, k));
    let j = choose|j: int| 0 <= j < e.len() && #[trigger] e[j].0@ == k;
    if j != i {
        if j < i {
            assert(e[j].0@ != e[i].0@);
        } else {
            assert(e[i].0@ != e[j].0@);
        }
    }
}

impl TextMap {
    /// The well-formedness of the map: no key occurs twice.
    #[verifier::type_invariant]
    spec fn well_formed(self) -> bool {
        keys_unique(self.entries@)
    }

    /// An empty map.
    pub fn new() -> (m: Self)
        ensures
            m@ == Map::<Seq<char>, Seq<char>>::empty(),
    {
        let m = TextMap { entries: Vec::new() };
        assert(m@ =~= Map::<Seq<char>, Seq<char>>::empty());
        m
    }

    /// The value stored under `key`.
    pub fn get(&self, key: &str) -> (r: Option<&String>)
        ensures
            r is Some <==> self@.contains_key(key@),
            r matches Some(v) ==> v@ == self@[key@],
    {
        proof {
            use_type_invariant(self);
        }
        match find(&self.entries, key) {
            Some(i) => {
                proof {
                    lemma_entry_value(self.entries@, i as int);
                }
                Some(&self.entries[i].1)
            },
            None => None,
        }
    }

    /// Stores `value` under `key`, replacing what was stored there.
    pub fn insert(&mut self, key: String, value: String)
        ensures
            final(self)@ == old(self)@.insert(key@, value@),
    {
        proof {
            use_type_invariant(&*self);
        }
        let mut e: Vec<(String, String)> = Vec::new();
        std::mem::swap(&mut e, &mut self.entries);
        let ghost old_e = e@;
        let ghost kv = key@;
        let ghost vv = value@;
        match find(&e, key.as_str()) {
            Some(i) => {
                e.set(i, (key, value));
                assert(keys_unique(e@)) by {
                    assert forall|a: int, b: int| 0 <= a < b < e@.len() implies #[trigger] e@[a].0@
                        != #[trigger] e@[b].0@ by {
                        if a == i {
                            assert(old_e[b].0@ != old_e[a].0@);
                        } else if b == i {
                            assert(old_e[a].0@ != old_e[b].0@);
                        } else {
                            assert(old_e[a].0@ != old_e[b].0@);
                        }
                    }
                }
                assert forall|k: Seq<char>| has_key(e@, k) == (has_key(old_e, k) || k == kv) by {
                    if has_key(old_e, k) {
                        let j = choose|j: int| 0 <= j < old_e.len() && #[trigger] old_e[j].0@ == k;
                        if j == i {
                            assert(e@[j].0@ == k);
                        } else {
                            assert(e@[j].0@ == k);
                        }
                    }
                    if k == kv {
                        assert(e@[i as int].0@ == k);
                    }
                    if has_key(e@, k) {
                        let j = choose|j: int| 0 <= j < e@.len() && #[trigger] e@[j].0@ == k;
                        if j != i {
                            assert(old_e[j].0@ == k);
                        }
                    }
                }
                assert forall|k: Seq<char>| #[trigger] has_key(e@, k) && k != kv implies entries_map(
                    e@,
                )[k] == entries_map(old_e)[k] by {
                    let j = choose|j: int| 0 <= j < e@.len() && #[trigger] e@[j].0@ == k;
                    assert(j != i);
                    lemma_entry_value(e@, j);
                    assert(old_e[j] == e@[j]);
                    lemma_entry_value(old_e, j);
                }
                proof {
                    lemma_entry_value(e@, i as int);
                }
                assert(entries_map(e@) =~= entries_map(old_e).insert(kv, vv));
            },
            None => {
                e.push((key, value));
                assert(keys_unique(e@)) by {
                    assert forall|a: int, b: int| 0 <= a < b < e@.len() implies #[trigger] e@[a].0@
                        != #[trigger] e@[b].0@ by {
                        if b == old_e.len() {
                            assert(e@[a] == old_e[a]);
                        } else {
                            assert(old_e[a].0@ != old_e[b].0@);
                        }
                    }
                }
                assert forall|k: Seq<char>| has_key(e@, k) == (has_key(old_e, k) || k == kv) by {
                    if has_key(old_e, k) {
                        let j = choose|j: int| 0 <= j < old_e.len() && #[trigger] old_e[j].0@ == k;
                        assert(e@[j].0@ == k);
                    }
                    if k == kv {
                        assert(e@[old_e.len() as int].0@ == k);
                    }
                    if has_key(e@, k) {
                        let j = choose|j: int| 0 <= j < e@.len() && #[trigger] e@[j].0@ == k;
                        if j < old_e.len() {
                            assert(old_e[j].0@ == k);
                        }
                    }
                }
                assert forall|k: Seq<char>| #[trigger] has_key(e@, k) && k != kv implies entries_map(
                    e@,
                )[k] == entries_map(old_e)[k] by {
                    let j = choose|j: int| 0 <= j < e@.len() && #[trigger] e@[j].0@ == k;
                    assert(j < old_e.len());
                    lemma_entry_value(e@, j);
                    assert(old_e[j] == e@[j]);
                    lemma_entry_value(old_e, j);
                }
                proof {
                    lemma_entry_value(e@, old_e.len() as int);
                }
                assert(entries_map(e@) =~= entries_map(old_e).insert(kv, vv));
            },
        }
        self.entries = e;
    }

    /// Removes what is stored under `key`.
    pub fn remove(&mut self, key: &str)
        ensures
            final(self)@ == old(self)@.remove(key@),
    {
        proof {
            use_type_invariant(&*self);
        }
        let mut e: Vec<(String, String)> = Vec::new();
        std::mem::swap(&mut e, &mut self.entries);
        let ghost old_e = e@;
        match find(&e, key) {
            Some(i) => {
                let _gone = e.remove(i);
                assert(forall|j: int| 0 <= j < i ==> e@[j] == old_e[j]);
                assert(forall|j: int| i <= j < e@.len() ==> e@[j] == old_e[j + 1]);
                assert(keys_unique(e@)) by {
                    assert forall|a: int, b: int| 0 <= a < b < e@.len() implies #[trigger] e@[a].0@
                        != #[trigger] e@[b].0@ by {
                        let oa = if a < i { a } else { a + 1 };
                        let ob = if b < i { b } else { b + 1 };
                        assert(old_e[oa].0@ != old_e[ob].0@);
                    }
                }
                assert forall|k: Seq<char>| has_key(e@, k) == (has_key(old_e, k) && k != key@) by {
                    if has_key(old_e, k) && k != key@ {
                        let j = choose|j: int| 0 <= j < old_e.len() && #[trigger] old_e[j].0@ == k;
                        assert(j != i);
                        let nj = if j < i { j } else { j - 1 };
                        assert(e@[nj].0@ == k);
                    }
                    if has_key(e@, k) {
                        let j = choose|j: int| 0 <= j < e@.len() && #[trigger] e@[j].0@ == k;
                        let oj = if j < i { j } else { j + 1 };
                        assert(old_e[oj].0@ == k);
                        assert(oj != i ==> old_e[oj].0@ != old_e[i as int].0@);
                    }
                }
                assert forall|k: Seq<char>| #[trigger] has_key(e@, k) implies entries_map(e@)[k]
                    == entries_map(old_e)[k] by {
                    let j = choose|j: int| 0 <= j < e@.len() && #[trigger] e@[j].0@ == k;
                    let oj = if j < i { j } else { j + 1 };
                    lemma_entry_value(e@, j);
                    lemma_entry_value(old_e, oj);
                }
                assert(entries_map(e@) =~= entries_map(old_e).remove(key@));
            },
            None => {
                assert(entries_map(e@) =~= entries_map(old_e).remove(key@));
            },
        }
        self.entries = e;
    }

    /// The map that collecting `rows` gives: a later row replaces an earlier
    /// one with the same key.
    pub fn from_rows(rows: Vec<(String, String)>) -> (m: Self)
        ensures
            m@ == rows_map(rows@),
    {
        let mut m = TextMap::new();
        let n = rows.len();
        let mut i: usize = 0;
        assert(rows@.take(0) =~= Seq::<(String, String)>::empty());
        while i < n
            invariant
                n == rows@.len(),
                0 <= i <= n,
                m@ == rows_map(rows@.take(i as int)),
            decreases n - i,
        {
            let k = rows[i].0.clone();
            let v = rows[i].1.clone();
            assert(rows@.take(i + 1).drop_last() =~= rows@.take(i as int));
            m.insert(k, v);
            i = i + 1;
        }
        assert(rows@.take(n as int) =~= rows@);
        m
    }
}


/// A read gives back what the last write under the same key stored, a write
/// leaves every other key as it was, and a removed key reads as absent.
pub proof fn lemma_read_after_write(
    m: Map<Seq<char>, Seq<char>>,
    k: Seq<char>,
    v: Seq<char>,
    other: Seq<char>,
)
    ensures
        m.insert(k, v).contains_key(k),
        m.insert(k, v)[k] == v,
        other != k ==> m.insert(k, v).contains_key(other) == m.contains_key(other),
        other != k && m.contains_key(other) ==> m.insert(k, v)[other] == m[other],
        !m.remove(k).contains_key(k),
        other != k ==> m.remove(k).contains_key(other) == m.contains_key(other),
{
}

} // verus!
