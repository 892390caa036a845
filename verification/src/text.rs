//! Character-level text helpers shared by the parsers of the library.
//!
//! Text is handled as sequences of `char`; every helper is stated over the
//! `Seq<char>` view of its arguments.
use vstd::prelude::*;

verus! {

/// What `str::to_lowercase` returns for a string: the Unicode lowercase
/// mapping of every character, which may change the length of the text.
pub uninterp spec fn lowercase(s: Seq<char>) -> Seq<char>;

/// Every character of `s` is ASCII.
pub open spec fn is_ascii_text(s: Seq<char>) -> bool {
    forall|i: int| 0 <= i < s.len() ==> (#[trigger] s[i] as nat) < 128
}

/// `c` with an ASCII capital letter made small.
pub open spec fn ascii_lower_char(c: char) -> char {
    if 65 <= (c as nat) <= 90 {
        ((c as nat) + 32) as char
    } else {
        c
    }
}

/// `s` with each ASCII capital letter made small, every other character kept.
pub open spec fn ascii_lowercase(s: Seq<char>) -> Seq<char> {
    Seq::new(s.len(), |i: int| ascii_lower_char(s[i]))
}

/// `c` with an ASCII small letter made capital.
pub open spec fn ascii_upper_char(c: char) -> char {
    if 97 <= (c as nat) <= 122 {
        ((c as nat) - 32) as char
    } else {
        c
    }
}

/// `s` with each ASCII small letter made capital, as `str::to_ascii_uppercase` gives it.
pub open spec fn ascii_uppercase(s: Seq<char>) -> Seq<char> {
    Seq::new(s.len(), |i: int| ascii_upper_char(s[i]))
}

/// Changing the case of ASCII letters stays within ASCII, and lowercasing
/// afterwards gives the same text whatever the case was: lowercasing forgets
/// the case, and lowercasing twice is lowercasing once.
pub proof fn lemma_ascii_case_folding(s: Seq<char>)
    requires
        is_ascii_text(s),
    ensures
        is_ascii_text(ascii_uppercase(s)),
        is_ascii_text(ascii_lowercase(s)),
        ascii_lowercase(ascii_uppercase(s)) == ascii_lowercase(s),
        ascii_lowercase(ascii_lowercase(s)) == ascii_lowercase(s),
{
    let u = ascii_uppercase(s);
    let l = ascii_lowercase(s);
    assert forall|i: int| 0 <= i < u.len() implies (#[trigger] u[i] as nat) < 128 by {
        assert((s[i] as nat) < 128);
    }
    assert forall|i: int| 0 <= i < l.len() implies (#[trigger] l[i] as nat) < 128 by {
        assert((s[i] as nat) < 128);
    }
    assert(ascii_lowercase(u) =~= l);
    assert(ascii_lowercase(l) =~= l);
}

/// Calls `str::to_lowercase`. The contract claims that the result is the one
/// determined by the input (the name `lowercase`), and, for ASCII text, the
/// part of the Unicode mapping that std documents with `to_ascii_lowercase`:
/// capitals `A`-`Z` become `a`-`z`, every other character stays. The Unicode
/// case tables beyond ASCII are not restated.
#[verifier::external_body]
pub(crate) fn to_lowercase(s: &str) -> (r: String)
    ensures
        r@ == lowercase(s@),
        is_ascii_text(s@) ==> r@ == ascii_lowercase(s@),
{
    s.to_lowercase()
}

/// Calls `String::from_iter` on the characters of `v`: the resulting string
/// holds exactly those characters, in order.
#[verifier::external_body]
pub(crate) fn string_from_chars(v: &Vec<char>) -> (s: String)
    ensures
        s@ == v@,
{
    String::from_iter(v.iter())
}

/// The characters of `s`, in order.
pub fn chars_of(s: &str) -> (v: Vec<char>)
    ensures
        v@ == s@,
{
    let mut v: Vec<char> = Vec::new();
    for c in it: s.chars()
        invariant
            v@ == it.seq().take(it.index() as int),
            it.seq() == s@,
    {
        v.push(c);
    }
    v
}

/// `true` exactly when `v` holds the characters of `lit`, in order.
pub fn eq_str(v: &Vec<char>, lit: &str) -> (b: bool)
    ensures
        b == (v@ == lit@),
{
    let w = chars_of(lit);
    if v.len() != w.len() {
        return false;
    }
    let n = v.len();
    let mut i: usize = 0;
    while i < n
        invariant
            n == v@.len(),
            n == w@.len(),
            w@ == lit@,
            0 <= i <= n,
            forall|k: int| 0 <= k < i ==> v@[k] == w@[k],
        decreases n - i,
    {
        if v[i] != w[i] {
            return false;
        }
        i = i + 1;
    }
    assert(v@ =~= w@);
    true
}

/// Unicode `White_Space`, the property behind `char::is_whitespace`.
pub open spec fn is_ws(c: char) -> bool {
    let u = c as u32;
    ||| 0x09 <= u <= 0x0D
    ||| u == 0x20
    ||| u == 0x85
    ||| u == 0xA0
    ||| u == 0x1680
    ||| 0x2000 <= u <= 0x200A
    ||| u == 0x2028
    ||| u == 0x2029
    ||| u == 0x202F
    ||| u == 0x205F
    ||| u == 0x3000
}

/// Whether `c` is whitespace in the sense of `char::is_whitespace`.
pub fn is_whitespace(c: char) -> (b: bool)
    ensures
        b == is_ws(c),
{
    let u = c as u32;
    (0x09 <= u && u <= 0x0D) || u == 0x20 || u == 0x85 || u == 0xA0 || u == 0x1680 || (0x2000
        <= u && u <= 0x200A) || u == 0x2028 || u == 0x2029 || u == 0x202F || u == 0x205F || u
        == 0x3000
}

/// `s` without its leading whitespace.
pub open spec fn trim_start(s: Seq<char>) -> Seq<char>
    decreases s.len(),
{
    if s.len() > 0 && is_ws(s[0]) {
        trim_start(s.drop_first())
    } else {
        s
    }
}

/// `s` without its trailing whitespace.
pub open spec fn trim_end(s: Seq<char>) -> Seq<char>
    decreases s.len(),
{
    if s.len() > 0 && is_ws(s.last()) {
        trim_end(s.drop_last())
    } else {
        s
    }
}

/// `s` without leading and trailing whitespace, as `str::trim` gives it.
pub open spec fn trim(s: Seq<char>) -> Seq<char> {
    trim_end(trim_start(s))
}

/// Removes leading and trailing whitespace from a character sequence.
pub fn trim_chars(v: &Vec<char>) -> (r: Vec<char>)
    ensures
        r@ == trim(v@),
{
    let n = v.len();
    let mut i: usize = 0;
    assert(v@.subrange(0, n as int) =~= v@);
    while i < n && is_whitespace(v[i])
        invariant
            n == v@.len(),
            0 <= i <= n,
            trim_start(v@) == trim_start(v@.subrange(i as int, n as int)),
        decreases n - i,
    {
        assert(v@.subrange(i as int, n as int).drop_first() =~= v@.subrange(i + 1, n as int));
        i = i + 1;
    }
    assert(trim_start(v@.subrange(i as int, n as int)) == v@.subrange(i as int, n as int));
    let mut j: usize = n;
    while j > i && is_whitespace(v[j - 1])
        invariant
            n == v@.len(),
            0 <= i <= j <= n,
            trim(v@) == trim_end(v@.subrange(i as int, j as int)),
        decreases j,
    {
        assert(v@.subrange(i as int, j as int).drop_last() =~= v@.subrange(i as int, j - 1));
        j = j - 1;
    }
    let mut r: Vec<char> = Vec::new();
    let mut k: usize = i;
    while k < j
        invariant
            n == v@.len(),
            0 <= i <= k <= j <= n,
            r@ == v@.subrange(i as int, k as int),
        decreases j - k,
    {
        r.push(v[k]);
        assert(r@ =~= v@.subrange(i as int, k + 1));
        k = k + 1;
    }
    r
}

/// The text of `s` without leading and trailing whitespace.
pub fn trim_str(s: &str) -> (r: String)
    ensures
        r@ == trim(s@),
{
    let v = chars_of(s);
    let t = trim_chars(&v);
    string_from_chars(&t)
}

/// `needle` occurs in `hay` as a contiguous piece (the empty needle always does).
pub open spec fn contains_seq(hay: Seq<char>, needle: Seq<char>) -> bool {
    exists|i: int|
        0 <= i && i + needle.len() <= hay.len() && #[trigger] hay.subrange(i, i + needle.len())
            == needle
}

/// Whether the characters of `lit` occur contiguously in `hay`, as `str::contains` decides it.
pub fn contains_lit(hay: &Vec<char>, lit: &str) -> (b: bool)
    ensures
        b == contains_seq(hay@, lit@),
{
    let w = chars_of(lit);
    let m = w.len();
    let n = hay.len();
    if m > n {
        assert(!contains_seq(hay@, lit@));
        return false;
    }
    let mut i: usize = 0;
    while i <= n - m
        invariant
            n == hay@.len(),
            m == w@.len(),
            w@ == lit@,
            m <= n,
            0 <= i <= n - m + 1,
            forall|p: int| 0 <= p < i ==> #[trigger] hay@.subrange(p, p + m) != w@,
        decreases n - m + 1 - i,
    {
        let mut k: usize = 0;
        let mut same = true;
        while k < m
            invariant
                n == hay@.len(),
                m == w@.len(),
                m <= n,
                i <= n - m,
                0 <= k <= m,
                same == (forall|q: int| 0 <= q < k ==> hay@[i + q] == w@[q]),
            decreases m - k,
        {
            if hay[i + k] != w[k] {
                same = false;
            }
            k = k + 1;
        }
        if same {
            assert(hay@.subrange(i as int, i + m) =~= w@);
            return true;
        }
        assert(hay@.subrange(i as int, i + m) != w@) by {
            let q = choose|q: int| 0 <= q < m && hay@[i + q] != w@[q];
            assert(hay@.subrange(i as int, i + m)[q] == hay@[i + q]);
        }
        i = i + 1;
    }
    assert forall|p: int| 0 <= p && p + m <= n implies #[trigger] hay@.subrange(p, p + m) != lit@ by {
        assert(p < i);
    }
    false
}


/// The pieces of `s` between occurrences of `sep`, as `str::split` yields them:
/// there is always at least one piece, and `n` separators give `n + 1` pieces.
pub open spec fn split_on(s: Seq<char>, sep: char) -> Seq<Seq<char>>
    decreases s.len(),
{
    if s.len() == 0 {
        seq![Seq::<char>::empty()]
    } else {
        let rest = split_on(s.drop_last(), sep);
        if s.last() == sep {
            rest.push(Seq::<char>::empty())
        } else {
            rest.update(rest.len() - 1, rest.last().push(s.last()))
        }
    }
}

/// Splitting always yields at least one piece.
pub proof fn lemma_split_on_nonempty(s: Seq<char>, sep: char)
    ensures
        split_on(s, sep).len() >= 1,
    decreases s.len(),
{
    if s.len() > 0 {
        lemma_split_on_nonempty(s.drop_last(), sep);
    }
}

/// The character sequences held by a vector of character vectors.
pub open spec fn seqs_view(v: Seq<Vec<char>>) -> Seq<Seq<char>> {
    Seq::new(v.len(), |i: int| v[i]@)
}

/// The texts held by a vector of strings.
pub open spec fn string_seqs_view(v: Seq<String>) -> Seq<Seq<char>> {
    Seq::new(v.len(), |i: int| v[i]@)
}

/// Splits a character sequence at every occurrence of `sep`.
pub fn split_chars(v: &Vec<char>, sep: char) -> (r: Vec<Vec<char>>)
    ensures
        seqs_view(r@) == split_on(v@, sep),
{
    let n = v.len();
    let mut pieces: Vec<Vec<char>> = Vec::new();
    let mut cur: Vec<char> = Vec::new();
    let mut i: usize = 0;
    assert(v@.take(0) =~= Seq::<char>::empty());
    assert(seqs_view(pieces@).push(cur@) =~= split_on(v@.take(0), sep));
    while i < n
        invariant
            n == v@.len(),
            0 <= i <= n,
            seqs_view(pieces@).push(cur@) == split_on(v@.take(i as int), sep),
        decreases n - i,
    {
        let c = v[i];
        let ghost prev = v@.take(i as int);
        assert(v@.take(i + 1).drop_last() =~= prev);
        assert(v@.take(i + 1).last() == c);
        proof {
            lemma_split_on_nonempty(prev, sep);
        }
        let ghost old_dv = seqs_view(pieces@);
        let ghost old_cur = cur@;
        if c == sep {
            let done = cur;
            pieces.push(done);
            cur = Vec::new();
            assert(seqs_view(pieces@) =~= old_dv.push(old_cur));
            assert(seqs_view(pieces@).push(cur@) =~= split_on(v@.take(i + 1), sep));
        } else {
            cur.push(c);
            assert(seqs_view(pieces@).push(cur@) =~= split_on(v@.take(i + 1), sep));
        }
        i = i + 1;
    }
    assert(v@.take(n as int) =~= v@);
    let ghost old_dv = seqs_view(pieces@);
    let ghost old_cur = cur@;
    pieces.push(cur);
    assert(seqs_view(pieces@) =~= old_dv.push(old_cur));
    pieces
}

/// Number of maximal runs of non-whitespace characters in `s`: the number of
/// items that `str::split_whitespace` yields.
pub open spec fn word_count_of(s: Seq<char>) -> nat
    decreases s.len(),
{
    if s.len() == 0 {
        0
    } else {
        word_count_of(s.drop_last()) + if !is_ws(s.last()) && (s.len() == 1 || is_ws(
            s[s.len() - 2],
        )) {
            1nat
        } else {
            0nat
        }
    }
}

/// A word never takes less than one character.
pub proof fn lemma_word_count_bound(s: Seq<char>)
    ensures
        word_count_of(s) <= s.len(),
    decreases s.len(),
{
    if s.len() > 0 {
        lemma_word_count_bound(s.drop_last());
    }
}

/// Counts the whitespace-separated words of `s`.
pub fn word_count(s: &str) -> (n: usize)
    ensures
        n == word_count_of(s@),
{
    let v = chars_of(s);
    let len = v.len();
    let mut count: usize = 0;
    let mut i: usize = 0;
    assert(v@.take(0) =~= Seq::<char>::empty());
    while i < len
        invariant
            len == v@.len(),
            0 <= i <= len,
            count == word_count_of(v@.take(i as int)),
        decreases len - i,
    {
        let ghost t = v@.take(i + 1);
        assert(t.drop_last() =~= v@.take(i as int));
        assert(t.last() == v@[i as int]);
        proof {
            lemma_word_count_bound(v@.take(i as int));
        }
        if !is_whitespace(v[i]) && (i == 0 || is_whitespace(v[i - 1])) {
            assert(i > 0 ==> t[t.len() - 2] == v@[i - 1]);
            count = count + 1;
        } else {
            assert(i > 0 ==> t[t.len() - 2] == v@[i - 1]);
        }
        i = i + 1;
    }
    assert(v@.take(len as int) =~= v@);
    count
}

/// Trimming removes exactly the whitespace at both ends: what is left is a
/// stretch of the text that neither starts nor ends with whitespace (or is
/// empty), and everything cut off before and after it is whitespace.
pub proof fn lemma_trim_cuts_whitespace(s: Seq<char>)
    ensures
        trim_start(s).len() <= s.len(),
        trim_end(s).len() <= s.len(),
        trim_start(s) == s.subrange(s.len() - trim_start(s).len(), s.len() as int),
        forall|i: int| 0 <= i < s.len() - trim_start(s).len() ==> is_ws(#[trigger] s[i]),
        trim_start(s).len() > 0 ==> !is_ws(trim_start(s)[0]),
        trim_end(s) == s.subrange(0, trim_end(s).len() as int),
        forall|i: int| trim_end(s).len() <= i < s.len() ==> is_ws(#[trigger] s[i]),
        trim_end(s).len() > 0 ==> !is_ws(trim_end(s).last()),
        trim(s).len() > 0 ==> !is_ws(trim(s)[0]) && !is_ws(trim(s).last()),
    decreases s.len(),
{
    if s.len() > 0 {
        lemma_trim_cuts_whitespace(s.drop_first());
        lemma_trim_cuts_whitespace(s.drop_last());
        assert forall|i: int| 0 <= i < s.len() - trim_start(s).len() implies is_ws(#[trigger] s[i]) by {
            if is_ws(s[0]) && i > 0 {
                assert(s[i] == s.drop_first()[i - 1]);
            }
        }
        if is_ws(s[0]) {
            assert(trim_start(s) == trim_start(s.drop_first()));
            assert(s.drop_first().subrange(
                s.drop_first().len() - trim_start(s).len(),
                s.drop_first().len() as int,
            ) =~= s.subrange(s.len() - trim_start(s).len(), s.len() as int));
        } else {
            assert(s.subrange(0, s.len() as int) =~= s);
        }
        assert forall|i: int| trim_end(s).len() <= i < s.len() implies is_ws(#[trigger] s[i]) by {
            if is_ws(s.last()) && i < s.len() - 1 {
                assert(s[i] == s.drop_last()[i]);
            }
        }
        if is_ws(s.last()) {
            assert(trim_end(s) == trim_end(s.drop_last()));
            assert(s.drop_last().subrange(0, trim_end(s).len() as int) =~= s.subrange(
                0,
                trim_end(s).len() as int,
            ));
        } else {
            assert(s.subrange(0, s.len() as int) =~= s);
        }
    }
    lemma_trim_end_keeps_start(trim_start(s));
}

proof fn lemma_trim_end_keeps_start(t: Seq<char>)
    requires
        t.len() > 0 ==> !is_ws(t[0]),
    ensures
        trim_end(t).len() > 0 ==> !is_ws(trim_end(t)[0]) && !is_ws(trim_end(t).last()),
    decreases t.len(),
{
    if t.len() > 0 && is_ws(t.last()) {
        if t.len() > 1 {
            assert(t.drop_last()[0] == t[0]);
        }
        lemma_trim_end_keeps_start(t.drop_last());
    }
}

/// The pieces joined back together with `sep` between each two.
pub open spec fn join_with(parts: Seq<Seq<char>>, sep: char) -> Seq<char>
    decreases parts.len(),
{
    if parts.len() <= 1 {
        if parts.len() == 1 {
            parts[0]
        } else {
            Seq::<char>::empty()
        }
    } else {
        join_with(parts.drop_last(), sep).push(sep) + parts.last()
    }
}

/// Splitting loses nothing and cuts at every separator: no piece holds the
/// separator, and joining the pieces with it gives back the text.
pub proof fn lemma_split_on_rejoins(s: Seq<char>, sep: char)
    ensures
        split_on(s, sep).len() >= 1,
        join_with(split_on(s, sep), sep) == s,
        forall|i: int, j: int|
            0 <= i < split_on(s, sep).len() && 0 <= j < split_on(s, sep)[i].len() ==> #[trigger] split_on(
                s,
                sep,
            )[i][j] != sep,
    decreases s.len(),
{
    if s.len() > 0 {
        let t = s.drop_last();
        let c = s.last();
        lemma_split_on_rejoins(t, sep);
        let rest = split_on(t, sep);
        let parts = split_on(s, sep);
        if c == sep {
            assert(parts =~= rest.push(Seq::<char>::empty()));
            assert(parts.drop_last() =~= rest);
            assert(join_with(parts, sep) =~= t.push(sep));
            assert(t.push(sep) =~= s);
            assert forall|i: int, j: int|
                0 <= i < parts.len() && 0 <= j < parts[i].len() implies #[trigger] parts[i][j] != sep by {
                if i < rest.len() {
                    assert(parts[i] == rest[i]);
                }
            }
        } else {
            let last = rest.last().push(c);
            assert(parts =~= rest.update(rest.len() - 1, last));
            if rest.len() == 1 {
                assert(join_with(parts, sep) == parts[0]);
                assert(rest[0] == join_with(rest, sep));
                assert(join_with(parts, sep) =~= s);
            } else {
                assert(parts.drop_last() =~= rest.drop_last());
                assert(join_with(parts, sep) == join_with(rest.drop_last(), sep).push(sep) + last);
                assert(join_with(rest, sep) == join_with(rest.drop_last(), sep).push(sep) + rest.last());
                assert(join_with(parts, sep) =~= join_with(rest, sep).push(c));
                assert(t.push(c) =~= s);
            }
            assert forall|i: int, j: int|
                0 <= i < parts.len() && 0 <= j < parts[i].len() implies #[trigger] parts[i][j] != sep by {
                if i < rest.len() - 1 {
                    assert(parts[i] == rest[i]);
                } else {
                    assert(parts[i] == last);
                    if j < rest.last().len() {
                        assert(last[j] == rest[rest.len() - 1][j]);
                    }
                }
            }
        }
    }
}

/// A text has no words exactly when it is all whitespace.
pub proof fn lemma_no_words_iff_blank(s: Seq<char>)
    ensures
        (word_count_of(s) == 0) <==> (forall|i: int| 0 <= i < s.len() ==> is_ws(#[trigger] s[i])),
    decreases s.len(),
{
    if s.len() > 0 {
        let t = s.drop_last();
        lemma_no_words_iff_blank(t);
        if word_count_of(s) == 0 {
            assert forall|i: int| 0 <= i < s.len() implies is_ws(#[trigger] s[i]) by {
                if i < t.len() {
                    assert(s[i] == t[i]);
                } else {
                    if !is_ws(s.last()) {
                        if s.len() > 1 {
                            assert(t[t.len() - 1] == s[s.len() - 2]);
                        }
                    }
                }
            }
        } else {
            if forall|i: int| 0 <= i < s.len() ==> is_ws(#[trigger] s[i]) {
                assert forall|i: int| 0 <= i < t.len() implies is_ws(#[trigger] t[i]) by {
                    assert(t[i] == s[i]);
                }
                assert(is_ws(s[s.len() - 1]));
            }
        }
    }
}

/// A text without the separator is a single piece.
pub proof fn lemma_split_without_separator(a: Seq<char>, sep: char)
    requires
        forall|i: int| 0 <= i < a.len() ==> a[i] != sep,
    ensures
        split_on(a, sep) == seq![a],
    decreases a.len(),
{
    if a.len() > 0 {
        let t = a.drop_last();
        assert forall|i: int| 0 <= i < t.len() implies t[i] != sep by {
            assert(t[i] == a[i]);
        }
        lemma_split_without_separator(t, sep);
        assert(t.push(a.last()) =~= a);
        assert(split_on(a, sep) =~= seq![a]);
    } else {
        assert(a =~= Seq::<char>::empty());
    }
}

/// A separator followed by a text without separators adds that text as the
/// last piece.
pub proof fn lemma_split_appends_piece(x: Seq<char>, b: Seq<char>, sep: char)
    requires
        forall|i: int| 0 <= i < b.len() ==> b[i] != sep,
    ensures
        split_on(x + seq![sep] + b, sep) == split_on(x, sep).push(b),
    decreases b.len(),
{
    if b.len() == 0 {
        assert(x + seq![sep] + b =~= x.push(sep));
        assert((x + seq![sep] + b).drop_last() =~= x);
        assert(b =~= Seq::<char>::empty());
    } else {
        let t = b.drop_last();
        assert forall|i: int| 0 <= i < t.len() implies t[i] != sep by {
            assert(t[i] == b[i]);
        }
        lemma_split_appends_piece(x, t, sep);
        let s = x + seq![sep] + b;
        assert(s.drop_last() =~= x + seq![sep] + t);
        assert(s.last() == b.last());
        assert(t.push(b.last()) =~= b);
        assert(split_on(s, sep) =~= split_on(x, sep).push(b));
    }
}

} // verus!
