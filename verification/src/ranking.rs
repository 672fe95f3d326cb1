//! The ranking model: fuzzy match over title, subtitle and keywords, plus
//! provider score hints, title bonuses and a small bias per result kind.

use vstd::prelude::*;

use crate::fuzzy::{fuzzy_score, fuzzy_score_spec};
use crate::plugin_api::{results_view, ResultKind, SearchResult, SearchResultView};
use crate::text::{
    append_str, ascii_lower, ascii_lower_char, char_is_whitespace, char_to_ascii_lowercase,
    chars_of, chars_starts_with, is_ws, lower_chars, seq_starts_with, trim, trim_chars, trim_seq,
};

verus! {

pub const EXACT_TITLE_MATCH_BONUS: i64 = 300;
pub const TITLE_ACRONYM_MATCH_BONUS: i64 = 240;
pub const PREFIX_TITLE_MATCH_BONUS: i64 = 120;
pub const APP_RESULT_BIAS: i64 = 30;
pub const CALCULATOR_RESULT_BIAS: i64 = 25;
pub const SHELL_RESULT_BIAS: i64 = 20;
pub const CLIPBOARD_RESULT_BIAS: i64 = 10;
pub const MIN_QUERY_CHARS_FOR_FUZZY_SCORE_FLOOR: usize = 3;
pub const MIN_FUZZY_SCORE_FOR_PLAIN_RESULT: i64 = 70;

/// A result after applying the ranking model.
#[derive(Debug, PartialEq, Eq)]
pub struct RankedResult {
    pub result: SearchResult,
    pub score: i64,
}

pub struct RankedView {
    pub result: SearchResultView,
    pub score: i64,
}

impl View for RankedResult {
    type V = RankedView;

    open spec fn view(&self) -> RankedView {
        RankedView { result: self.result@, score: self.score }
    }
}

impl Clone for RankedResult {
    fn clone(&self) -> (r: Self)
        ensures
            r@ == self@,
    {
        RankedResult { result: self.result.clone(), score: self.score }
    }
}

pub open spec fn ranked_view(v: Seq<RankedResult>) -> Seq<RankedView> {
    v.map_values(|r: RankedResult| r@)
}

pub open spec fn kind_bias_spec(kind: ResultKind) -> i64 {
    match kind {
        ResultKind::App => APP_RESULT_BIAS,
        ResultKind::Calculator => CALCULATOR_RESULT_BIAS,
        ResultKind::Shell => SHELL_RESULT_BIAS,
        ResultKind::Clipboard => CLIPBOARD_RESULT_BIAS,
        ResultKind::Plugin => 0,
        ResultKind::System => 0,
    }
}

pub fn kind_bias(kind: ResultKind) -> (b: i64)
    ensures
        b == kind_bias_spec(kind),
{
    match kind {
        ResultKind::App => APP_RESULT_BIAS,
        ResultKind::Calculator => CALCULATOR_RESULT_BIAS,
        ResultKind::Shell => SHELL_RESULT_BIAS,
        ResultKind::Clipboard => CLIPBOARD_RESULT_BIAS,
        ResultKind::Plugin | ResultKind::System => 0,
    }
}

pub open spec fn is_ascii_alnum(c: char) -> bool {
    ('a' <= c && c <= 'z') || ('A' <= c && c <= 'Z') || ('0' <= c && c <= '9')
}

/// First letters, lower-cased, of the words of `title` (runs of ASCII
/// letters and digits).
pub open spec fn acronym(t: Seq<char>) -> Seq<char>
    decreases t.len(),
{
    if t.len() == 0 {
        t
    } else {
        let r = acronym(t.drop_last());
        if is_ascii_alnum(t.last()) && (t.len() == 1 || !is_ascii_alnum(t[t.len() - 2])) {
            r.push(ascii_lower_char(t.last()))
        } else {
            r
        }
    }
}

pub open spec fn has_ws(s: Seq<char>) -> bool {
    exists|i: int| 0 <= i < s.len() && is_ws(s[i])
}

pub open spec fn acronym_bonus_spec(query: Seq<char>, title: Seq<char>) -> i64 {
    let q = ascii_lower(trim_seq(query));
    if q.len() == 0 || has_ws(q) {
        0
    } else if seq_starts_with(acronym(title), q) {
        TITLE_ACRONYM_MATCH_BONUS
    } else {
        0
    }
}

fn is_ascii_alnum_exec(c: char) -> (b: bool)
    ensures
        b == is_ascii_alnum(c),
{
    ('a' <= c && c <= 'z') || ('A' <= c && c <= 'Z') || ('0' <= c && c <= '9')
}

fn acronym_exec(t: &Vec<char>) -> (r: Vec<char>)
    ensures
        r@ == acronym(t@),
{
    let mut r: Vec<char> = Vec::new();
    let mut i: usize = 0;
    while i < t.len()
        invariant
            i <= t@.len(),
            r@ == acronym(t@.take(i as int)),
        decreases t@.len() - i,
    {
        let c = t[i];
        let starts_word = is_ascii_alnum_exec(c) && (i == 0 || !is_ascii_alnum_exec(t[i - 1]));
        proof {
            let p = t@.take(i + 1);
            assert(p.drop_last() =~= t@.take(i as int));
            assert(p.last() == c);
            if i > 0 {
                assert(p[p.len() - 2] == t@[i - 1]);
            }
        }
        if starts_word {
            r.push(char_to_ascii_lowercase(c));
        }
        i += 1;
    }
    proof {
        assert(t@.take(t@.len() as int) =~= t@);
    }
    r
}

pub fn title_acronym_bonus(query: &str, title: &str) -> (b: i64)
    ensures
        b == acronym_bonus_spec(query@, title@),
{
    let qv = chars_of(query);
    let qt = trim_chars(&qv);
    let q = lower_chars(&qt);
    if q.len() == 0 {
        return 0;
    }
    let mut i: usize = 0;
    while i < q.len()
        invariant
            i <= q@.len(),
            q@ == ascii_lower(trim_seq(query@)),
            q@.len() > 0,
            forall|j: int| 0 <= j < i ==> !is_ws(q@[j]),
        decreases q@.len() - i,
    {
        if char_is_whitespace(q[i]) {
            proof {
                assert(has_ws(q@)) by {
                    assert(is_ws(q@[i as int]));
                }
            }
            return 0;
        }
        i += 1;
    }
    let tv = chars_of(title);
    let a = acronym_exec(&tv);
    if chars_starts_with(&a, &q) {
        TITLE_ACRONYM_MATCH_BONUS
    } else {
        0
    }
}

/// Plain provider results need a fuzzy match, and for queries of three or
/// more characters a score of at least 70.
pub open spec fn strong_enough_spec(query: Seq<char>, fuzzy: Option<i64>) -> bool {
    match fuzzy {
        None => false,
        Some(score) => query.len() < MIN_QUERY_CHARS_FOR_FUZZY_SCORE_FLOOR || score >= MIN_FUZZY_SCORE_FOR_PLAIN_RESULT,
    }
}

pub fn plain_fuzzy_match_is_strong_enough(query: &str, fuzzy: Option<i64>) -> (b: bool)
    ensures
        b == strong_enough_spec(query@, fuzzy),
{
    match fuzzy {
        None => false,
        Some(score) => {
            let n = chars_of(query).len();
            n < MIN_QUERY_CHARS_FOR_FUZZY_SCORE_FLOOR || score >= MIN_FUZZY_SCORE_FOR_PLAIN_RESULT
        },
    }
}

/// `parts.join(" ")`.
pub open spec fn join_spaces(parts: Seq<Seq<char>>) -> Seq<char>
    decreases parts.len(),
{
    if parts.len() == 0 {
        Seq::empty()
    } else if parts.len() == 1 {
        parts[0]
    } else {
        join_spaces(parts.drop_last()) + seq![' '] + parts.last()
    }
}

/// Title, subtitle and keywords: the text a query is matched against.
pub open spec fn haystack_parts(r: SearchResultView) -> Seq<Seq<char>> {
    let head = match r.subtitle {
        Some(s) => seq![r.title, s],
        None => seq![r.title],
    };
    head + r.keywords
}

pub fn result_haystack(result: &SearchResult) -> (h: String)
    ensures
        h@ == join_spaces(haystack_parts(result@)),
{
    let ghost parts = haystack_parts(result@);
    let mut h = result.title.clone();
    let mut n: usize = 1;
    proof {
        assert(parts.take(1) =~= seq![result.title@]);
        assert(join_spaces(parts.take(1)) == result.title@);
    }
    match &result.subtitle {
        Some(s) => {
            append_str(&mut h, " ");
            append_str(&mut h, s.as_str());
            n = 2;
            proof {
                reveal_strlit(" ");
                assert(parts.take(2).drop_last() =~= parts.take(1));
                assert(h@ =~= join_spaces(parts.take(1)) + seq![' '] + s@);
            }
        },
        None => {},
    }
    let mut i: usize = 0;
    while i < result.keywords.len()
        invariant
            i <= result.keywords@.len(),
            parts == haystack_parts(result@),
            n >= 1,
            n + result.keywords@.len() == parts.len(),
            forall|j: int| 0 <= j < result.keywords@.len() ==> parts[n + j] == result.keywords@[j]@,
            h@ == join_spaces(parts.take(n + i)),
        decreases result.keywords@.len() - i,
    {
        append_str(&mut h, " ");
        append_str(&mut h, result.keywords[i].as_str());
        proof {
            reveal_strlit(" ");
            assert(parts.take(n + i + 1).drop_last() =~= parts.take(n + i));
            assert(parts.take(n + i + 1).last() == result.keywords@[i as int]@);
        }
        i += 1;
    }
    proof {
        assert(parts.take(parts.len() as int) =~= parts);
    }
    h
}

/// Bonus for titles that equal the query (300) or start with it (120),
/// ignoring ASCII case.
pub open spec fn title_bonus_spec(query: Seq<char>, title: Seq<char>) -> i64 {
    let t = ascii_lower(title);
    let q = ascii_lower(query);
    if q.len() > 0 && t == q {
        EXACT_TITLE_MATCH_BONUS
    } else if q.len() > 0 && seq_starts_with(t, q) {
        PREFIX_TITLE_MATCH_BONUS
    } else {
        0
    }
}

/// The ranked form of one result, or `None` when it is filtered out. A
/// non-blank query drops a result without a boost (a score hint of zero or
/// less) that has no acronym match, when its fuzzy match is not strong
/// enough (a plain result, hint zero) or when it does not match at all (a
/// demoted result, negative hint, such as a noisy Start Menu entry: it stays
/// findable by a weak match, ranked lower).
pub open spec fn rank_result_spec(query: Seq<char>, r: SearchResultView) -> Option<RankedView> {
    let q = trim_seq(query);
    let fuzzy = fuzzy_score_spec(q, join_spaces(haystack_parts(r)));
    let acr = acronym_bonus_spec(q, r.title);
    if q.len() > 0 && r.score_hint <= 0 && acr == 0 && (if r.score_hint == 0 { !strong_enough_spec(q, fuzzy) } else { fuzzy is None }) {
        None
    } else {
        let f: i64 = match fuzzy {
            Some(x) => x,
            None => 0,
        };
        let score = f.wrapping_add(r.score_hint).wrapping_add(title_bonus_spec(q, r.title)).wrapping_add(acr).wrapping_add(kind_bias_spec(r.kind));
        Some(RankedView { result: r, score })
    }
}

fn seq_eq(a: &Vec<char>, b: &Vec<char>) -> (r: bool)
    ensures
        r == (a@ == b@),
{
    if a.len() != b.len() {
        return false;
    }
    let r = chars_starts_with(a, b);
    proof {
        if r {
            assert(a@.subrange(0, b@.len() as int) =~= a@);
        } else if a@ == b@ {
            assert(a@.subrange(0, b@.len() as int) =~= b@);
        }
    }
    r
}

pub fn rank_result(query: &str, result: SearchResult) -> (r: Option<RankedResult>)
    ensures
        match (r, rank_result_spec(query@, result@)) {
            (Some(x), Some(v)) => x@ == v,
            (None, None) => true,
            _ => false,
        },
{
    let trimmed = trim(query);
    let haystack = result_haystack(&result);
    let fuzzy = fuzzy_score(trimmed.as_str(), haystack.as_str());
    let acr = title_acronym_bonus(trimmed.as_str(), result.title.as_str());
    let unmatched = if result.score_hint == 0 {
        !plain_fuzzy_match_is_strong_enough(trimmed.as_str(), fuzzy)
    } else {
        fuzzy.is_none()
    };
    if !trimmed.as_str().is_empty() && result.score_hint <= 0 && acr == 0 && unmatched {
        return None;
    }
    let title = lower_chars(&chars_of(result.title.as_str()));
    let q = lower_chars(&chars_of(trimmed.as_str()));
    let exact = if q.len() > 0 && seq_eq(&title, &q) {
        EXACT_TITLE_MATCH_BONUS
    } else if q.len() > 0 && chars_starts_with(&title, &q) {
        PREFIX_TITLE_MATCH_BONUS
    } else {
        0
    };
    let f = match fuzzy {
        Some(x) => x,
        None => 0,
    };
    let score = f.wrapping_add(result.score_hint).wrapping_add(exact).wrapping_add(acr).wrapping_add(kind_bias(result.kind));
    Some(RankedResult { result, score })
}


/// Code-point order on strings, the order `String` compares by.
pub open spec fn lex_lt(a: Seq<char>, b: Seq<char>) -> bool
    decreases a.len(),
{
    if a.len() == 0 {
        b.len() > 0
    } else if b.len() == 0 {
        false
    } else if a[0] != b[0] {
        (a[0] as u32) < (b[0] as u32)
    } else {
        lex_lt(a.drop_first(), b.drop_first())
    }
}

/// `a` is listed before `b`: higher score first, then title, then ID.
pub open spec fn ranks_before(a: RankedView, b: RankedView) -> bool {
    ||| a.score > b.score
    ||| a.score == b.score && lex_lt(a.result.title, b.result.title)
    ||| a.score == b.score && a.result.title == b.result.title && lex_lt(a.result.id, b.result.id)
}

/// Insert `x` after every entry it does not rank before.
pub open spec fn insert_ranked(s: Seq<RankedView>, x: RankedView) -> Seq<RankedView>
    decreases s.len(),
{
    if s.len() == 0 {
        seq![x]
    } else if ranks_before(x, s[0]) {
        seq![x] + s
    } else {
        seq![s[0]] + insert_ranked(s.drop_first(), x)
    }
}

/// Stable sort by `ranks_before`.
pub open spec fn sort_ranked(s: Seq<RankedView>) -> Seq<RankedView>
    decreases s.len(),
{
    if s.len() == 0 {
        s
    } else {
        insert_ranked(sort_ranked(s.drop_last()), s.last())
    }
}

/// The results that survive filtering, ranked, in input order.
pub open spec fn filter_ranked(query: Seq<char>, rs: Seq<SearchResultView>) -> Seq<RankedView>
    decreases rs.len(),
{
    if rs.len() == 0 {
        Seq::empty()
    } else {
        let p = filter_ranked(query, rs.drop_last());
        match rank_result_spec(query, rs.last()) {
            Some(v) => p.push(v),
            None => p,
        }
    }
}

pub open spec fn rank_results_spec(query: Seq<char>, rs: Seq<SearchResultView>) -> Seq<RankedView> {
    sort_ranked(filter_ranked(query, rs))
}

pub(crate) fn lex_lt_exec(a: &Vec<char>, b: &Vec<char>) -> (r: bool)
    ensures
        r == lex_lt(a@, b@),
{
    let mut i: usize = 0;
    proof {
        assert(a@.skip(0) =~= a@);
        assert(b@.skip(0) =~= b@);
    }
    loop
        invariant
            i <= a@.len(),
            i <= b@.len(),
            lex_lt(a@, b@) == lex_lt(a@.skip(i as int), b@.skip(i as int)),
        decreases a@.len() - i,
    {
        if i == a.len() {
            return i < b.len();
        }
        if i == b.len() {
            return false;
        }
        if a[i] != b[i] {
            return (a[i] as u32) < (b[i] as u32);
        }
        proof {
            assert(a@.skip(i as int).drop_first() =~= a@.skip(i + 1));
            assert(b@.skip(i as int).drop_first() =~= b@.skip(i + 1));
        }
        i += 1;
    }
}

fn ranks_before_exec(a: &RankedResult, b: &RankedResult) -> (r: bool)
    ensures
        r == ranks_before(a@, b@),
{
    if a.score != b.score {
        return a.score > b.score;
    }
    let at = chars_of(a.result.title.as_str());
    let bt = chars_of(b.result.title.as_str());
    if lex_lt_exec(&at, &bt) {
        return true;
    }
    if !seq_eq(&at, &bt) {
        return false;
    }
    let ai = chars_of(a.result.id.as_str());
    let bi = chars_of(b.result.id.as_str());
    lex_lt_exec(&ai, &bi)
}

proof fn lemma_insert_at(s: Seq<RankedView>, x: RankedView, j: int)
    requires
        0 <= j <= s.len(),
        forall|k: int| 0 <= k < j ==> !ranks_before(x, #[trigger] s[k]),
        j < s.len() ==> ranks_before(x, s[j]),
    ensures
        insert_ranked(s, x) == s.take(j) + seq![x] + s.skip(j),
    decreases s.len(),
{
    if s.len() == 0 {
        assert(s.take(j) + seq![x] + s.skip(j) =~= seq![x]);
    } else if j == 0 {
        assert(s.take(0) + seq![x] + s.skip(0) =~= seq![x] + s);
    } else {
        let t = s.drop_first();
        assert forall|k: int| 0 <= k < j - 1 implies !ranks_before(x, #[trigger] t[k]) by {
            assert(t[k] == s[k + 1]);
        }
        lemma_insert_at(t, x, j - 1);
        assert(seq![s[0]] + (t.take(j - 1) + seq![x] + t.skip(j - 1)) =~= s.take(j) + seq![x] + s.skip(j));
    }
}

pub(crate) fn insert_ranked_exec(sorted: &mut Vec<RankedResult>, x: RankedResult)
    ensures
        ranked_view(final(sorted)@) == insert_ranked(ranked_view(old(sorted)@), x@),
{
    let mut j: usize = 0;
    while j < sorted.len() && !ranks_before_exec(&x, &sorted[j])
        invariant
            j <= sorted@.len(),
            forall|k: int| 0 <= k < j ==> !ranks_before(x@, #[trigger] ranked_view(sorted@)[k]),
        decreases sorted@.len() - j,
    {
        j += 1;
    }
    let ghost before = ranked_view(sorted@);
    proof {
        lemma_insert_at(before, x@, j as int);
    }
    let ghost xv = x@;
    sorted.insert(j, x);
    proof {
        assert(ranked_view(sorted@) =~= before.take(j as int) + seq![xv] + before.skip(j as int));
    }
}

/// Rank provider results: drop the weak ones, score the rest, and order them
/// by score, then title, then ID, keeping input order among full ties.
pub fn rank_results(query: &str, results: Vec<SearchResult>) -> (r: Vec<RankedResult>)
    ensures
        ranked_view(r@) == rank_results_spec(query@, results_view(results@)),
{
    let ghost rs = results_view(results@);
    let mut sorted: Vec<RankedResult> = Vec::new();
    let mut i: usize = 0;
    proof {
        assert(rs.take(0) =~= Seq::<SearchResultView>::empty());
    }
    while i < results.len()
        invariant
            i <= results@.len(),
            rs == results_view(results@),
            ranked_view(sorted@) == sort_ranked(filter_ranked(query@, rs.take(i as int))),
        decreases results@.len() - i,
    {
        let item = results[i].clone();
        let ranked = rank_result(query, item);
        proof {
            assert(rs.take(i + 1).drop_last() =~= rs.take(i as int));
            assert(rs.take(i + 1).last() == results@[i as int]@);
        }
        match ranked {
            Some(x) => {
                proof {
                    let p = filter_ranked(query@, rs.take(i as int));
                    assert(p.push(x@).drop_last() =~= p);
                }
                insert_ranked_exec(&mut sorted, x);
            },
            None => {},
        }
        i += 1;
    }
    proof {
        assert(rs.take(results@.len() as int) =~= rs);
    }
    sorted
}


/// No entry ranks before an entry listed earlier.
pub open spec fn is_ranked(s: Seq<RankedView>) -> bool {
    forall|i: int, j: int| 0 <= i < j < s.len() ==> !ranks_before(#[trigger] s[j], #[trigger] s[i])
}

pub(crate) proof fn lemma_lex_lt_transitive(a: Seq<char>, b: Seq<char>, c: Seq<char>)
    requires
        lex_lt(a, b),
        lex_lt(b, c),
    ensures
        lex_lt(a, c),
    decreases a.len(),
{
    if a.len() > 0 && b.len() > 0 && c.len() > 0 && a[0] == b[0] && b[0] == c[0] {
        lemma_lex_lt_transitive(a.drop_first(), b.drop_first(), c.drop_first());
    }
}

pub(crate) proof fn lemma_lex_lt_irreflexive(a: Seq<char>)
    ensures
        !lex_lt(a, a),
    decreases a.len(),
{
    if a.len() > 0 {
        lemma_lex_lt_irreflexive(a.drop_first());
    }
}

proof fn lemma_ranks_before_transitive(a: RankedView, b: RankedView, c: RankedView)
    requires
        ranks_before(a, b),
        ranks_before(b, c),
    ensures
        ranks_before(a, c),
{
    if a.score == b.score && b.score == c.score {
        if lex_lt(a.result.title, b.result.title) && lex_lt(b.result.title, c.result.title) {
            lemma_lex_lt_transitive(a.result.title, b.result.title, c.result.title);
        } else if a.result.title == b.result.title && b.result.title == c.result.title {
            lemma_lex_lt_transitive(a.result.id, b.result.id, c.result.id);
        }
    }
}

proof fn lemma_cons_multiset<A>(x: A, s: Seq<A>)
    ensures
        (seq![x] + s).to_multiset() =~= s.to_multiset().insert(x),
{
    broadcast use vstd::seq_lib::group_to_multiset_ensures;
    broadcast use vstd::multiset::group_multiset_axioms;
    vstd::seq_lib::lemma_multiset_commutative(seq![x], s);
    assert(seq![x] =~= Seq::<A>::empty().push(x));
    assert(Seq::<A>::empty().to_multiset().len() == 0);
    assert(Seq::<A>::empty().to_multiset() =~= vstd::multiset::Multiset::<A>::empty());
}

proof fn lemma_insert_keeps_ranked(s: Seq<RankedView>, x: RankedView)
    requires
        is_ranked(s),
    ensures
        is_ranked(insert_ranked(s, x)),
        insert_ranked(s, x).to_multiset() =~= s.to_multiset().insert(x),
    decreases s.len(),
{
    broadcast use vstd::seq_lib::group_to_multiset_ensures;
    if s.len() == 0 {
        assert(insert_ranked(s, x) =~= seq![x] + s);
        lemma_cons_multiset(x, s);
    } else if ranks_before(x, s[0]) {
        let r = seq![x] + s;
        assert forall|i: int, j: int| 0 <= i < j < r.len() implies !ranks_before(#[trigger] r[j], #[trigger] r[i]) by {
            if i == 0 {
                if ranks_before(r[j], x) {
                    if j > 1 {
                        assert(!ranks_before(s[j - 1], s[0]));
                    }
                    lemma_ranks_before_transitive(r[j], x, s[0]);
                    if j == 1 {
                        lemma_lex_lt_irreflexive(s[0].result.title);
                        lemma_lex_lt_irreflexive(s[0].result.id);
                    }
                }
            } else {
                assert(r[i] == s[i - 1] && r[j] == s[j - 1]);
            }
        }
        lemma_cons_multiset(x, s);
    } else {
        let t = s.drop_first();
        assert forall|i: int, j: int| 0 <= i < j < t.len() implies !ranks_before(#[trigger] t[j], #[trigger] t[i]) by {
            assert(t[i] == s[i + 1] && t[j] == s[j + 1]);
        }
        lemma_insert_keeps_ranked(t, x);
        let it = insert_ranked(t, x);
        let r = seq![s[0]] + it;
        assert forall|k: int| 0 <= k < it.len() implies !ranks_before(#[trigger] it[k], s[0]) by {
            assert(it.to_multiset().count(it[k]) > 0);
            if it[k] != x {
                assert(t.to_multiset().count(it[k]) > 0);
                assert(t.contains(it[k]));
                let m = choose|m: int| 0 <= m < t.len() && t[m] == it[k];
                assert(s[m + 1] == it[k]);
            }
        }
        assert forall|i: int, j: int| 0 <= i < j < r.len() implies !ranks_before(#[trigger] r[j], #[trigger] r[i]) by {
            if i == 0 {
                assert(r[j] == it[j - 1]);
            } else {
                assert(r[i] == it[i - 1] && r[j] == it[j - 1]);
            }
        }
        lemma_cons_multiset(s[0], it);
        lemma_cons_multiset(s[0], t);
        assert(s =~= seq![s[0]] + t);
        assert(insert_ranked(s, x) == r);
        assert(s.to_multiset().insert(x) =~= t.to_multiset().insert(x).insert(s[0]));
    }
}

proof fn lemma_sort_ranked(s: Seq<RankedView>)
    ensures
        is_ranked(sort_ranked(s)),
        sort_ranked(s).to_multiset() == s.to_multiset(),
    decreases s.len(),
{
    broadcast use vstd::seq_lib::group_to_multiset_ensures;
    if s.len() == 0 {
    } else {
        lemma_sort_ranked(s.drop_last());
        lemma_insert_keeps_ranked(sort_ranked(s.drop_last()), s.last());
        assert(s =~= s.drop_last().push(s.last()));
    }
}

/// Ranked results come out in ranking order: higher score first, then
/// title, then ID; and they are exactly the results that survive the filter,
/// none lost or repeated.
pub proof fn law_rank_results_ordered(query: Seq<char>, results: Seq<SearchResultView>)
    ensures
        is_ranked(rank_results_spec(query, results)),
        rank_results_spec(query, results).to_multiset() == filter_ranked(query, results).to_multiset(),
        rank_results_spec(query, results).len() <= results.len(),
{
    lemma_sort_ranked(filter_ranked(query, results));
    lemma_filter_len(query, results);
    broadcast use vstd::seq_lib::group_to_multiset_ensures;
    assert(rank_results_spec(query, results).len() == rank_results_spec(query, results).to_multiset().len());
    assert(filter_ranked(query, results).len() == filter_ranked(query, results).to_multiset().len());
}

proof fn lemma_filter_len(query: Seq<char>, results: Seq<SearchResultView>)
    ensures
        filter_ranked(query, results).len() <= results.len(),
    decreases results.len(),
{
    if results.len() > 0 {
        lemma_filter_len(query, results.drop_last());
    }
}

/// The results a ranked sequence holds, in its order.
pub open spec fn results_of(s: Seq<RankedView>) -> Seq<SearchResultView> {
    s.map_values(|v: RankedView| v.result)
}

proof fn lemma_insert_results(s: Seq<RankedView>, x: RankedView)
    ensures
        results_of(insert_ranked(s, x)).to_multiset() =~= results_of(s).to_multiset().insert(x.result),
    decreases s.len(),
{
    broadcast use vstd::seq_lib::group_to_multiset_ensures;
    if s.len() == 0 {
        assert(results_of(insert_ranked(s, x)) =~= seq![x.result] + results_of(s));
        lemma_cons_multiset(x.result, results_of(s));
    } else if ranks_before(x, s[0]) {
        assert(results_of(insert_ranked(s, x)) =~= seq![x.result] + results_of(s));
        lemma_cons_multiset(x.result, results_of(s));
    } else {
        let t = s.drop_first();
        lemma_insert_results(t, x);
        assert(results_of(insert_ranked(s, x)) =~= seq![s[0].result] + results_of(insert_ranked(t, x)));
        assert(results_of(s) =~= seq![s[0].result] + results_of(t));
        lemma_cons_multiset(s[0].result, results_of(insert_ranked(t, x)));
        lemma_cons_multiset(s[0].result, results_of(t));
        assert(results_of(t).to_multiset().insert(x.result).insert(s[0].result) =~= results_of(t).to_multiset().insert(s[0].result).insert(x.result));
    }
}

proof fn lemma_sort_results(s: Seq<RankedView>)
    ensures
        results_of(sort_ranked(s)).to_multiset() =~= results_of(s).to_multiset(),
    decreases s.len(),
{
    broadcast use vstd::seq_lib::group_to_multiset_ensures;
    if s.len() > 0 {
        lemma_sort_results(s.drop_last());
        lemma_insert_results(sort_ranked(s.drop_last()), s.last());
        assert(results_of(s) =~= results_of(s.drop_last()).push(s.last().result));
    }
}

/// Whether ranking keeps a result for a query.
pub open spec fn kept_by_filter(query: Seq<char>, r: SearchResultView) -> bool {
    rank_result_spec(query, r) is Some
}

proof fn lemma_filter_results(query: Seq<char>, rs: Seq<SearchResultView>)
    ensures
        forall|x: SearchResultView| #[trigger] results_of(filter_ranked(query, rs)).to_multiset().count(x) <= rs.to_multiset().count(x),
        forall|i: int| 0 <= i < rs.len() && kept_by_filter(query, rs[i]) ==> #[trigger] results_of(filter_ranked(query, rs)).contains(rs[i]),
    decreases rs.len(),
{
    broadcast use vstd::seq_lib::group_to_multiset_ensures;
    if rs.len() > 0 {
        let p = rs.drop_last();
        lemma_filter_results(query, p);
        assert(rs =~= p.push(rs.last()));
        let fp = filter_ranked(query, p);
        match rank_result_spec(query, rs.last()) {
            Some(v) => {
                assert(results_of(fp.push(v)) =~= results_of(fp).push(rs.last()));
            },
            None => {},
        }
        assert forall|i: int| 0 <= i < rs.len() && kept_by_filter(query, rs[i]) implies #[trigger] results_of(filter_ranked(query, rs)).contains(rs[i]) by {
            if i < p.len() {
                assert(p[i] == rs[i]);
                assert(kept_by_filter(query, p[i]));
                assert(results_of(fp).contains(p[i]));
                let k = choose|k: int| 0 <= k < results_of(fp).len() && results_of(fp)[k] == p[i];
                match rank_result_spec(query, rs.last()) {
                    Some(v) => {
                        assert(filter_ranked(query, rs) == fp.push(v));
                        assert(results_of(fp.push(v))[k] == results_of(fp)[k]);
                    },
                    None => {
                        assert(filter_ranked(query, rs) == fp);
                    },
                }
                assert(results_of(filter_ranked(query, rs))[k] == rs[i]);
            } else {
                let v = rank_result_spec(query, rs.last()).unwrap();
                assert(results_of(filter_ranked(query, rs))[results_of(fp).len() as int] == rs[i]);
            }
        }
    }
}

/// What ranking keeps: every ranked result is one of the input results (no
/// result appears more often than it was given), every boosted result (a
/// positive score hint) is kept, a demoted result (a negative hint) is kept
/// whenever it matches the query at all, and a blank query keeps every
/// result.
pub proof fn law_rank_results_keeps(query: Seq<char>, results: Seq<SearchResultView>)
    ensures
        forall|x: SearchResultView| #[trigger] results_of(rank_results_spec(query, results)).to_multiset().count(x) <= results.to_multiset().count(x),
        forall|i: int| 0 <= i < results.len() && (results[i].score_hint > 0 || trim_seq(query).len() == 0
            || (results[i].score_hint < 0 && fuzzy_score_spec(trim_seq(query), join_spaces(haystack_parts(results[i]))) is Some))
            ==> #[trigger] results_of(rank_results_spec(query, results)).contains(results[i]),
{
    broadcast use vstd::seq_lib::group_to_multiset_ensures;
    let f = filter_ranked(query, results);
    lemma_filter_results(query, results);
    lemma_sort_results(f);
    assert forall|i: int| 0 <= i < results.len() && (results[i].score_hint > 0 || trim_seq(query).len() == 0
        || (results[i].score_hint < 0 && fuzzy_score_spec(trim_seq(query), join_spaces(haystack_parts(results[i]))) is Some))
        implies #[trigger] results_of(rank_results_spec(query, results)).contains(results[i]) by {
        assert(kept_by_filter(query, results[i]));
        assert(results_of(f).contains(results[i]));
        assert(results_of(f).to_multiset().count(results[i]) > 0);
        assert(results_of(rank_results_spec(query, results)).to_multiset().count(results[i]) > 0);
    }
}

/// How ranking filters a plain result (score hint zero) for a non-blank
/// query: a query of fewer than 3 characters keeps it whenever it
/// fuzzy-matches at all; a longer query keeps it when its fuzzy score is at
/// least 70; a result that neither fuzzy-matches nor matches the title's
/// acronym is dropped, and so is one that matches weakly (under 70) for a
/// longer query with no acronym match.
pub proof fn law_plain_result_filter(query: Seq<char>, r: SearchResultView)
    requires
        r.score_hint == 0,
        trim_seq(query).len() > 0,
    ensures
        ({
            let q = trim_seq(query);
            let f = fuzzy_score_spec(q, join_spaces(haystack_parts(r)));
            &&& (q.len() < 3 && f is Some) ==> (rank_result_spec(query, r) matches Some(v) && v.result == r)
            &&& (f matches Some(s) && s >= 70) ==> (rank_result_spec(query, r) matches Some(v) && v.result == r)
            &&& (f is None && acronym_bonus_spec(q, r.title) == 0) ==> rank_result_spec(query, r) is None
            &&& (q.len() >= 3 && (f matches Some(s) && s < 70) && acronym_bonus_spec(q, r.title) == 0) ==> rank_result_spec(query, r) is None
        }),
{
}
} // verus!
