//! Search modes and the full-text query built from operator input.
use vstd::prelude::*;

use crate::text::{
    alnum_runs, ascii_lower, join_with, lower_span, spans_cut, split_spans, str_seq_views,
    trim, trim_str, chars_of, vec_eq_lit,
};

verus! {

broadcast use vstd::string::group_string_axioms;

/// How `/api/search` ranks documents.
#[derive(Debug, Clone, Copy, PartialEq, Eq, Structural)]
pub enum SearchMode {
    Hybrid,
    Fts,
    Vector,
}

impl SearchMode {
    pub open spec fn name(self) -> Seq<char> {
        match self {
            SearchMode::Hybrid => "hybrid"@,
            SearchMode::Fts => "fts"@,
            SearchMode::Vector => "vector"@,
        }
    }

    /// The mode a trimmed, lowercased setting names; anything unknown is hybrid.
    pub open spec fn from_name(s: Seq<char>) -> SearchMode {
        if s == "fts"@ || s == "lexical"@ {
            SearchMode::Fts
        } else if s == "vector"@ || s == "semantic"@ {
            SearchMode::Vector
        } else {
            SearchMode::Hybrid
        }
    }

    pub fn from_env(raw: &str) -> (r: SearchMode)
        ensures
            r == SearchMode::from_name(ascii_lower(trim(raw@))),
    {
        let t = trim_str(raw);
        let v = chars_of(t);
        let low = lower_span(&v, 0, v.len());
        assert(v@.subrange(0, v@.len() as int) =~= v@);
        if vec_eq_lit(&low, "fts") || vec_eq_lit(&low, "lexical") {
            SearchMode::Fts
        } else if vec_eq_lit(&low, "vector") || vec_eq_lit(&low, "semantic") {
            SearchMode::Vector
        } else {
            SearchMode::Hybrid
        }
    }

    pub fn as_str(self) -> (r: &'static str)
        ensures
            r@ == self.name(),
    {
        match self {
            SearchMode::Hybrid => "hybrid",
            SearchMode::Fts => "fts",
            SearchMode::Vector => "vector",
        }
    }
}

pub open spec fn long_enough(t: Seq<char>) -> bool {
    t.len() >= 2
}

/// The search terms of a text: its runs of ASCII letters and digits that
/// are at least two characters long.
pub open spec fn search_tokens(s: Seq<char>) -> Seq<Seq<char>> {
    alnum_runs(s).filter(|t: Seq<char>| long_enough(t))
}

/// Splits a text into search terms.
pub fn tokenize<'a>(text: &'a str) -> (r: Vec<&'a str>)
    ensures
        str_seq_views(r@) == search_tokens(text@),
{
    let v = chars_of(text);
    let spans = split_spans(&v, false);
    let ghost runs = alnum_runs(v@);
    let ghost pred = |t: Seq<char>| long_enough(t);
    let mut out: Vec<&'a str> = Vec::new();
    let mut k: usize = 0;
    while k < spans.len()
        invariant
            v@ == text@,
            runs == alnum_runs(v@),
            spans_cut(v@, spans@, runs),
            k <= spans@.len(),
            pred == (|t: Seq<char>| long_enough(t)),
            str_seq_views(out@) == runs.take(k as int).filter(pred),
        decreases spans@.len() - k,
    {
        reveal_with_fuel(Seq::<_>::filter, 1);
        let (a, b) = spans[k];
        assert(runs.take(k + 1).drop_last() =~= runs.take(k as int));
        assert(runs.take(k + 1).last() == v@.subrange(a as int, b as int));
        if b - a >= 2 {
            let piece = text.substring_char(a, b);
            out.push(piece);
            assert(str_seq_views(out@) =~= str_seq_views(out@).drop_last().push(piece@));
        }
        k = k + 1;
    }
    assert(runs.take(spans@.len() as int) =~= runs);
    out
}

pub open spec fn with_star(t: Seq<char>) -> Seq<char> {
    t + seq!['*']
}

/// The SQLite FTS5 query for operator input: each search term as a
/// prefix match (`term*`), joined with ` OR `.
pub open spec fn spec_fts_match_query(raw: Seq<char>) -> Seq<char> {
    join_with(search_tokens(raw).map_values(|t: Seq<char>| with_star(t)), " OR "@)
}

/// Builds the full-text query for operator input.
pub fn fts_match_query(raw: &str) -> (r: String)
    ensures
        r@ == spec_fts_match_query(raw@),
{
    let terms = tokenize(raw);
    let ghost toks = search_tokens(raw@);
    let ghost starred = toks.map_values(|t: Seq<char>| with_star(t));
    let mut out = String::new();
    let mut k: usize = 0;
    proof {
        reveal_strlit("*");
    }
    while k < terms.len()
        invariant
            str_seq_views(terms@) == toks,
            starred == toks.map_values(|t: Seq<char>| with_star(t)),
            k <= terms@.len(),
            out@ == join_with(starred.take(k as int), " OR "@),
        decreases terms@.len() - k,
    {
        proof {
            reveal_strlit("*");
        }
        let ghost pre = starred.take(k as int);
        let ghost cur = starred.take(k + 1);
        assert(cur.drop_last() =~= pre);
        assert(cur.last() == with_star(terms@[k as int]@));
        if k > 0 {
            out.append(" OR ");
        }
        out.append(terms[k]);
        out.append("*");
        assert(out@ =~= join_with(cur, " OR "@));
        k = k + 1;
    }
    assert(starred.take(terms@.len() as int) =~= starred);
    out
}

/// Every term of the query is at least two ASCII letters or digits long.
pub proof fn law_search_terms_are_long(raw: Seq<char>)
    ensures
        forall|i: int| 0 <= i < search_tokens(raw).len() ==> #[trigger] search_tokens(raw)[i].len() >= 2,
{
    broadcast use vstd::seq_lib::group_filter_ensures;

    let runs = alnum_runs(raw);
    let pred = |t: Seq<char>| long_enough(t);
    assert forall|i: int| 0 <= i < search_tokens(raw).len() implies #[trigger] search_tokens(raw)[i].len() >= 2 by {
        assert(pred(runs.filter(pred)[i]));
    }
}

} // verus!
