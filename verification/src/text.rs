//! Character-level text handling shared by the parsers of the console:
//! Unicode whitespace, trimming, whitespace splitting, ASCII case folding,
//! literal comparison and decimal numbers.
use vstd::prelude::*;

verus! {

broadcast use vstd::string::group_string_axioms;

// ---------------------------------------------------------------------------
// Whitespace
// ---------------------------------------------------------------------------

/// The Unicode `White_Space` property, which is what `char::is_whitespace`
/// tests: U+0009..U+000D, U+0020, U+0085, U+00A0, U+1680, U+2000..U+200A,
/// U+2028, U+2029, U+202F, U+205F and U+3000.
pub open spec fn is_ws(c: char) -> bool {
    ||| ('\u{9}' <= c && c <= '\u{d}')
    ||| c == ' '
    ||| c == '\u{85}'
    ||| c == '\u{a0}'
    ||| c == '\u{1680}'
    ||| ('\u{2000}' <= c && c <= '\u{200a}')
    ||| c == '\u{2028}'
    ||| c == '\u{2029}'
    ||| c == '\u{202f}'
    ||| c == '\u{205f}'
    ||| c == '\u{3000}'
}

pub fn is_whitespace(c: char) -> (r: bool)
    ensures
        r == is_ws(c),
{
    ('\u{9}' <= c && c <= '\u{d}') || c == ' ' || c == '\u{85}' || c == '\u{a0}' || c == '\u{1680}'
        || ('\u{2000}' <= c && c <= '\u{200a}') || c == '\u{2028}' || c == '\u{2029}' || c
        == '\u{202f}' || c == '\u{205f}' || c == '\u{3000}'
}

/// ASCII whitespace as `char::is_ascii_whitespace` defines it:
/// space, tab, line feed, form feed and carriage return.
pub open spec fn is_ascii_ws(c: char) -> bool {
    c == ' ' || c == '\t' || c == '\n' || c == '\u{c}' || c == '\r'
}

/// `char::is_ascii_graphic`: U+0021 '!' ..= U+007E '~'.
pub open spec fn is_ascii_graphic(c: char) -> bool {
    '!' <= c && c <= '~'
}

/// `char::is_ascii_alphanumeric`.
pub open spec fn is_ascii_alnum(c: char) -> bool {
    ('0' <= c && c <= '9') || ('a' <= c && c <= 'z') || ('A' <= c && c <= 'Z')
}

// ---------------------------------------------------------------------------
// Trimming
// ---------------------------------------------------------------------------

/// The first index at or after `i` that does not hold whitespace.
pub open spec fn skip_ws_from(s: Seq<char>, i: int) -> int
    decreases s.len() - i,
{
    if 0 <= i < s.len() && is_ws(s[i]) {
        skip_ws_from(s, i + 1)
    } else {
        i
    }
}

/// Walking back from `j`, the first end index (not below `lo`) whose
/// preceding character is not whitespace.
pub open spec fn back_ws_from(s: Seq<char>, j: int, lo: int) -> int
    decreases j - lo,
{
    if lo < j && j <= s.len() && is_ws(s[j - 1]) {
        back_ws_from(s, j - 1, lo)
    } else {
        j
    }
}

pub open spec fn trim_start(s: Seq<char>) -> int {
    skip_ws_from(s, 0)
}

pub open spec fn trim_end(s: Seq<char>) -> int {
    back_ws_from(s, s.len() as int, trim_start(s))
}

/// `str::trim`: the string without leading and trailing whitespace.
pub open spec fn trim(s: Seq<char>) -> Seq<char> {
    s.subrange(trim_start(s), trim_end(s))
}

proof fn lemma_skip_ws_bounds(s: Seq<char>, i: int)
    requires
        0 <= i <= s.len(),
    ensures
        i <= skip_ws_from(s, i) <= s.len(),
    decreases s.len() - i,
{
    if i < s.len() && is_ws(s[i]) {
        lemma_skip_ws_bounds(s, i + 1);
    }
}

proof fn lemma_back_ws_bounds(s: Seq<char>, j: int, lo: int)
    requires
        0 <= lo <= j <= s.len(),
    ensures
        lo <= back_ws_from(s, j, lo) <= j,
    decreases j - lo,
{
    if lo < j && is_ws(s[j - 1]) {
        lemma_back_ws_bounds(s, j - 1, lo);
    }
}

pub proof fn lemma_trim_bounds(s: Seq<char>)
    ensures
        0 <= trim_start(s) <= trim_end(s) <= s.len(),
{
    lemma_skip_ws_bounds(s, 0);
    lemma_back_ws_bounds(s, s.len() as int, trim_start(s));
}

/// The character bounds `[start, end)` of the trimmed part of `v`.
pub fn trim_bounds(v: &Vec<char>) -> (r: (usize, usize))
    ensures
        r.0 == trim_start(v@),
        r.1 == trim_end(v@),
        r.0 <= r.1 <= v@.len(),
{
    proof {
        lemma_trim_bounds(v@);
    }
    let n = v.len();
    let mut i: usize = 0;
    while i < n && is_whitespace(v[i])
        invariant
            n == v@.len(),
            i <= n,
            skip_ws_from(v@, i as int) == trim_start(v@),
        decreases n - i,
    {
        i = i + 1;
    }
    let mut j: usize = n;
    while j > i && is_whitespace(v[j - 1])
        invariant
            n == v@.len(),
            i == trim_start(v@),
            i <= j <= n,
            back_ws_from(v@, j as int, i as int) == trim_end(v@),
        decreases j,
    {
        j = j - 1;
    }
    (i, j)
}

/// `str::trim` on a string slice.
pub fn trim_str<'a>(s: &'a str) -> (r: &'a str)
    ensures
        r@ == trim(s@),
{
    let v = chars_of(s);
    let (a, b) = trim_bounds(&v);
    s.substring_char(a, b)
}

// ---------------------------------------------------------------------------
// Splitting at whitespace
// ---------------------------------------------------------------------------

/// The separators of a split: whitespace when `ws`, otherwise every
/// character that is not an ASCII letter or digit.
pub open spec fn is_sep(ws: bool, c: char) -> bool {
    if ws {
        is_ws(c)
    } else {
        !is_ascii_alnum(c)
    }
}

/// The maximal runs of characters that are not separators, defined by
/// reading the string one character at a time.
pub open spec fn split_by(s: Seq<char>, ws: bool) -> Seq<Seq<char>>
    decreases s.len(),
{
    if s.len() == 0 {
        Seq::empty()
    } else {
        let prev = split_by(s.drop_last(), ws);
        let c = s.last();
        if is_sep(ws, c) {
            prev
        } else if s.len() >= 2 && !is_sep(ws, s[s.len() - 2]) && prev.len() > 0 {
            prev.update(prev.len() - 1, prev.last().push(c))
        } else {
            prev.push(seq![c])
        }
    }
}

/// `str::split_whitespace`: the maximal runs of non-whitespace characters.
pub open spec fn split_ws(s: Seq<char>) -> Seq<Seq<char>> {
    split_by(s, true)
}

/// The maximal runs of ASCII letters and digits.
pub open spec fn alnum_runs(s: Seq<char>) -> Seq<Seq<char>> {
    split_by(s, false)
}

fn is_sep_exec(ws: bool, c: char) -> (r: bool)
    ensures
        r == is_sep(ws, c),
{
    if ws {
        is_whitespace(c)
    } else {
        !(('0' <= c && c <= '9') || ('a' <= c && c <= 'z') || ('A' <= c && c <= 'Z'))
    }
}

/// A sequence of `[start, end)` spans that cut exactly the pieces `toks`
/// out of `s`.
pub open spec fn spans_cut(s: Seq<char>, spans: Seq<(usize, usize)>, toks: Seq<Seq<char>>) -> bool {
    &&& spans.len() == toks.len()
    &&& forall|k: int|
        #![trigger spans[k]]
        0 <= k < spans.len() ==> spans[k].0 <= spans[k].1 <= s.len() && s.subrange(
            spans[k].0 as int,
            spans[k].1 as int,
        ) == toks[k]
}

/// The spans of the runs of `v` between separators.
pub fn split_spans(v: &Vec<char>, ws: bool) -> (r: Vec<(usize, usize)>)
    ensures
        spans_cut(v@, r@, split_by(v@, ws)),
        forall|k: int| 0 <= k < r@.len() ==> #[trigger] r@[k].0 < r@[k].1,
{
    let n = v.len();
    let mut spans: Vec<(usize, usize)> = Vec::new();
    let mut i: usize = 0;
    while i < n
        invariant
            n == v@.len(),
            i <= n,
            spans_cut(v@, spans@, split_by(v@.take(i as int), ws)),
            forall|k: int| 0 <= k < spans@.len() ==> #[trigger] spans@[k].0 < spans@[k].1 <= i,
            i > 0 && !is_sep(ws, v@[i - 1]) ==> spans@.len() > 0 && spans@.last().1 == i,
        decreases n - i,
    {
        let ghost pre = v@.take(i as int);
        let ghost cur = v@.take(i + 1);
        assert(cur.drop_last() =~= pre);
        assert(cur.last() == v@[i as int]);
        let c = v[i];
        let ghost old_spans = spans@;
        if is_sep_exec(ws, c) {
        } else if i >= 1 && !is_sep_exec(ws, v[i - 1]) {
            assert(cur[cur.len() - 2] == v@[i - 1]);
            let last = spans.len() - 1;
            let (a, _b) = spans[last];
            let ghost toks = split_by(pre, ws);
            assert(toks[last as int] == v@.subrange(a as int, i as int));
            spans.set(last, (a, i + 1));
            assert(v@.subrange(a as int, i + 1) =~= v@.subrange(a as int, i as int).push(c));
            assert forall|k: int| 0 <= k < spans@.len() implies #[trigger] spans@[k].0 <= spans@[k].1 <= v@.len()
                && v@.subrange(spans@[k].0 as int, spans@[k].1 as int) == split_by(cur, ws)[k] by {
                if k != last {
                    assert(spans@[k] == old_spans[k]);
                }
            }
        } else {
            spans.push((i, i + 1));
            assert(v@.subrange(i as int, i + 1) =~= seq![c]);
            assert forall|k: int| 0 <= k < spans@.len() implies #[trigger] spans@[k].0 <= spans@[k].1 <= v@.len()
                && v@.subrange(spans@[k].0 as int, spans@[k].1 as int) == split_by(cur, ws)[k] by {
                if k < spans@.len() - 1 {
                    assert(spans@[k] == old_spans[k]);
                }
            }
        }
        i = i + 1;
    }
    assert(v@.take(n as int) =~= v@);
    spans
}

/// The spans of the whitespace-separated tokens of `v`.
pub fn split_ws_spans(v: &Vec<char>) -> (r: Vec<(usize, usize)>)
    ensures
        spans_cut(v@, r@, split_ws(v@)),
        forall|k: int| 0 <= k < r@.len() ==> #[trigger] r@[k].0 < r@[k].1,
{
    split_spans(v, true)
}

// ---------------------------------------------------------------------------
// Splitting at a character
// ---------------------------------------------------------------------------

/// `str::split` at a character: all the pieces between occurrences of `c`,
/// empty ones included.
pub open spec fn split_char(s: Seq<char>, c: char) -> Seq<Seq<char>>
    decreases s.len(),
{
    if s.len() == 0 {
        seq![Seq::empty()]
    } else {
        let prev = split_char(s.drop_last(), c);
        if s.last() == c {
            prev.push(Seq::empty())
        } else {
            prev.update(prev.len() - 1, prev.last().push(s.last()))
        }
    }
}

pub proof fn lemma_split_char_nonempty(s: Seq<char>, c: char)
    ensures
        split_char(s, c).len() >= 1,
    decreases s.len(),
{
    if s.len() > 0 {
        lemma_split_char_nonempty(s.drop_last(), c);
    }
}

/// The spans of the pieces of `v` between occurrences of `c`.
pub fn split_char_spans(v: &Vec<char>, c: char) -> (r: Vec<(usize, usize)>)
    ensures
        spans_cut(v@, r@, split_char(v@, c)),
        r@.len() >= 1,
{
    let n = v.len();
    let mut spans: Vec<(usize, usize)> = Vec::new();
    let mut start: usize = 0;
    let mut i: usize = 0;
    assert(v@.take(0) =~= Seq::<char>::empty());
    while i < n
        invariant
            n == v@.len(),
            start <= i <= n,
            split_char(v@.take(i as int), c).len() == spans@.len() + 1,
            spans_cut(v@, spans@, split_char(v@.take(i as int), c).drop_last()),
            v@.subrange(start as int, i as int) == split_char(v@.take(i as int), c).last(),
        decreases n - i,
    {
        let ghost pre = v@.take(i as int);
        let ghost cur = v@.take(i + 1);
        assert(cur.drop_last() =~= pre);
        assert(cur.last() == v@[i as int]);
        proof {
            lemma_split_char_nonempty(pre, c);
        }
        let ghost old_spans = spans@;
        if v[i] == c {
            spans.push((start, i));
            start = i + 1;
            assert(v@.subrange(start as int, i + 1) =~= Seq::<char>::empty());
            assert forall|k: int| 0 <= k < spans@.len() implies #[trigger] spans@[k].0 <= spans@[k].1 <= v@.len()
                && v@.subrange(spans@[k].0 as int, spans@[k].1 as int) == split_char(cur, c).drop_last()[k] by {
                if k < old_spans.len() {
                    assert(spans@[k] == old_spans[k]);
                }
            }
        } else {
            assert(v@.subrange(start as int, i + 1) =~= v@.subrange(start as int, i as int).push(v@[i as int]));
            assert forall|k: int| 0 <= k < spans@.len() implies #[trigger] spans@[k].0 <= spans@[k].1 <= v@.len()
                && v@.subrange(spans@[k].0 as int, spans@[k].1 as int) == split_char(cur, c).drop_last()[k] by {
            }
        }
        i = i + 1;
    }
    spans.push((start, n));
    assert(v@.take(n as int) =~= v@);
    proof {
        lemma_split_char_nonempty(v@, c);
        let p = split_char(v@, c);
        assert forall|k: int| 0 <= k < spans@.len() implies #[trigger] spans@[k].0 <= spans@[k].1 <= v@.len()
            && v@.subrange(spans@[k].0 as int, spans@[k].1 as int) == p[k] by {
            if k < spans@.len() - 1 {
                assert(p.drop_last()[k] == p[k]);
            }
        }
    }
    spans
}

/// The first index at or after `i` where `c` occurs, or the length of `s`.
pub open spec fn find_from(s: Seq<char>, c: char, i: int) -> int
    decreases s.len() - i,
{
    if i < 0 || i >= s.len() {
        s.len() as int
    } else if s[i] == c {
        i
    } else {
        find_from(s, c, i + 1)
    }
}

pub proof fn lemma_find_from_bounds(s: Seq<char>, c: char, i: int)
    requires
        0 <= i <= s.len(),
    ensures
        i <= find_from(s, c, i) <= s.len(),
        find_from(s, c, i) < s.len() ==> s[find_from(s, c, i)] == c,
    decreases s.len() - i,
{
    if i < s.len() && s[i] != c {
        lemma_find_from_bounds(s, c, i + 1);
    }
}

/// The position in `v[a..b]` of the first `c`, relative to `a`, or `b - a`.
pub fn find_char_in_span(v: &Vec<char>, a: usize, b: usize, c: char) -> (r: usize)
    requires
        a <= b <= v@.len(),
    ensures
        r == find_from(v@.subrange(a as int, b as int), c, 0),
        r <= b - a,
{
    let ghost s = v@.subrange(a as int, b as int);
    proof {
        lemma_find_from_bounds(s, c, 0);
    }
    let mut i: usize = a;
    while i < b && v[i] != c
        invariant
            a <= i <= b <= v@.len(),
            s == v@.subrange(a as int, b as int),
            find_from(s, c, i - a) == find_from(s, c, 0),
        decreases b - i,
    {
        assert(s[i - a] == v@[i as int]);
        i = i + 1;
    }
    if i < b {
        assert(s[i - a] == v@[i as int]);
    }
    i - a
}

// ---------------------------------------------------------------------------
// ASCII case folding and comparison
// ---------------------------------------------------------------------------

/// `char::to_ascii_lowercase`.
pub open spec fn lower_char(c: char) -> char {
    if 'A' <= c && c <= 'Z' {
        ((c as u32) + 32) as char
    } else {
        c
    }
}

/// `str::to_ascii_lowercase`.
pub open spec fn ascii_lower(s: Seq<char>) -> Seq<char> {
    s.map_values(|c: char| lower_char(c))
}

/// `str::eq_ignore_ascii_case`.
pub open spec fn eq_ignore_case(a: Seq<char>, b: Seq<char>) -> bool {
    ascii_lower(a) == ascii_lower(b)
}

pub fn to_lower_char(c: char) -> (r: char)
    ensures
        r == lower_char(c),
{
    if 'A' <= c && c <= 'Z' {
        let u: u32 = c as u32;
        let l: u32 = u + 32;
        proof {
            assert(l == (c as u32) + 32);
        }
        char_from_ascii_code(l)
    } else {
        c
    }
}

/// The ASCII letter with code `u` (`u` is a lowercase letter's code).
fn char_from_ascii_code(u: u32) -> (r: char)
    requires
        97 <= u <= 122,
    ensures
        r == u as char,
{
    let b: u8 = u as u8;
    b as char
}

/// The lowercase ASCII folding of `v[a..b]`.
pub fn lower_span(v: &Vec<char>, a: usize, b: usize) -> (r: Vec<char>)
    requires
        a <= b <= v@.len(),
    ensures
        r@ == ascii_lower(v@.subrange(a as int, b as int)),
{
    let mut out: Vec<char> = Vec::new();
    let mut i: usize = a;
    while i < b
        invariant
            a <= i <= b <= v@.len(),
            out@ == ascii_lower(v@.subrange(a as int, i as int)),
        decreases b - i,
    {
        let c = to_lower_char(v[i]);
        out.push(c);
        assert(ascii_lower(v@.subrange(a as int, i + 1)) =~= ascii_lower(
            v@.subrange(a as int, i as int),
        ).push(lower_char(v@[i as int])));
        i = i + 1;
    }
    out
}

/// `s.to_ascii_lowercase()` as characters.
pub fn lower_str(s: &str) -> (r: Vec<char>)
    ensures
        r@ == ascii_lower(s@),
{
    let v = chars_of(s);
    let r = lower_span(&v, 0, v.len());
    assert(v@.subrange(0, v@.len() as int) =~= v@);
    r
}

/// Whether `v[a..b]` is exactly the literal `lit`.
pub fn span_eq_lit(v: &Vec<char>, a: usize, b: usize, lit: &str) -> (r: bool)
    requires
        a <= b <= v@.len(),
    ensures
        r == (v@.subrange(a as int, b as int) == lit@),
{
    let n = lit.unicode_len();
    if b - a != n {
        return false;
    }
    let mut i: usize = 0;
    while i < n
        invariant
            n == lit@.len(),
            b - a == n,
            a <= b <= v@.len(),
            i <= n,
            forall|k: int| 0 <= k < i ==> v@[a + k] == lit@[k],
        decreases n - i,
    {
        if v[a + i] != lit.get_char(i) {
            assert(v@.subrange(a as int, b as int)[i as int] != lit@[i as int]);
            return false;
        }
        i = i + 1;
    }
    assert(v@.subrange(a as int, b as int) =~= lit@);
    true
}

/// Whether the characters `v` are exactly the literal `lit`.
pub fn vec_eq_lit(v: &Vec<char>, lit: &str) -> (r: bool)
    ensures
        r == (v@ == lit@),
{
    let r = span_eq_lit(v, 0, v.len(), lit);
    assert(v@.subrange(0, v@.len() as int) =~= v@);
    r
}

/// Whether two character sequences are equal.
pub fn vec_eq(a: &Vec<char>, b: &Vec<char>) -> (r: bool)
    ensures
        r == (a@ == b@),
{
    if a.len() != b.len() {
        return false;
    }
    let mut i: usize = 0;
    while i < a.len()
        invariant
            a@.len() == b@.len(),
            i <= a@.len(),
            forall|k: int| 0 <= k < i ==> a@[k] == b@[k],
        decreases a@.len() - i,
    {
        if a[i] != b[i] {
            return false;
        }
        i = i + 1;
    }
    assert(a@ =~= b@);
    true
}

/// Whether two string slices hold the same characters.
pub fn str_eq(a: &str, b: &str) -> (r: bool)
    ensures
        r == (a@ == b@),
{
    let va = chars_of(a);
    let vb = chars_of(b);
    vec_eq(&va, &vb)
}

/// `str::eq_ignore_ascii_case`.
pub fn str_eq_ignore_case(a: &str, b: &str) -> (r: bool)
    ensures
        r == eq_ignore_case(a@, b@),
{
    let la = lower_str(a);
    let lb = lower_str(b);
    vec_eq(&la, &lb)
}

// ---------------------------------------------------------------------------
// Substrings
// ---------------------------------------------------------------------------

/// `pat` occurs in `s` at position `i`.
pub open spec fn occurs_at(s: Seq<char>, pat: Seq<char>, i: int) -> bool {
    0 <= i && i + pat.len() <= s.len() && s.subrange(i, i + pat.len()) == pat
}

/// `str::contains` with a string pattern.
pub open spec fn contains_seq(s: Seq<char>, pat: Seq<char>) -> bool {
    exists|i: int| occurs_at(s, pat, i)
}

/// Whether `lit` occurs in `v`.
pub fn contains_lit(v: &Vec<char>, lit: &str) -> (r: bool)
    ensures
        r == contains_seq(v@, lit@),
{
    let n = lit.unicode_len();
    if n > v.len() {
        assert forall|i: int| !occurs_at(v@, lit@, i) by {}
        return false;
    }
    if n == 0 {
        assert(v@.subrange(0, 0) =~= lit@);
        assert(occurs_at(v@, lit@, 0));
        return true;
    }
    let mut i: usize = 0;
    let vlen = v.len();
    let last = vlen - n;
    while i <= last
        invariant
            vlen == v@.len(),
            n == lit@.len(),
            0 < n <= v@.len(),
            last == v@.len() - n,
            i <= last + 1,
            forall|k: int| 0 <= k < i ==> !occurs_at(v@, lit@, k),
        decreases last + 1 - i,
    {
        assert(i + n <= v@.len());
        if span_eq_lit(v, i, i + n, lit) {
            assert(occurs_at(v@, lit@, i as int));
            return true;
        }
        i = i + 1;
    }
    assert forall|k: int| !occurs_at(v@, lit@, k) by {
        if 0 <= k < i {
        }
    }
    false
}

/// Whether `pat` occurs in `v` at position `i`.
fn occurs_at_vec(v: &Vec<char>, pat: &Vec<char>, i: usize) -> (r: bool)
    requires
        i + pat@.len() <= v@.len(),
    ensures
        r == occurs_at(v@, pat@, i as int),
{
    let mut k: usize = 0;
    let vlen = v.len();
    while k < pat.len()
        invariant
            vlen == v@.len(),
            i + pat@.len() <= v@.len(),
            k <= pat@.len(),
            forall|j: int| 0 <= j < k ==> v@[i + j] == pat@[j],
        decreases pat@.len() - k,
    {
        if v[i + k] != pat[k] {
            assert(v@.subrange(i as int, i + pat@.len())[k as int] != pat@[k as int]);
            return false;
        }
        k = k + 1;
    }
    assert(v@.subrange(i as int, i + pat@.len()) =~= pat@);
    true
}

/// Whether `pat` occurs in `v`.
pub fn contains_vec(v: &Vec<char>, pat: &Vec<char>) -> (r: bool)
    ensures
        r == contains_seq(v@, pat@),
{
    let n = pat.len();
    if n > v.len() {
        assert forall|i: int| !occurs_at(v@, pat@, i) by {}
        return false;
    }
    if n == 0 {
        assert(v@.subrange(0, 0) =~= pat@);
        assert(occurs_at(v@, pat@, 0));
        return true;
    }
    let mut i: usize = 0;
    let vlen = v.len();
    let last = vlen - n;
    while i <= last
        invariant
            vlen == v@.len(),
            n == pat@.len(),
            0 < n <= v@.len(),
            last == v@.len() - n,
            i <= last + 1,
            forall|k: int| 0 <= k < i ==> !occurs_at(v@, pat@, k),
        decreases last + 1 - i,
    {
        if occurs_at_vec(v, pat, i) {
            return true;
        }
        i = i + 1;
    }
    assert forall|k: int| !occurs_at(v@, pat@, k) by {
        if 0 <= k < i {
        }
    }
    false
}

// ---------------------------------------------------------------------------
// Ordering
// ---------------------------------------------------------------------------

/// The order of `str`: character by character, a proper prefix first. (It is
/// also the order of the strings' UTF-8 bytes.)
pub open spec fn lex_less(a: Seq<char>, b: Seq<char>) -> bool
    decreases a.len(),
{
    if a.len() == 0 {
        b.len() > 0
    } else if b.len() == 0 {
        false
    } else if a[0] != b[0] {
        a[0] < b[0]
    } else {
        lex_less(a.drop_first(), b.drop_first())
    }
}

/// The order is transitive.
pub proof fn lemma_lex_trans(a: Seq<char>, b: Seq<char>, c: Seq<char>)
    requires
        lex_less(a, b),
        lex_less(b, c),
    ensures
        lex_less(a, c),
    decreases a.len(),
{
    if a.len() > 0 && b.len() > 0 && c.len() > 0 && a[0] == b[0] && b[0] == c[0] {
        lemma_lex_trans(a.drop_first(), b.drop_first(), c.drop_first());
    }
}

/// Of two different strings, one comes first.
pub proof fn lemma_lex_total(a: Seq<char>, b: Seq<char>)
    requires
        a != b,
    ensures
        lex_less(a, b) || lex_less(b, a),
    decreases a.len(),
{
    if a.len() == 0 && b.len() == 0 {
        assert(a =~= b);
    } else if a.len() > 0 && b.len() > 0 {
        if a[0] == b[0] {
            if a.drop_first() =~= b.drop_first() {
                assert(a =~= seq![a[0]] + a.drop_first());
                assert(b =~= seq![b[0]] + b.drop_first());
            } else {
                lemma_lex_total(a.drop_first(), b.drop_first());
            }
        } else {
        }
    }
}

/// Whether `a` comes before `b` in the order of `str`.
pub fn vec_lex_less(a: &Vec<char>, b: &Vec<char>) -> (r: bool)
    ensures
        r == lex_less(a@, b@),
{
    let mut i: usize = 0;
    assert(a@.subrange(0, a@.len() as int) =~= a@);
    assert(b@.subrange(0, b@.len() as int) =~= b@);
    while i < a.len() && i < b.len() && a[i] == b[i]
        invariant
            i <= a@.len(),
            i <= b@.len(),
            lex_less(a@, b@) == lex_less(
                a@.subrange(i as int, a@.len() as int),
                b@.subrange(i as int, b@.len() as int),
            ),
        decreases a@.len() - i,
    {
        proof {
            let sa = a@.subrange(i as int, a@.len() as int);
            let sb = b@.subrange(i as int, b@.len() as int);
            assert(sa.drop_first() =~= a@.subrange(i + 1, a@.len() as int));
            assert(sb.drop_first() =~= b@.subrange(i + 1, b@.len() as int));
            assert(sa[0] == sb[0]);
        }
        i = i + 1;
    }
    proof {
        let sa = a@.subrange(i as int, a@.len() as int);
        let sb = b@.subrange(i as int, b@.len() as int);
        if i < a@.len() {
            assert(sa[0] == a@[i as int]);
        }
        if i < b@.len() {
            assert(sb[0] == b@[i as int]);
        }
    }
    if i == a.len() {
        i < b.len()
    } else if i == b.len() {
        false
    } else {
        a[i] < b[i]
    }
}

/// `str::contains` on string slices.
pub fn str_contains(s: &str, lit: &str) -> (r: bool)
    ensures
        r == contains_seq(s@, lit@),
{
    let v = chars_of(s);
    contains_lit(&v, lit)
}

/// The characters of a string slice, in order.
pub fn chars_of(s: &str) -> (v: Vec<char>)
    ensures
        v@ == s@,
{
    let mut v: Vec<char> = Vec::new();
    for c in it: s.chars()
        invariant
            it.seq() == s@,
            v@ == it.seq().take(it.index() as int),
    {
        v.push(c);
    }
    v
}

/// Whether `a` comes before `b` in the order of `str`.
pub fn str_lex_less(a: &str, b: &str) -> (r: bool)
    ensures
        r == lex_less(a@, b@),
{
    let va = chars_of(a);
    let vb = chars_of(b);
    vec_lex_less(&va, &vb)
}

// ---------------------------------------------------------------------------
// Joining
// ---------------------------------------------------------------------------

/// `[String]::join`: the parts with `sep` between each two of them.
pub open spec fn join_with(parts: Seq<Seq<char>>, sep: Seq<char>) -> Seq<char>
    decreases parts.len(),
{
    if parts.len() == 0 {
        Seq::empty()
    } else if parts.len() == 1 {
        parts[0]
    } else {
        join_with(parts.drop_last(), sep) + sep + parts.last()
    }
}

/// The characters of a sequence of string slices.
pub open spec fn str_seq_views<'a>(v: Seq<&'a str>) -> Seq<Seq<char>> {
    v.map_values(|s: &'a str| s@)
}

// ---------------------------------------------------------------------------
// UTF-8 length
// ---------------------------------------------------------------------------

/// `char::len_utf8`: the number of bytes of a character in UTF-8.
pub open spec fn utf8_width(c: char) -> int {
    if (c as u32) < 0x80 {
        1
    } else if (c as u32) < 0x800 {
        2
    } else if (c as u32) < 0x10000 {
        3
    } else {
        4
    }
}

/// `str::len`: the number of bytes of a string in UTF-8.
pub open spec fn utf8_len(s: Seq<char>) -> int
    decreases s.len(),
{
    if s.len() == 0 {
        0
    } else {
        utf8_len(s.drop_last()) + utf8_width(s.last())
    }
}

/// Whether the UTF-8 length of `v` exceeds `limit`.
pub fn utf8_len_exceeds(v: &Vec<char>, limit: usize) -> (r: bool)
    ensures
        r == (utf8_len(v@) > limit),
{
    let mut acc: usize = 0;
    let mut over = false;
    let mut i: usize = 0;
    while i < v.len()
        invariant
            i <= v@.len(),
            !over ==> acc == utf8_len(v@.take(i as int)) && acc <= limit,
            over ==> utf8_len(v@.take(i as int)) > limit,
        decreases v@.len() - i,
    {
        let c = v[i];
        let ghost cur = v@.take(i + 1);
        assert(cur.drop_last() =~= v@.take(i as int));
        assert(cur.last() == c);
        let w: usize = if (c as u32) < 0x80 {
            1
        } else if (c as u32) < 0x800 {
            2
        } else if (c as u32) < 0x10000 {
            3
        } else {
            4
        };
        if !over {
            if w > limit || acc > limit - w {
                over = true;
            } else {
                acc = acc + w;
            }
        }
        i = i + 1;
    }
    assert(v@.take(v@.len() as int) =~= v@);
    over
}

// ---------------------------------------------------------------------------
// Decimal numbers
// ---------------------------------------------------------------------------

pub open spec fn is_digit(c: char) -> bool {
    '0' <= c && c <= '9'
}

pub open spec fn digit_value(c: char) -> int {
    (c as int) - ('0' as int)
}

/// The value of a string of decimal digits.
pub open spec fn digits_value(s: Seq<char>) -> int
    decreases s.len(),
{
    if s.len() == 0 {
        0
    } else {
        digits_value(s.drop_last()) * 10 + digit_value(s.last())
    }
}

pub open spec fn all_digits(s: Seq<char>) -> bool {
    forall|i: int| 0 <= i < s.len() ==> is_digit(#[trigger] s[i])
}

/// What `str::parse` of an unsigned integer type with maximum `max`
/// accepts: an optional `+`, then at least one ASCII digit, with a value
/// of at most `max`.
pub open spec fn parse_unsigned(s: Seq<char>, max: int) -> Option<int> {
    let body = if s.len() > 0 && s[0] == '+' {
        s.drop_first()
    } else {
        s
    };
    if body.len() > 0 && all_digits(body) && digits_value(body) <= max {
        Some(digits_value(body))
    } else {
        None
    }
}

pub proof fn lemma_digits_value_nonneg(s: Seq<char>)
    requires
        all_digits(s),
    ensures
        digits_value(s) >= 0,
    decreases s.len(),
{
    if s.len() > 0 {
        assert(all_digits(s.drop_last()));
        lemma_digits_value_nonneg(s.drop_last());
        assert(is_digit(s[s.len() - 1]));
    }
}

/// A parsed unsigned number lies in `0..=max`.
pub proof fn lemma_parse_unsigned_range(s: Seq<char>, max: int)
    ensures
        parse_unsigned(s, max) matches Some(v) ==> 0 <= v <= max,
{
    let body = if s.len() > 0 && s[0] == '+' {
        s.drop_first()
    } else {
        s
    };
    if body.len() > 0 && all_digits(body) {
        lemma_digits_value_nonneg(body);
    }
}

/// What `str::parse::<i32>` accepts: an optional `+` or `-`, then at least
/// one ASCII digit, with a value in the range of `i32`.
pub open spec fn parse_i32(s: Seq<char>) -> Option<int> {
    let neg = s.len() > 0 && s[0] == '-';
    let body = if s.len() > 0 && (s[0] == '+' || s[0] == '-') {
        s.drop_first()
    } else {
        s
    };
    let value = if neg {
        -digits_value(body)
    } else {
        digits_value(body)
    };
    if body.len() > 0 && all_digits(body) && i32::MIN <= value <= i32::MAX {
        Some(value)
    } else {
        None
    }
}

/// The value of the digits `v[a..b]`, or `None` when one of them is not a
/// digit, there are none, or the value is above `max`.
fn digits_in_span(v: &Vec<char>, a: usize, b: usize, max: u64) -> (r: Option<u64>)
    requires
        a <= b <= v@.len(),
    ensures
        ({
            let d = v@.subrange(a as int, b as int);
            match r {
                Some(x) => d.len() > 0 && all_digits(d) && digits_value(d) <= max && x
                    == digits_value(d),
                None => !(d.len() > 0 && all_digits(d) && digits_value(d) <= max),
            }
        }),
{
    let ghost d = v@.subrange(a as int, b as int);
    if a == b {
        return None;
    }
    let mut acc: u128 = 0;
    let mut over = false;
    let mut i: usize = a;
    while i < b
        invariant
            a <= i <= b <= v@.len(),
            d == v@.subrange(a as int, b as int),
            all_digits(v@.subrange(a as int, i as int)),
            !over ==> acc == digits_value(v@.subrange(a as int, i as int)) && acc <= max,
            over ==> digits_value(v@.subrange(a as int, i as int)) > max,
            digits_value(v@.subrange(a as int, i as int)) >= 0,
        decreases b - i,
    {
        let c = v[i];
        if !('0' <= c && c <= '9') {
            assert(d[i - a] == c);
            return None;
        }
        let ghost pre = v@.subrange(a as int, i as int);
        let ghost cur = v@.subrange(a as int, i + 1);
        assert(cur.drop_last() =~= pre);
        assert(cur.last() == c);
        assert(all_digits(cur)) by {
            assert forall|k: int| 0 <= k < cur.len() implies is_digit(#[trigger] cur[k]) by {
                if k < pre.len() {
                    assert(cur[k] == pre[k]);
                }
            }
        }
        let dv: u32 = (c as u32) - ('0' as u32);
        if !over {
            acc = acc * 10 + (dv as u128);
            if acc > max as u128 {
                over = true;
            }
        }
        i = i + 1;
    }
    assert(v@.subrange(a as int, i as int) =~= d);
    if over {
        None
    } else {
        Some(acc as u64)
    }
}

/// `str::parse` of an unsigned integer of at most `max`, on `v[a..b]`.
pub fn parse_unsigned_span(v: &Vec<char>, a: usize, b: usize, max: u64) -> (r: Option<u64>)
    requires
        a <= b <= v@.len(),
    ensures
        match r {
            Some(x) => parse_unsigned(v@.subrange(a as int, b as int), max as int) == Some(
                x as int,
            ),
            None => parse_unsigned(v@.subrange(a as int, b as int), max as int) is None,
        },
{
    let ghost s = v@.subrange(a as int, b as int);
    if a < b && v[a] == '+' {
        assert(s.drop_first() =~= v@.subrange(a + 1, b as int));
        digits_in_span(v, a + 1, b, max)
    } else {
        digits_in_span(v, a, b, max)
    }
}

/// `str::parse::<i32>` on `v[a..b]`.
pub fn parse_i32_span(v: &Vec<char>, a: usize, b: usize) -> (r: Option<i32>)
    requires
        a <= b <= v@.len(),
    ensures
        match r {
            Some(x) => parse_i32(v@.subrange(a as int, b as int)) == Some(x as int),
            None => parse_i32(v@.subrange(a as int, b as int)) is None,
        },
{
    let ghost s = v@.subrange(a as int, b as int);
    if a < b && (v[a] == '+' || v[a] == '-') {
        let neg = v[a] == '-';
        assert(s.drop_first() =~= v@.subrange(a + 1, b as int));
        let lim: u64 = if neg {
            2147483648
        } else {
            2147483647
        };
        match digits_in_span(v, a + 1, b, lim) {
            Some(x) => {
                if neg {
                    if x == 2147483648 {
                        Some(i32::MIN)
                    } else {
                        Some(-(x as i32))
                    }
                } else {
                    Some(x as i32)
                }
            },
            None => None,
        }
    } else {
        match digits_in_span(v, a, b, 2147483647) {
            Some(x) => Some(x as i32),
            None => None,
        }
    }
}

/// The decimal representation of a natural number.
pub open spec fn decimal(n: nat) -> Seq<char>
    decreases n,
{
    if n < 10 {
        seq![digit_char(n)]
    } else {
        decimal(n / 10).push(digit_char(n % 10))
    }
}

pub open spec fn digit_char(d: nat) -> char {
    (('0' as int) + d) as char
}

/// The decimal representation of a signed number: a `-` before a negative one.
pub open spec fn signed_decimal(x: int) -> Seq<char> {
    if x < 0 {
        seq!['-'] + decimal((-x) as nat)
    } else {
        decimal(x as nat)
    }
}

/// The digit `d` as a one-character string.
fn digit_str(d: u64) -> (r: &'static str)
    requires
        d < 10,
    ensures
        r@ == seq![digit_char(d as nat)],
{
    let digits = "0123456789";
    proof {
        reveal_strlit("0123456789");
    }
    digits.substring_char(d as usize, (d + 1) as usize)
}

/// Formats an unsigned number in decimal, as `format!("{}", n)` does.
pub fn u64_to_decimal(n: u64) -> (r: String)
    ensures
        r@ == decimal(n as nat),
    decreases n,
{
    if n < 10 {
        digit_str(n).to_owned()
    } else {
        let mut s = u64_to_decimal(n / 10);
        s.append(digit_str(n % 10));
        s
    }
}

/// Formats a signed number in decimal, as `format!("{}", x)` does.
pub fn i64_to_decimal(x: i64) -> (r: String)
    ensures
        r@ == signed_decimal(x as int),
{
    if x < 0 {
        let m: u64 = if x == i64::MIN {
            9223372036854775808u64
        } else {
            (-x) as u64
        };
        let mut s = "-".to_owned();
        proof {
            reveal_strlit("-");
        }
        let d = u64_to_decimal(m);
        s.append(d.as_str());
        s
    } else {
        u64_to_decimal(x as u64)
    }
}

/// The decimal representation of `n` is a non-empty run of digits whose
/// value is `n`.
pub proof fn lemma_decimal_digits(n: nat)
    ensures
        decimal(n).len() >= 1,
        all_digits(decimal(n)),
        digits_value(decimal(n)) == n,
    decreases n,
{
    let r = (n % 10) as nat;
    let d = decimal(n);
    assert(digit_value(digit_char(r)) == r);
    if n < 10 {
        assert(d.drop_last() =~= Seq::<char>::empty());
        assert(digits_value(d) == digits_value(d.drop_last()) * 10 + digit_value(d.last()));
    } else {
        lemma_decimal_digits(n / 10);
        assert(d.drop_last() =~= decimal(n / 10));
        assert(d.last() == digit_char(r));
        assert(digits_value(d) == digits_value(d.drop_last()) * 10 + digit_value(d.last()));
        assert((n / 10) * 10 + r == n);
        assert forall|i: int| 0 <= i < d.len() implies is_digit(#[trigger] d[i]) by {
            if i < d.len() - 1 {
                assert(d[i] == decimal(n / 10)[i]);
            }
        }
    }
}

/// `10` to the power `k`.
pub open spec fn ten_pow(k: nat) -> nat
    decreases k,
{
    if k == 0 {
        1
    } else {
        10 * ten_pow((k - 1) as nat)
    }
}

/// A number below `10^k` has at most `k` decimal digits.
pub proof fn lemma_decimal_len(n: nat, k: nat)
    requires
        k >= 1,
        n < ten_pow(k),
    ensures
        decimal(n).len() <= k,
    decreases n,
{
    if n >= 10 {
        if k == 1 {
            assert(ten_pow(1) == 10 * ten_pow(0));
        }
        assert(k >= 2);
        assert(n / 10 < ten_pow((k - 1) as nat));
        lemma_decimal_len(n / 10, (k - 1) as nat);
    }
}

/// No character takes more than four bytes in UTF-8.
pub proof fn lemma_utf8_len_at_most_four_per_char(s: Seq<char>)
    ensures
        0 <= utf8_len(s) <= 4 * s.len(),
    decreases s.len(),
{
    if s.len() > 0 {
        lemma_utf8_len_at_most_four_per_char(s.drop_last());
    }
}

/// A trailing separator adds no piece to a split.
pub proof fn lemma_split_by_push_sep(p: Seq<char>, ws: bool, c: char)
    requires
        is_sep(ws, c),
    ensures
        split_by(p.push(c), ws) == split_by(p, ws),
{
    assert(p.push(c).drop_last() =~= p);
}

/// A word without separators, after an empty string or a separator, is
/// the next piece of a split.
pub proof fn lemma_split_by_push_word(p: Seq<char>, w: Seq<char>, ws: bool)
    requires
        w.len() >= 1,
        forall|i: int| 0 <= i < w.len() ==> !is_sep(ws, #[trigger] w[i]),
        p.len() == 0 || is_sep(ws, p.last()),
    ensures
        split_by(p + w, ws) == split_by(p, ws).push(w),
    decreases w.len(),
{
    let s = p + w;
    if w.len() == 1 {
        assert(s.drop_last() =~= p);
        assert(s.last() == w[0]);
        assert(seq![w[0]] =~= w);
    } else {
        let v = w.drop_last();
        lemma_split_by_push_word(p, v, ws);
        assert(s.drop_last() =~= p + v);
        assert(s[s.len() - 2] == w[w.len() - 2]);
        let prev = split_by(p, ws).push(v);
        assert(v.push(w.last()) =~= w);
        assert(prev.last() == v);
        assert(prev.update(prev.len() - 1, prev.last().push(w.last())) =~= split_by(p, ws).push(w));
    }
}

/// Every string contains itself.
pub proof fn lemma_contains_self(x: Seq<char>)
    ensures
        contains_seq(x, x),
{
    assert(x.subrange(0, x.len() as int) =~= x);
    assert(occurs_at(x, x, 0));
}

/// What a string contains, it still contains with more after it.
pub proof fn lemma_contains_left(a: Seq<char>, b: Seq<char>, x: Seq<char>)
    requires
        contains_seq(a, x),
    ensures
        contains_seq(a + b, x),
{
    let i = choose|i: int| occurs_at(a, x, i);
    assert((a + b).subrange(i, i + x.len()) =~= a.subrange(i, i + x.len()));
    assert(occurs_at(a + b, x, i));
}

/// What a string contains, it still contains with more before it.
pub proof fn lemma_contains_right(a: Seq<char>, b: Seq<char>, x: Seq<char>)
    requires
        contains_seq(b, x),
    ensures
        contains_seq(a + b, x),
{
    let i = choose|i: int| occurs_at(b, x, i);
    let j = i + a.len();
    assert((a + b).subrange(j, j + x.len()) =~= b.subrange(i, i + x.len()));
    assert(occurs_at(a + b, x, j));
}

} // verus!
