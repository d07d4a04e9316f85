//! The loopback observability endpoint: reading HTTP requests, checking
//! bearer tokens and choosing the route that answers.
use vstd::prelude::*;

use crate::auth::AuthMode;
use crate::config::{ov, RuntimeConfig};
use crate::search::SearchMode;
use crate::text::{
    ascii_lower, chars_of, eq_ignore_case, find_char_in_span, find_from, lemma_find_from_bounds,
    lemma_split_char_nonempty, lower_span, lower_str, parse_unsigned, parse_unsigned_span,
    span_eq_lit, spans_cut, split_char, split_char_spans, split_ws, split_ws_spans, trim,
    trim_bounds, vec_eq, lemma_trim_bounds, decimal, str_eq, u64_to_decimal,
};

verus! {

broadcast use vstd::string::group_string_axioms;

// ---------------------------------------------------------------------------
// Lines and headers
// ---------------------------------------------------------------------------

/// A line without the `\r` of a `\r\n` ending.
pub open spec fn strip_cr(x: Seq<char>) -> Seq<char> {
    if x.len() > 0 && x.last() == '\r' {
        x.drop_last()
    } else {
        x
    }
}

/// `str::lines`: the pieces between `\n`s, each without the `\r` of a
/// `\r\n` ending, and without an empty piece after a final `\n`.
pub open spec fn lines(s: Seq<char>) -> Seq<Seq<char>> {
    let p = split_char(s, '\n');
    let n = p.len() as int;
    let m = if p[n - 1].len() == 0 {
        n - 1
    } else {
        n
    };
    Seq::new(
        m as nat,
        |i: int|
            if i < n - 1 {
                strip_cr(p[i])
            } else {
                p[i]
            },
    )
}

/// The spans of the lines of `v`.
pub fn line_spans(v: &Vec<char>) -> (r: Vec<(usize, usize)>)
    ensures
        spans_cut(v@, r@, lines(v@)),
{
    let ghost p = split_char(v@, '\n');
    let ps = split_char_spans(v, '\n');
    let n = ps.len();
    let (la, lb) = ps[n - 1];
    let m = if la == lb {
        n - 1
    } else {
        n
    };
    assert(m == lines(v@).len());
    let mut out: Vec<(usize, usize)> = Vec::new();
    let mut k: usize = 0;
    while k < m
        invariant
            p == split_char(v@, '\n'),
            spans_cut(v@, ps@, p),
            n == ps@.len(),
            n >= 1,
            m <= n,
            m == lines(v@).len(),
            k <= m,
            out@.len() == k,
            forall|j: int|
                #![trigger out@[j]]
                0 <= j < k ==> out@[j].0 <= out@[j].1 <= v@.len() && v@.subrange(
                    out@[j].0 as int,
                    out@[j].1 as int,
                ) == lines(v@)[j],
        decreases m - k,
    {
        let (a, b) = ps[k];
        assert(v@.subrange(a as int, b as int) == p[k as int]);
        let span = if k + 1 < n && b > a && v[b - 1] == '\r' {
            assert(v@.subrange(a as int, b - 1) =~= v@.subrange(a as int, b as int).drop_last());
            (a, b - 1)
        } else {
            (a, b)
        };
        out.push(span);
        k = k + 1;
    }
    out
}

/// The value of the first header named `name` (without regard to ASCII
/// case) among `ls[i..]`, stopping at the blank line that ends the headers.
pub open spec fn header_from(ls: Seq<Seq<char>>, i: int, name: Seq<char>) -> Option<Seq<char>>
    decreases ls.len() - i,
{
    if i < 0 || i >= ls.len() {
        None
    } else if ls[i].len() == 0 || ls[i] == seq!['\r'] {
        None
    } else {
        let line = ls[i];
        let j = find_from(line, ':', 0);
        if j >= line.len() {
            header_from(ls, i + 1, name)
        } else if eq_ignore_case(line.subrange(0, j), name) {
            Some(trim(line.subrange(j + 1, line.len() as int)))
        } else {
            header_from(ls, i + 1, name)
        }
    }
}

/// The value of header `name` in a request: after the request line, up to
/// the first blank line, the first line `key: value` whose key equals
/// `name` without regard to ASCII case gives its trimmed value.
pub open spec fn spec_request_header(req: Seq<char>, name: Seq<char>) -> Option<Seq<char>> {
    header_from(lines(req), 1, name)
}

/// The trimmed part of `v[a..b]`, as bounds into `v`.
fn trim_span(v: &Vec<char>, a: usize, b: usize) -> (r: (usize, usize))
    requires
        a <= b <= v@.len(),
    ensures
        a <= r.0 <= r.1 <= b,
        v@.subrange(r.0 as int, r.1 as int) == trim(v@.subrange(a as int, b as int)),
{
    let mut w: Vec<char> = Vec::new();
    let mut i: usize = a;
    while i < b
        invariant
            a <= i <= b <= v@.len(),
            w@ == v@.subrange(a as int, i as int),
        decreases b - i,
    {
        w.push(v[i]);
        assert(w@ =~= v@.subrange(a as int, i + 1));
        i = i + 1;
    }
    let (x, y) = trim_bounds(&w);
    assert(v@.subrange(a + x, a + y) =~= w@.subrange(x as int, y as int));
    (a + x, a + y)
}

/// Reads header `name` from a raw HTTP request.
pub fn request_header<'a>(req: &'a str, name: &str) -> (r: Option<&'a str>)
    ensures
        match r {
            Some(s) => spec_request_header(req@, name@) == Some(s@),
            None => spec_request_header(req@, name@) is None,
        },
{
    let v = chars_of(req);
    let ls = line_spans(&v);
    let ghost lv = lines(v@);
    let nm = lower_str(name);
    let mut i: usize = 1;
    while i < ls.len()
        invariant
            v@ == req@,
            lv == lines(v@),
            spans_cut(v@, ls@, lv),
            nm@ == ascii_lower(name@),
            1 <= i,
            header_from(lv, i as int, name@) == header_from(lv, 1, name@),
        decreases ls@.len() - i,
    {
        let (a, b) = ls[i];
        let ghost line = v@.subrange(a as int, b as int);
        assert(line == lv[i as int]);
        if a == b {
            return None;
        }
        if b - a == 1 && v[a] == '\r' {
            assert(line =~= seq!['\r']);
            return None;
        }
        assert(line != seq!['\r']) by {
            if line.len() == 1 {
                assert(line[0] == v@[a as int]);
            }
        }
        let j = find_char_in_span(&v, a, b, ':');
        if j < b - a {
            proof {
                lemma_find_from_bounds(line, ':', 0);
            }
            let key = lower_span(&v, a, a + j);
            assert(line.subrange(0, j as int) =~= v@.subrange(a as int, a + j));
            if vec_eq(&key, &nm) {
                let (x, y) = trim_span(&v, a + j + 1, b);
                assert(line.subrange(j + 1, line.len() as int) =~= v@.subrange(a + j + 1, b as int));
                return Some(req.substring_char(x, y));
            }
        }
        i = i + 1;
    }
    None
}

// ---------------------------------------------------------------------------
// Paths and query strings
// ---------------------------------------------------------------------------

/// A path split at its first `?` into route and query; without one, the
/// query is empty.
pub open spec fn spec_split_query(path: Seq<char>) -> (Seq<char>, Seq<char>) {
    let j = find_from(path, '?', 0);
    if j < path.len() {
        (path.subrange(0, j), path.subrange(j + 1, path.len() as int))
    } else {
        (path, Seq::empty())
    }
}

pub fn split_query<'a>(path: &'a str) -> (r: (&'a str, &'a str))
    ensures
        (r.0@, r.1@) == spec_split_query(path@),
{
    let v = chars_of(path);
    let n = v.len();
    let j = find_char_in_span(&v, 0, n, '?');
    assert(v@.subrange(0, n as int) =~= v@);
    if j < n {
        (path.substring_char(0, j), path.substring_char(j + 1, n))
    } else {
        let e = path.substring_char(n, n);
        assert(e@ =~= Seq::<char>::empty());
        (path, e)
    }
}

/// The value of the first `key=value` pair among `pieces[i..]`.
pub open spec fn param_from(pieces: Seq<Seq<char>>, i: int, key: Seq<char>) -> Option<Seq<char>>
    decreases pieces.len() - i,
{
    if i < 0 || i >= pieces.len() {
        None
    } else {
        let p = pieces[i];
        let j = find_from(p, '=', 0);
        if j < p.len() && p.subrange(0, j) == key {
            Some(p.subrange(j + 1, p.len() as int))
        } else {
            param_from(pieces, i + 1, key)
        }
    }
}

/// The value of `key` in a query string of `&`-separated `key=value` pairs.
pub open spec fn spec_query_param(query: Seq<char>, key: Seq<char>) -> Option<Seq<char>> {
    param_from(split_char(query, '&'), 0, key)
}

pub fn query_param<'a>(query: &'a str, key: &str) -> (r: Option<&'a str>)
    ensures
        match r {
            Some(s) => spec_query_param(query@, key@) == Some(s@),
            None => spec_query_param(query@, key@) is None,
        },
{
    let v = chars_of(query);
    let kv = chars_of(key);
    let ps = split_char_spans(&v, '&');
    let ghost pieces = split_char(v@, '&');
    let mut i: usize = 0;
    while i < ps.len()
        invariant
            v@ == query@,
            kv@ == key@,
            pieces == split_char(v@, '&'),
            spans_cut(v@, ps@, pieces),
            param_from(pieces, i as int, key@) == param_from(pieces, 0, key@),
        decreases ps@.len() - i,
    {
        let (a, b) = ps[i];
        let ghost p = v@.subrange(a as int, b as int);
        assert(p == pieces[i as int]);
        let j = find_char_in_span(&v, a, b, '=');
        if j < b - a {
            let mut w: Vec<char> = Vec::new();
            let mut t: usize = a;
            while t < a + j
                invariant
                    a <= t <= a + j <= b <= v@.len(),
                    w@ == v@.subrange(a as int, t as int),
                decreases a + j - t,
            {
                w.push(v[t]);
                assert(w@ =~= v@.subrange(a as int, t + 1));
                t = t + 1;
            }
            assert(p.subrange(0, j as int) =~= w@);
            if vec_eq(&w, &kv) {
                assert(p.subrange(j + 1, p.len() as int) =~= v@.subrange(a + j + 1, b as int));
                return Some(query.substring_char(a + j + 1, b));
            }
        }
        i = i + 1;
    }
    None
}

// ---------------------------------------------------------------------------
// Authorization
// ---------------------------------------------------------------------------

/// A header `Bearer <token>` whose token equals the expected one; a
/// missing header or a missing expected token never matches.
pub open spec fn spec_bearer_equals(header: Option<Seq<char>>, expected: Option<Seq<char>>) -> bool {
    match (header, expected) {
        (Some(h), Some(e)) => {
            let p = "Bearer "@;
            &&& p.len() <= h.len()
            &&& h.subrange(0, p.len() as int) == p
            &&& h.subrange(p.len() as int, h.len() as int) == e
        },
        _ => false,
    }
}

pub fn bearer_equals(header: Option<&str>, expected: Option<&str>) -> (r: bool)
    ensures
        r == spec_bearer_equals(
            match header {
                Some(h) => Some(h@),
                None => None,
            },
            match expected {
                Some(e) => Some(e@),
                None => None,
            },
        ),
{
    match (header, expected) {
        (Some(h), Some(e)) => {
            let hv = chars_of(h);
            let ev = chars_of(e);
            let pn = "Bearer ".unicode_len();
            if pn > hv.len() {
                return false;
            }
            if !span_eq_lit(&hv, 0, pn, "Bearer ") {
                return false;
            }
            let mut w: Vec<char> = Vec::new();
            let mut t: usize = pn;
            while t < hv.len()
                invariant
                    pn <= t <= hv@.len(),
                    w@ == hv@.subrange(pn as int, t as int),
                decreases hv@.len() - t,
            {
                w.push(hv[t]);
                assert(w@ =~= hv@.subrange(pn as int, t + 1));
                t = t + 1;
            }
            vec_eq(&w, &ev)
        },
        _ => false,
    }
}

/// Whether a request may see more than `/health`: always in local mode;
/// in token mode with the shared token, in EVRUS mode with the JWT, each
/// as a bearer token.
pub open spec fn spec_authorized(
    req: Seq<char>,
    mode: AuthMode,
    token_secret: Option<Seq<char>>,
    evrus_jwt: Option<Seq<char>>,
) -> bool {
    match mode {
        AuthMode::Local => true,
        AuthMode::Token => spec_bearer_equals(
            spec_request_header(req, "authorization"@),
            token_secret,
        ),
        AuthMode::Evrus => spec_bearer_equals(spec_request_header(req, "authorization"@), evrus_jwt),
    }
}

pub open spec fn opt_view<'a>(o: Option<&'a str>) -> Option<Seq<char>> {
    match o {
        Some(s) => Some(s@),
        None => None,
    }
}

pub fn authorized(
    req: &str,
    mode: AuthMode,
    token_secret: Option<&str>,
    evrus_jwt: Option<&str>,
) -> (r: bool)
    ensures
        r == spec_authorized(req@, mode, opt_view(token_secret), opt_view(evrus_jwt)),
{
    match mode {
        AuthMode::Local => true,
        AuthMode::Token => bearer_equals(request_header(req, "authorization"), token_secret),
        AuthMode::Evrus => bearer_equals(request_header(req, "authorization"), evrus_jwt),
    }
}


// ---------------------------------------------------------------------------
// The listener and its routes
// ---------------------------------------------------------------------------

/// Where the endpoint listens and how it checks requests.
#[derive(Debug, Clone)]
pub struct ListenConfig {
    pub bind: String,
    pub port: u16,
    pub auth_mode: AuthMode,
    pub token_secret: Option<String>,
    pub evrus_jwt: Option<String>,
}

impl ListenConfig {
    /// The listener of a runtime configuration: its bind address and port,
    /// its auth mode and token, and the EVRUS connector's JWT if any.
    pub fn from_runtime(cfg: &RuntimeConfig) -> (r: ListenConfig)
        ensures
            r.bind@ == cfg.observability.http_bind@,
            r.port == cfg.observability.http_port,
            r.auth_mode == cfg.auth_mode,
            ov(r.token_secret) == ov(cfg.auth_token),
            ov(r.evrus_jwt) == match cfg.connectors.evrus {
                Some(ev) => ov(ev.jwt),
                None => None,
            },
    {
        let token_secret = match &cfg.auth_token {
            Some(t) => Some(t.clone()),
            None => None,
        };
        let evrus_jwt = match &cfg.connectors.evrus {
            Some(ev) => match &ev.jwt {
                Some(j) => Some(j.clone()),
                None => None,
            },
            None => None,
        };
        ListenConfig {
            bind: cfg.observability.http_bind.clone(),
            port: cfg.observability.http_port,
            auth_mode: cfg.auth_mode,
            token_secret,
            evrus_jwt,
        }
    }
}

/// What the endpoint answers a request with.
#[derive(Debug)]
pub enum Route {
    MethodNotAllowed,
    Unauthorized,
    Dashboard,
    Health,
    Metrics,
    Search { q: String, mode: SearchMode, limit: usize },
    Discover { q: String },
    Series { limit: usize },
    Logs { limit: usize },
    Connectors,
    NotFound,
}

/// The method and path of a request: the first two words of its first
/// line, `GET` and `/` when missing.
pub open spec fn request_target(req: Seq<char>) -> (Seq<char>, Seq<char>) {
    let ls = lines(req);
    let first = if ls.len() > 0 {
        ls[0]
    } else {
        Seq::empty()
    };
    let words = split_ws(first);
    (
        if words.len() > 0 {
            words[0]
        } else {
            "GET"@
        },
        if words.len() > 1 {
            words[1]
        } else {
            "/"@
        },
    )
}

/// A numeric query parameter: its value if it reads as a `usize`, the
/// default otherwise, clamped into `lo..=hi`.
pub open spec fn spec_limit_param(query: Seq<char>, key: Seq<char>, default: usize, lo: usize, hi: usize) -> usize {
    let v = match spec_query_param(query, key) {
        Some(s) => match parse_unsigned(s, usize::MAX as int) {
            Some(n) => n as usize,
            None => default,
        },
        None => default,
    };
    if v < lo {
        lo
    } else if v > hi {
        hi
    } else {
        v
    }
}

pub fn limit_param(query: &str, key: &str, default: usize, lo: usize, hi: usize) -> (r: usize)
    requires
        lo <= hi,
    ensures
        r == spec_limit_param(query@, key@, default, lo, hi),
{
    let v = match query_param(query, key) {
        Some(s) => {
            let w = chars_of(s);
            assert(w@.subrange(0, w@.len() as int) =~= w@);
            proof {
                crate::text::lemma_parse_unsigned_range(w@, usize::MAX as int);
            }
            match parse_unsigned_span(&w, 0, w.len(), usize::MAX as u64) {
                Some(n) => n as usize,
                None => default,
            }
        },
        None => default,
    };
    if v < lo {
        lo
    } else if v > hi {
        hi
    } else {
        v
    }
}

/// The route of a request. Anything but `GET` is refused; every route
/// but `/health` needs an authorized request; searches take the query
/// `q` (empty when missing), the mode (`hybrid` when missing) and a limit
/// (default 12, within 1..=50); the metric series a limit (default 180,
/// within 8..=2000) and the logs one (default 40, within 1..=500).
pub open spec fn spec_route(
    req: Seq<char>,
    mode: AuthMode,
    token_secret: Option<Seq<char>>,
    evrus_jwt: Option<Seq<char>>,
    r: Route,
) -> bool {
    let (method, path) = request_target(req);
    let (route, query) = spec_split_query(path);
    let q = match spec_query_param(query, "q"@) {
        Some(s) => s,
        None => Seq::empty(),
    };
    if method != "GET"@ {
        r is MethodNotAllowed
    } else if route != "/health"@ && !spec_authorized(req, mode, token_secret, evrus_jwt) {
        r is Unauthorized
    } else if route == "/"@ || route == "/index.html"@ {
        r is Dashboard
    } else if route == "/health"@ {
        r is Health
    } else if route == "/metrics"@ {
        r is Metrics
    } else if route == "/api/search"@ {
        r matches Route::Search { q: rq, mode: m, limit } && rq@ == q && m == SearchMode::from_name(
            ascii_lower(
                trim(
                    match spec_query_param(query, "mode"@) {
                        Some(s) => s,
                        None => "hybrid"@,
                    },
                ),
            ),
        ) && limit == spec_limit_param(query, "limit"@, 12, 1, 50)
    } else if route == "/api/discover"@ {
        r matches Route::Discover { q: rq } && rq@ == q
    } else if route == "/api/metrics/series"@ {
        r matches Route::Series { limit } && limit == spec_limit_param(query, "limit"@, 180, 8, 2000)
    } else if route == "/api/logs"@ {
        r matches Route::Logs { limit } && limit == spec_limit_param(query, "limit"@, 40, 1, 500)
    } else if route == "/api/connectors"@ {
        r is Connectors
    } else {
        r is NotFound
    }
}

fn copy_span(v: &Vec<char>, a: usize, b: usize) -> (r: Vec<char>)
    requires
        a <= b <= v@.len(),
    ensures
        r@ == v@.subrange(a as int, b as int),
{
    let mut w: Vec<char> = Vec::new();
    let mut t = a;
    while t < b
        invariant
            a <= t <= b <= v@.len(),
            w@ == v@.subrange(a as int, t as int),
        decreases b - t,
    {
        w.push(v[t]);
        assert(w@ =~= v@.subrange(a as int, t + 1));
        t = t + 1;
    }
    w
}

fn request_target_of<'a>(req: &'a str) -> (r: (&'a str, &'a str))
    ensures
        (r.0@, r.1@) == request_target(req@),
{
    let v = chars_of(req);
    let ls = line_spans(&v);
    let (a, b) = if ls.len() > 0 {
        ls[0]
    } else {
        (0, 0)
    };
    let first = copy_span(&v, a, b);
    proof {
        if ls@.len() == 0 {
            assert(first@ =~= Seq::<char>::empty());
        }
    }
    let ws = split_ws_spans(&first);
    let method = if ws.len() > 0 {
        let (x, y) = ws[0];
        assert(first@.subrange(x as int, y as int) =~= v@.subrange(a + x, a + y));
        req.substring_char(a + x, a + y)
    } else {
        "GET"
    };
    let path = if ws.len() > 1 {
        let (x, y) = ws[1];
        assert(first@.subrange(x as int, y as int) =~= v@.subrange(a + x, a + y));
        req.substring_char(a + x, a + y)
    } else {
        "/"
    };
    (method, path)
}

/// Chooses the route that answers a request.
pub fn route_request(
    req: &str,
    mode: AuthMode,
    token_secret: Option<&str>,
    evrus_jwt: Option<&str>,
) -> (r: Route)
    ensures
        spec_route(req@, mode, opt_view(token_secret), opt_view(evrus_jwt), r),
{
    let (method, path) = request_target_of(req);
    if !str_eq(method, "GET") {
        return Route::MethodNotAllowed;
    }
    let (route, query) = split_query(path);
    let is_health = str_eq(route, "/health");
    if !is_health && !authorized(req, mode, token_secret, evrus_jwt) {
        return Route::Unauthorized;
    }
    if str_eq(route, "/") || str_eq(route, "/index.html") {
        Route::Dashboard
    } else if is_health {
        Route::Health
    } else if str_eq(route, "/metrics") {
        Route::Metrics
    } else if str_eq(route, "/api/search") {
        let q = match query_param(query, "q") {
            Some(s) => s.to_owned(),
            None => String::new(),
        };
        let m = match query_param(query, "mode") {
            Some(s) => SearchMode::from_env(s),
            None => SearchMode::from_env("hybrid"),
        };
        Route::Search { q, mode: m, limit: limit_param(query, "limit", 12, 1, 50) }
    } else if str_eq(route, "/api/discover") {
        let q = match query_param(query, "q") {
            Some(s) => s.to_owned(),
            None => String::new(),
        };
        Route::Discover { q }
    } else if str_eq(route, "/api/metrics/series") {
        Route::Series { limit: limit_param(query, "limit", 180, 8, 2000) }
    } else if str_eq(route, "/api/logs") {
        Route::Logs { limit: limit_param(query, "limit", 40, 1, 500) }
    } else if str_eq(route, "/api/connectors") {
        Route::Connectors
    } else {
        Route::NotFound
    }
}

/// The reason phrase of the statuses the endpoint sends.
pub open spec fn spec_reason(status: u16) -> Seq<char> {
    if status == 200 {
        "OK"@
    } else if status == 401 {
        "Unauthorized"@
    } else if status == 404 {
        "Not Found"@
    } else if status == 405 {
        "Method Not Allowed"@
    } else {
        "Error"@
    }
}

/// The head of a response: status line, content type and length, the
/// no-store, no-sniff and no-frame headers, a bearer challenge on 401,
/// and `Connection: close`.
pub open spec fn spec_response_head(status: u16, content_type: Seq<char>, body_len: usize) -> Seq<char> {
    "HTTP/1.1 "@ + decimal(status as nat) + " "@ + spec_reason(status) + "\r\nContent-Type: "@
        + content_type + "\r\nContent-Length: "@ + decimal(body_len as nat)
        + "\r\nCache-Control: no-store\r\nX-Content-Type-Options: nosniff\r\nX-Frame-Options: DENY\r\n"@
        + (if status == 401 {
        "WWW-Authenticate: Bearer realm=\"sentinel\"\r\n"@
    } else {
        Seq::empty()
    }) + "Connection: close\r\n\r\n"@
}

pub fn response_head(status: u16, content_type: &str, body_len: usize) -> (r: String)
    ensures
        r@ == spec_response_head(status, content_type@, body_len),
{
    let reason = if status == 200 {
        "OK"
    } else if status == 401 {
        "Unauthorized"
    } else if status == 404 {
        "Not Found"
    } else if status == 405 {
        "Method Not Allowed"
    } else {
        "Error"
    };
    let mut out = "HTTP/1.1 ".to_owned();
    let st = u64_to_decimal(status as u64);
    out.append(st.as_str());
    out.append(" ");
    out.append(reason);
    out.append("\r\nContent-Type: ");
    out.append(content_type);
    out.append("\r\nContent-Length: ");
    let len = u64_to_decimal(body_len as u64);
    out.append(len.as_str());
    out.append(
        "\r\nCache-Control: no-store\r\nX-Content-Type-Options: nosniff\r\nX-Frame-Options: DENY\r\n",
    );
    if status == 401 {
        out.append("WWW-Authenticate: Bearer realm=\"sentinel\"\r\n");
    } else {
        proof {
            reveal_strlit("");
        }
        out.append("");
    }
    out.append("Connection: close\r\n\r\n");
    out
}

/// `/health` is never refused for want of authorization, and no other
/// route is reached by an unauthorized request.
pub proof fn law_only_health_is_open(
    req: Seq<char>,
    mode: AuthMode,
    token_secret: Option<Seq<char>>,
    evrus_jwt: Option<Seq<char>>,
    r: Route,
)
    requires
        spec_route(req, mode, token_secret, evrus_jwt, r),
        request_target(req).0 == "GET"@,
        !spec_authorized(req, mode, token_secret, evrus_jwt),
    ensures
        spec_split_query(request_target(req).1).0 == "/health"@ ==> r is Health,
        spec_split_query(request_target(req).1).0 != "/health"@ ==> r is Unauthorized,
{
    reveal_strlit("/health");
    reveal_strlit("/");
    reveal_strlit("/index.html");
    assert("/health"@.len() != "/"@.len());
    assert("/health"@.len() != "/index.html"@.len());
    assert("/health"@ != "/"@);
    assert("/health"@ != "/index.html"@);
}

/// Every limit the endpoint uses lies within its bounds.
pub proof fn law_limits_are_clamped(query: Seq<char>, key: Seq<char>, default: usize, lo: usize, hi: usize)
    requires
        lo <= hi,
    ensures
        lo <= spec_limit_param(query, key, default, lo, hi) <= hi,
{
}

/// The request that the health check sends.
pub const HEALTHCHECK_REQUEST: &'static str = "GET /health HTTP/1.1\r\nHost: 127.0.0.1\r\nConnection: close\r\n\r\n";

/// A health check passes when the reply reports `"ok":true` or a 200 status.
pub open spec fn spec_healthcheck_ok(reply: Seq<char>) -> bool {
    crate::text::contains_seq(reply, "\"ok\":true"@) || crate::text::contains_seq(reply, "HTTP/1.1 200"@)
}

pub fn healthcheck_ok(reply: &str) -> (r: bool)
    ensures
        r == spec_healthcheck_ok(reply@),
{
    crate::text::str_contains(reply, "\"ok\":true") || crate::text::str_contains(reply, "HTTP/1.1 200")
}

} // verus!
