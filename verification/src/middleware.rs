//! The decisions of the two request middlewares: which requests the login check
//! lets through, and which htmx headers a query string asks for.
use vstd::prelude::*;
use vstd::string::*;

use crate::text::{
    chars_of, contains_text, occurs_at, has_prefix, has_substring, lemma_split_from_keeps_done,
    lemma_split_from_run, skip_chars, split_chars, split_from, split_on, string_of, vec_has_prefix,
    views_of,
};

verus! {

// ---------------------------------------------------------------------------
// Login check
// ---------------------------------------------------------------------------

/// The middleware factory that checks the login session of each request.
pub struct CheckLogin;

/// The login-check middleware wrapped around an inner service.
pub struct CheckLoginMiddleware<S> {
    service: S,
}

/// What the login check does with a response of the inner service.
#[derive(Debug, Clone, Copy, PartialEq, Eq, Structural)]
pub enum LoginGate {
    /// Hand the response on unchanged.
    Forward,
    /// Turn the response into a `302 Found` redirect to `/login`.
    RedirectToLogin,
}

/// Paths that the login check never touches: static files, the auth and test
/// endpoints, and the login pages.
pub open spec fn is_public_path(path: Seq<char>) -> bool {
    ||| "/static/"@.is_prefix_of(path)
    ||| "/auth/"@.is_prefix_of(path)
    ||| "/tests/"@.is_prefix_of(path)
    ||| "/login"@.is_prefix_of(path)
}

/// The login check's decision for a request to `path` whose session holds a
/// `session` entry exactly when `has_session`.
pub open spec fn login_gate(path: Seq<char>, has_session: bool) -> LoginGate {
    if is_public_path(path) {
        LoginGate::Forward
    } else if has_session {
        LoginGate::RedirectToLogin
    } else {
        LoginGate::Forward
    }
}

/// Whether `path` is one that the login check lets through untouched.
pub fn public_path(path: &str) -> (res: bool)
    ensures
        res == is_public_path(path@),
{
    has_prefix(path, "/static/") || has_prefix(path, "/auth/") || has_prefix(path, "/tests/")
        || has_prefix(path, "/login")
}

impl CheckLogin {
    /// Wraps `service` in the login check.
    pub fn new_transform<S>(&self, service: S) -> (res: CheckLoginMiddleware<S>)
        ensures
            res.inner() == service,
    {
        CheckLoginMiddleware { service }
    }
}

impl<S> CheckLoginMiddleware<S> {
    /// The wrapped service.
    pub closed spec fn inner(&self) -> S {
        self.service
    }

    /// The wrapped service.
    pub fn service(&self) -> (res: &S)
        ensures
            *res == self.inner(),
    {
        &self.service
    }

    /// The decision for one request: `path` is the request's path, `has_session`
    /// whether its session holds a `session` entry once the inner service answered.
    pub fn call(&self, path: &str, has_session: bool) -> (res: LoginGate)
        ensures
            res == login_gate(path@, has_session),
    {
        if public_path(path) {
            LoginGate::Forward
        } else if has_session {
            LoginGate::RedirectToLogin
        } else {
            LoginGate::Forward
        }
    }
}

// ---------------------------------------------------------------------------
// htmx refresh and location headers
// ---------------------------------------------------------------------------

/// The middleware factory that turns query parameters into htmx headers.
pub struct RefreshMiddleware;

/// The refresh middleware wrapped around an inner service.
pub struct RefreshMiddlewareService<S> {
    service: S,
}

/// The headers that the refresh middleware adds to a response.
#[derive(Debug, Clone, PartialEq, Eq)]
pub struct RefreshHeaders {
    /// Add `hx-refresh: true`.
    pub hx_refresh: bool,
    /// Add `hx-location` with this value.
    pub hx_location: Option<String>,
}

/// A byte sequence that `http` accepts as a header value: every byte is at
/// least 32 and not 127, or is a tab. On characters: every character is a tab,
/// or at least a space and not DEL (characters beyond ASCII are encoded with
/// bytes of 128 and more, all accepted).
pub open spec fn valid_header_value(s: Seq<char>) -> bool {
    forall|i: int|
        0 <= i < s.len() ==> #[trigger] (s[i] as u32) == 9 || (32 <= (s[i] as u32) && (s[i]
            as u32) != 127)
}

/// `HeaderValue::from_str(s).is_ok()` of the `http` crate that actix-web
/// re-exports: the source accepts exactly the strings whose UTF-8 bytes are
/// all tabs or at least 32 and not 127.
#[verifier::external_body]
fn header_value_accepts(s: &str) -> (res: bool)
    ensures
        res == valid_header_value(s@),
{
    actix_web::http::header::HeaderValue::from_str(s).is_ok()
}

/// The value of the first `&`-separated piece of `pieces` that begins with
/// `key` (the key with its `=`), the rest of that piece.
pub open spec fn first_value(pieces: Seq<Seq<char>>, key: Seq<char>) -> Option<Seq<char>>
    decreases pieces.len(),
{
    if pieces.len() == 0 {
        None
    } else if key.is_prefix_of(pieces[0]) {
        Some(pieces[0].skip(key.len() as int))
    } else {
        first_value(pieces.drop_first(), key)
    }
}

/// The value of the first `location` parameter of `query`: of the pieces
/// between `&`, the first whose text before its first `=` is `location` and
/// that has an `=`; its value is what follows that `=`.
pub open spec fn location_param(query: Seq<char>) -> Option<Seq<char>> {
    first_value(split_on(query, '&'), "location="@)
}

/// The query asks for a page refresh: it holds the text `refresh=true`.
pub open spec fn refresh_requested(query: Seq<char>) -> bool {
    contains_text(query, "refresh=true"@)
}

/// The `location` parameter of `query`, if there is one.
pub fn location_of(query: &str) -> (res: Option<String>)
    ensures
        res matches Some(v) ==> location_param(query@) == Some(v@),
        res is None ==> location_param(query@) is None,
{
    let q = chars_of(query);
    let pieces = split_chars(&q, '&');
    let key = chars_of("location=");
    let n = pieces.len();
    assert(views_of(pieces@).skip(0) == views_of(pieces@));
    for i in 0..n
        invariant
            n == pieces.len(),
            key@ == "location="@,
            views_of(pieces@) == split_on(query@, '&'),
            location_param(query@) == first_value(views_of(pieces@).skip(i as int), key@),
    {
        let ghost rest = views_of(pieces@).skip(i as int);
        assert(rest[0] == pieces@[i as int]@);
        assert(rest.drop_first() =~= views_of(pieces@).skip(i + 1));
        if vec_has_prefix(&pieces[i], &key) {
            let v = skip_chars(&pieces[i], key.len());
            return Some(string_of(&v));
        }
    }
    assert(views_of(pieces@).skip(n as int) =~= Seq::<Seq<char>>::empty());
    None
}

/// A query that begins with the parameter `location=v`, followed by nothing or
/// by `&` and more parameters, names the location `v`: the refresh middleware
/// then sends `hx-location: v` whenever `v` is a valid header value.
pub proof fn law_leading_location_is_read(v: Seq<char>, rest: Seq<char>)
    requires
        !v.contains('&'),
        rest.len() == 0 || rest[0] == '&',
    ensures
        location_param("location="@ + v + rest) == Some(v),
{
    reveal_strlit("location=");
    let key = "location="@;
    let p = key + v;
    assert(!p.contains('&')) by {
        if p.contains('&') {
            let k = choose|k: int| 0 <= k < p.len() && p[k] == '&';
            if k < key.len() {
                assert(p[k] == key[k]);
            } else {
                assert(p[k] == v[k - key.len()]);
                assert(v.contains('&'));
            }
        }
    }
    assert(key + v + rest =~= p + rest);
    lemma_split_from_run(p, rest, '&', Seq::empty(), Seq::empty());
    assert(Seq::<char>::empty() + p =~= p);
    let pieces = split_on(key + v + rest, '&');
    assert(pieces == split_from(rest, '&', p, Seq::empty()));
    if rest.len() == 0 {
        assert(pieces == Seq::<Seq<char>>::empty().push(p));
    } else {
        assert(pieces == split_from(rest.drop_first(), '&', Seq::empty(), Seq::<Seq<char>>::empty().push(p)));
        lemma_split_from_keeps_done(rest.drop_first(), '&', Seq::empty(), Seq::<Seq<char>>::empty().push(p));
        assert(Seq::<Seq<char>>::empty().push(p)[0] == p);
    }
    assert(pieces[0] == p);
    assert(p.subrange(0, key.len() as int) =~= key);
    assert(key.is_prefix_of(pieces[0]));
    assert(p.skip(key.len() as int) =~= v);
}

/// The text `refresh=true` anywhere in a query asks for a refresh, whatever
/// stands before or after it, across `&` included.
pub proof fn law_refresh_anywhere(a: Seq<char>, b: Seq<char>)
    ensures
        refresh_requested(a + "refresh=true"@ + b),
{
    let pat = "refresh=true"@;
    let q = a + pat + b;
    assert(q.subrange(a.len() as int, (a.len() + pat.len()) as int) =~= pat);
    assert(occurs_at(q, pat, a.len() as int));
}

/// A query asks for a refresh only when it holds the text `refresh=true`.
pub proof fn law_refresh_needs_the_text(query: Seq<char>)
    requires
        refresh_requested(query),
    ensures
        exists|i: int|
            0 <= i && i + 12 <= query.len() && #[trigger] query.subrange(i, i + 12) == "refresh=true"@,
{
    reveal_strlit("refresh=true");
    let i = choose|i: int| occurs_at(query, "refresh=true"@, i);
    assert(query.subrange(i, i + 12) == "refresh=true"@);
}

/// The login check never touches a public path, whatever the session holds.
pub proof fn law_public_paths_pass(path: Seq<char>, has_session: bool)
    requires
        is_public_path(path),
    ensures
        login_gate(path, has_session) == LoginGate::Forward,
{
}

/// A request whose session holds no `session` entry is handed on unchanged.
pub proof fn law_requests_without_session_pass(path: Seq<char>)
    ensures
        login_gate(path, false) == LoginGate::Forward,
{
}

impl RefreshMiddleware {
    /// Wraps `service` in the refresh middleware.
    pub fn new_transform<S>(&self, service: S) -> (res: RefreshMiddlewareService<S>)
        ensures
            res.inner() == service,
    {
        RefreshMiddlewareService { service }
    }
}

impl<S> RefreshMiddlewareService<S> {
    /// The wrapped service.
    pub closed spec fn inner(&self) -> S {
        self.service
    }

    /// The wrapped service.
    pub fn service(&self) -> (res: &S)
        ensures
            *res == self.inner(),
    {
        &self.service
    }

    /// The headers to add to the response of a request with query string
    /// `query`: `hx-refresh` when it asks for a refresh, and `hx-location` with
    /// its `location` parameter when that is a valid header value.
    pub fn call(&self, query: &str) -> (res: RefreshHeaders)
        ensures
            res.hx_refresh == refresh_requested(query@),
            res.hx_refresh == contains_text(query@, "refresh=true"@),
            res.hx_location is Some <==> (location_param(query@) matches Some(v)
                && valid_header_value(v)),
            res.hx_location matches Some(v) ==> location_param(query@) == Some(v@),
    {
        let refresh = has_substring(query, "refresh=true");
        let location = location_of(query);
        let hx_location = match location {
            Some(v) => {
                if header_value_accepts(v.as_str()) {
                    Some(v)
                } else {
                    None
                }
            },
            None => None,
        };
        RefreshHeaders { hx_refresh: refresh, hx_location }
    }
}

} // verus!
