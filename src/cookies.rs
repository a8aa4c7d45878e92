//! Reading the session token out of a request's `Cookie` header.
//!
//! The header is a list of `name=value` segments separated by `;`. Spaces and
//! tabs around segments and names are not part of them (a header that reaches
//! here as text holds no other whitespace). The session segment is the first
//! one whose name is exactly the session cookie's name; its value is read by
//! the `cookie` crate.

use vstd::prelude::*;
use vstd::string::*;

verus! {

/// The name of the cookie that carries the session token.
pub const SESSION_COOKIE: &'static str = "Authorization";

/// The name of the cookie that carries the anti-forgery token.
pub const CSRF_COOKIE: &'static str = "XSRF-TOKEN";

/// Optional whitespace around cookie names and values.
pub open spec fn is_ows(c: char) -> bool {
    c == ' ' || c == '\t'
}

/// The first index in `[i, j)` holding `c`, or `j`.
pub open spec fn find_in(s: Seq<char>, c: char, i: int, j: int) -> int
    decreases j - i,
{
    if i >= j {
        j
    } else if s[i] == c {
        i
    } else {
        find_in(s, c, i + 1, j)
    }
}

/// The first index in `[i, j)` not holding whitespace, or `j`.
pub open spec fn skip_ows(s: Seq<char>, i: int, j: int) -> int
    decreases j - i,
{
    if i >= j {
        j
    } else if is_ows(s[i]) {
        skip_ows(s, i + 1, j)
    } else {
        i
    }
}

/// The end of `[i, j)` once trailing whitespace is left out.
pub open spec fn back_ows(s: Seq<char>, i: int, j: int) -> int
    decreases j - i,
{
    if j <= i {
        i
    } else if is_ows(s[j - 1]) {
        back_ows(s, i, j - 1)
    } else {
        j
    }
}

/// `s[i..j]` without surrounding whitespace.
pub open spec fn trimmed(s: Seq<char>, i: int, j: int) -> Seq<char> {
    let a = skip_ows(s, i, j);
    s.subrange(a, back_ows(s, a, j))
}

/// A segment whose name, the text before its first `=` without surrounding
/// whitespace, is exactly the session cookie's name.
pub open spec fn names_session(seg: Seq<char>) -> bool {
    let e = find_in(seg, '=', 0, seg.len() as int);
    e < seg.len() && trimmed(seg, 0, e) == SESSION_COOKIE@
}

/// The first session segment, without surrounding whitespace, among the
/// segments that start at `i`.
pub open spec fn session_segment_from(s: Seq<char>, i: int) -> Option<Seq<char>>
    decreases s.len() - i,
{
    if i < 0 || i > s.len() {
        None
    } else {
        let j = find_in(s, ';', i, s.len() as int);
        let seg = trimmed(s, i, j);
        if names_session(seg) {
            Some(seg)
        } else if j < i || j >= s.len() {
            None
        } else {
            session_segment_from(s, j + 1)
        }
    }
}

/// The session segment that a `Cookie` header carries, if any.
pub open spec fn session_segment(header: Seq<char>) -> Option<Seq<char>> {
    session_segment_from(header, 0)
}

/// A printable ASCII character other than space: never whitespace.
pub open spec fn is_graphic(c: char) -> bool {
    0x21 <= (c as u32) <= 0x7e
}

/// What `Cookie::parse` gives as the value of a session segment.
pub uninterp spec fn cookie_parsed_value(seg: Seq<char>) -> Seq<char>;

/// The value of a session segment: the text after its first `=`, without
/// surrounding whitespace. Where that text, stripped of spaces and tabs, is
/// empty or starts and ends with a printable ASCII character, that is all of
/// it; otherwise it is whatever the `cookie` crate's trimming leaves.
pub open spec fn session_cookie_value(seg: Seq<char>) -> Seq<char> {
    if has_plain_value(seg) {
        value_text(seg)
    } else {
        cookie_parsed_value(seg)
    }
}

/// The text after the first `=`, without surrounding spaces and tabs.
pub open spec fn value_text(seg: Seq<char>) -> Seq<char> {
    trimmed(seg, find_in(seg, '=', 0, seg.len() as int) + 1, seg.len() as int)
}

/// The value text is empty, or starts and ends with a printable ASCII character.
pub open spec fn has_plain_value(seg: Seq<char>) -> bool {
    let v = value_text(seg);
    v.len() == 0 || (is_graphic(v[0]) && is_graphic(v.last()))
}

#[verifier::external_type_specification]
#[verifier::external_body]
pub struct ExCookieParseError(cookie::ParseError);

/// Relies on `cookie::Cookie::parse` and `Cookie::value`. Without a `;` the
/// whole text is the `name=value` pair: split at the first `=`, both sides
/// trimmed of whitespace, refused only when there is no `=` or the name is
/// empty. A session segment's name is non-empty, so parsing succeeds. Spaces
/// and tabs are whitespace and printable ASCII characters are not, which
/// gives the value that `session_cookie_value` states.
#[verifier::external_body]
fn parse_session_value(seg: &str) -> (r: Result<String, cookie::ParseError>)
    requires
        names_session(seg@),
        !seg@.contains(';'),
    ensures
        r is Ok,
        r matches Ok(v) ==> v@ == (if has_plain_value(seg@) {
            value_text(seg@)
        } else {
            cookie_parsed_value(seg@)
        }),
{
    let c = cookie::Cookie::parse(seg)?;
    Ok(c.value().to_owned())
}

#[derive(Debug, Clone, Copy, PartialEq, Eq, Structural)]
pub enum CookieError {
    /// The request has no `Cookie` header.
    NoCookieHeader,
    /// The header holds no session cookie.
    NoAuthCookie,
}

fn find_char(s: &str, c: char, i: usize, j: usize) -> (r: usize)
    requires
        i <= j <= s@.len(),
    ensures
        r == find_in(s@, c, i as int, j as int),
        i <= r <= j,
        forall|k: int| i <= k < r ==> s@[k] != c,
{
    let mut k = i;
    while k < j
        invariant
            i <= k <= j,
            j <= s@.len(),
            find_in(s@, c, i as int, j as int) == find_in(s@, c, k as int, j as int),
            forall|m: int| i <= m < k ==> s@[m] != c,
        decreases j - k,
    {
        if s.get_char(k) == c {
            return k;
        }
        k = k + 1;
    }
    k
}

fn skip_space(s: &str, i: usize, j: usize) -> (r: usize)
    requires
        i <= j <= s@.len(),
    ensures
        r == skip_ows(s@, i as int, j as int),
        i <= r <= j,
{
    let mut k = i;
    while k < j
        invariant
            i <= k <= j,
            j <= s@.len(),
            skip_ows(s@, i as int, j as int) == skip_ows(s@, k as int, j as int),
        decreases j - k,
    {
        let ch = s.get_char(k);
        if ch != ' ' && ch != '\t' {
            return k;
        }
        k = k + 1;
    }
    k
}

fn back_space(s: &str, i: usize, j: usize) -> (r: usize)
    requires
        i <= j <= s@.len(),
    ensures
        r == back_ows(s@, i as int, j as int),
        i <= r <= j,
{
    let mut k = j;
    while k > i
        invariant
            i <= k <= j,
            j <= s@.len(),
            back_ows(s@, i as int, j as int) == back_ows(s@, i as int, k as int),
        decreases k - i,
    {
        let ch = s.get_char(k - 1);
        if ch != ' ' && ch != '\t' {
            return k;
        }
        k = k - 1;
    }
    k
}

/// Whether `s[i..j]` holds exactly the characters of `t`.
fn range_is(s: &str, i: usize, j: usize, t: &str) -> (r: bool)
    requires
        i <= j <= s@.len(),
    ensures
        r == (s@.subrange(i as int, j as int) == t@),
{
    let n = t.unicode_len();
    if j - i != n {
        return false;
    }
    let mut k: usize = 0;
    while k < n
        invariant
            n == t@.len(),
            j - i == n,
            i <= j <= s@.len(),
            k <= n,
            forall|m: int| 0 <= m < k ==> s@[i + m] == t@[m],
        decreases n - k,
    {
        if s.get_char(i + k) != t.get_char(k) {
            assert(s@.subrange(i as int, j as int)[k as int] != t@[k as int]);
            return false;
        }
        k = k + 1;
    }
    assert(s@.subrange(i as int, j as int) =~= t@);
    true
}

/// Whether `seg` names the session cookie.
fn is_session_segment(seg: &str) -> (r: bool)
    ensures
        r == names_session(seg@),
{
    let n = seg.unicode_len();
    let e = find_char(seg, '=', 0, n);
    if e < n {
        let a = skip_space(seg, 0, e);
        let b = back_space(seg, a, e);
        range_is(seg, a, b, SESSION_COOKIE)
    } else {
        false
    }
}

/// The session segment of a `Cookie` header: the first `;`-separated
/// segment, without surrounding whitespace, named exactly like the session
/// cookie.
pub fn extract_auth_cookie(header: Option<&str>) -> (r: Result<String, CookieError>)
    ensures
        match header {
            None => r == Err::<String, CookieError>(CookieError::NoCookieHeader),
            Some(h) => match session_segment(h@) {
                Some(seg) => r matches Ok(t) && t@ == seg,
                None => r == Err::<String, CookieError>(CookieError::NoAuthCookie),
            },
        },
        r matches Ok(t) ==> names_session(t@) && !t@.contains(';'),
{
    let h = match header {
        Some(h) => h,
        None => return Err(CookieError::NoCookieHeader),
    };
    let n = h.unicode_len();
    let mut i: usize = 0;
    loop
        invariant
            n == h@.len(),
            header == Some(h),
            i <= n,
            session_segment(h@) == session_segment_from(h@, i as int),
        decreases n - i,
    {
        let j = find_char(h, ';', i, n);
        let a = skip_space(h, i, j);
        let b = back_space(h, a, j);
        let seg = h.substring_char(a, b);
        if is_session_segment(seg) {
            assert(forall|k: int| 0 <= k < seg@.len() ==> seg@[k] == h@[a + k]);
            assert(!seg@.contains(';'));
            return Ok(seg.to_owned());
        }
        if j >= n {
            return Err(CookieError::NoAuthCookie);
        }
        i = j + 1;
    }
}

/// The session token of a `Cookie` header: the value of its session segment.
pub fn session_token(header: Option<&str>) -> (r: Result<String, CookieError>)
    ensures
        match header {
            None => r == Err::<String, CookieError>(CookieError::NoCookieHeader),
            Some(h) => match session_segment(h@) {
                Some(seg) => r matches Ok(t) && t@ == session_cookie_value(seg),
                None => r == Err::<String, CookieError>(CookieError::NoAuthCookie),
            },
        },
{
    let seg = extract_auth_cookie(header)?;
    match parse_session_value(seg.as_str()) {
        Ok(v) => Ok(v),
        Err(_) => Err(CookieError::NoAuthCookie),
    }
}

} // verus!
