//! The session flows: login, checking a presented token or cookie, logout,
//! and issuing the anti-forgery cookie. The user store and the clock are
//! read by the caller and handed in.

use vstd::prelude::*;
use crate::cookies::{
    find_in, session_cookie_value, session_segment, session_token, CookieError, CSRF_COOKIE, SESSION_COOKIE,
};
use crate::csrf::{csrf_token, CSRFTokenService, CsrfError};
use crate::password::{check_outcome, HashService};
use crate::records::{LoginBody, LoginResponse, User};
use crate::token::{is_token_char, accepted_claims, expiry_for, hs256_claims, Claims, JwtService, TokenError, SESSION_TTL_SECS};

verus! {

/// Seconds an anti-forgery cookie stays valid: one day.
pub const CSRF_TTL_SECS: i64 = 3600 * 24;

/// A cookie to set on the client, with its attributes.
#[derive(Debug, Clone)]
pub struct SessionCookie {
    pub name: String,
    pub value: String,
    pub path: String,
    pub secure: bool,
    pub http_only: bool,
    pub same_site_strict: bool,
    /// Unix time at which the client drops the cookie.
    pub expires_at: i64,
}

/// The attributes every cookie of this service carries: path `/`, `Secure`,
/// `HttpOnly` and `SameSite=Strict`.
pub open spec fn is_hardened(c: SessionCookie) -> bool {
    &&& c.path@ == "/"@
    &&& c.secure
    &&& c.http_only
    &&& c.same_site_strict
}

fn hardened_cookie(name: &str, value: String, expires_at: i64) -> (r: SessionCookie)
    ensures
        r.name@ == name@,
        r.value == value,
        r.expires_at == expires_at,
        is_hardened(r),
{
    SessionCookie {
        name: name.to_owned(),
        value,
        path: "/".to_owned(),
        secure: true,
        http_only: true,
        same_site_strict: true,
        expires_at,
    }
}

/// What a successful login hands back: the response body and the session cookie.
#[derive(Debug, Clone)]
pub struct LoginSuccess {
    pub response: LoginResponse,
    pub cookie: SessionCookie,
}

#[derive(Debug, Clone, Copy, PartialEq, Eq, Structural)]
pub enum LoginError {
    /// The password does not match, or could not be checked.
    BadCredentials,
    /// No token could be issued.
    Token(TokenError),
}

#[derive(Debug, Clone, Copy, PartialEq, Eq, Structural)]
pub enum SessionError {
    /// The request has no `Authorization` header.
    MissingHeader,
    Cookie(CookieError),
    Token(TokenError),
}

pub open spec fn opt_view(s: Option<&str>) -> Option<Seq<char>> {
    match s {
        Some(t) => Some(t@),
        None => None,
    }
}

/// The claims that a `Cookie` header's session token carries and that are
/// accepted under `key` at time `now`.
pub open spec fn cookie_claims(header: Option<Seq<char>>, key: Seq<u8>, now: i64) -> Option<(Seq<char>, u64)> {
    match header {
        Some(h) => match session_segment(h) {
            Some(seg) => accepted_claims(session_cookie_value(seg), key, now),
            None => None,
        },
        None => None,
    }
}

/// Logs in `user`, found by the caller under the email of `body`, at time `now`.
/// Succeeds exactly when the password matches and a token can be issued; the
/// session cookie carries the token and expires with it, twenty days on.
pub fn login(user: &User, body: &LoginBody, jwt: &JwtService, now: i64) -> (r: Result<LoginSuccess, LoginError>)
    ensures
        check_outcome(body.password@, user.password@) != Ok::<bool, crate::password::HashError>(true) ==> r
            == Err::<LoginSuccess, LoginError>(LoginError::BadCredentials),
        check_outcome(body.password@, user.password@) == Ok::<bool, crate::password::HashError>(true)
            && user.email@.len() == 0 ==> r == Err::<LoginSuccess, LoginError>(
            LoginError::Token(TokenError::InvalidSubject),
        ),
        check_outcome(body.password@, user.password@) == Ok::<bool, crate::password::HashError>(true)
            && user.email@.len() > 0 && !(0 <= now <= crate::token::LATEST_ISSUE_TIME) ==> r
            == Err::<LoginSuccess, LoginError>(LoginError::Token(TokenError::ClockOutOfRange)),
        check_outcome(body.password@, user.password@) == Ok::<bool, crate::password::HashError>(true)
            && user.email@.len() > 0 && 0 <= now <= crate::token::LATEST_ISSUE_TIME ==> r is Ok,
        r matches Ok(s) ==> {
            &&& check_outcome(body.password@, user.password@) == Ok::<bool, crate::password::HashError>(true)
            &&& s.response.email@ == user.email@
            &&& s.response.role@ == user.role@
            &&& hs256_claims(s.response.token@, jwt.key()) == Some((user.email@, expiry_for(now) as u64))
            &&& s.cookie.name@ == SESSION_COOKIE@
            &&& s.cookie.value@ == s.response.token@
            &&& s.response.token@.len() > 0
            &&& 0 <= now <= crate::token::LATEST_ISSUE_TIME
            &&& forall|i: int| 0 <= i < s.response.token@.len() ==> is_token_char(#[trigger] s.response.token@[i])
            &&& s.cookie.expires_at == expiry_for(now)
            &&& is_hardened(s.cookie)
        },
{
    match HashService::check_password(body.password.as_str(), user.password.as_str()) {
        Ok(true) => {},
        _ => return Err(LoginError::BadCredentials),
    }
    let token = match jwt.issue_at(user.email.as_str(), now) {
        Ok(t) => t,
        Err(e) => return Err(LoginError::Token(e)),
    };
    let cookie = hardened_cookie(SESSION_COOKIE, token.clone(), now + SESSION_TTL_SECS as i64);
    let response = LoginResponse { token, email: user.email.clone(), role: user.role.clone() };
    Ok(LoginSuccess { response, cookie })
}

/// Checks the token presented in an `Authorization` header at time `now`.
/// The caller then confirms that the subject is still a user.
pub fn check_token(authorization: Option<&str>, jwt: &JwtService, now: i64) -> (r: Result<Claims, SessionError>)
    ensures
        authorization is None ==> r == Err::<Claims, SessionError>(SessionError::MissingHeader),
        authorization matches Some(t) ==> {
            &&& r is Ok <==> accepted_claims(t@, jwt.key(), now) is Some
            &&& r matches Ok(c) ==> accepted_claims(t@, jwt.key(), now) == Some((c.sub@, c.exp))
            &&& r matches Err(e) ==> e is Token
        },
{
    match authorization {
        None => Err(SessionError::MissingHeader),
        Some(t) => match jwt.verify_at(t, now) {
            Ok(c) => Ok(c),
            Err(e) => Err(SessionError::Token(e)),
        },
    }
}

/// Checks the session cookie of a `Cookie` header at time `now`.
/// The caller then confirms that the subject is still a user.
pub fn check_cookie(cookie_header: Option<&str>, jwt: &JwtService, now: i64) -> (r: Result<Claims, SessionError>)
    ensures
        r is Ok <==> cookie_claims(opt_view(cookie_header), jwt.key(), now) is Some,
        r matches Ok(c) ==> cookie_claims(opt_view(cookie_header), jwt.key(), now) == Some((c.sub@, c.exp)),
        cookie_header is None ==> r == Err::<Claims, SessionError>(SessionError::Cookie(CookieError::NoCookieHeader)),
        cookie_header matches Some(h) && session_segment(h@) is None ==> r == Err::<Claims, SessionError>(
            SessionError::Cookie(CookieError::NoAuthCookie),
        ),
        cookie_header matches Some(h) && session_segment(h@) is Some ==> (r matches Err(e) ==> e is Token),
{
    let token = match session_token(cookie_header) {
        Ok(t) => t,
        Err(e) => return Err(SessionError::Cookie(e)),
    };
    match jwt.verify_at(token.as_str(), now) {
        Ok(c) => Ok(c),
        Err(e) => Err(SessionError::Token(e)),
    }
}

/// Logs out at time `now`: only a valid session can be ended, and the answer
/// is the session cookie emptied and already expired, so the client drops it.
pub fn logout(cookie_header: Option<&str>, jwt: &JwtService, now: i64) -> (r: Result<SessionCookie, SessionError>)
    ensures
        r is Ok <==> cookie_claims(opt_view(cookie_header), jwt.key(), now) is Some,
        r matches Ok(c) ==> {
            &&& c.name@ == SESSION_COOKIE@
            &&& c.value@.len() == 0
            &&& c.expires_at == now
            &&& is_hardened(c)
        },
        cookie_header is None ==> r == Err::<SessionCookie, SessionError>(
            SessionError::Cookie(CookieError::NoCookieHeader),
        ),
        cookie_header matches Some(h) && session_segment(h@) is None ==> r == Err::<SessionCookie, SessionError>(
            SessionError::Cookie(CookieError::NoAuthCookie),
        ),
{
    match check_cookie(cookie_header, jwt, now) {
        Ok(_) => Ok(hardened_cookie(SESSION_COOKIE, String::new(), now)),
        Err(e) => Err(e),
    }
}

/// The anti-forgery cookie for time `now`: the token for `secret`, valid for a day.
pub fn csrf_cookie(secret: Option<&str>, now: i64) -> (r: Result<SessionCookie, CsrfError>)
    requires
        now <= i64::MAX - CSRF_TTL_SECS,
    ensures
        secret is None ==> r == Err::<SessionCookie, CsrfError>(CsrfError::MissingSecret),
        secret matches Some(s) ==> r matches Ok(c) && {
            &&& c.name@ == CSRF_COOKIE@
            &&& c.value@ == csrf_token(s@, now)
            &&& c.expires_at == now + CSRF_TTL_SECS
            &&& is_hardened(c)
        },
{
    let token = CSRFTokenService::generate_csrf_token_at(secret, now)?;
    Ok(hardened_cookie(CSRF_COOKIE, token, now + CSRF_TTL_SECS))
}

/// `find_in` stops at the first index holding `c`, or at the end.
proof fn lemma_find_in_at(s: Seq<char>, c: char, i: int, j: int, k: int)
    requires
        0 <= i <= k <= j <= s.len(),
        forall|m: int| i <= m < k ==> s[m] != c,
        k < j ==> s[k] == c,
    ensures
        find_in(s, c, i, j) == k,
    decreases k - i,
{
    if i < k {
        lemma_find_in_at(s, c, i + 1, j, k);
    }
}

/// The cookie header that a client sends back after login: the session
/// cookie alone, as `Authorization=<token>`.
pub open spec fn session_header(token: Seq<char>) -> Seq<char> {
    SESSION_COOKIE@ + seq!['='] + token
}

/// A token handed out at login, sent back as the session cookie before it
/// expires, gives back the claims it was issued with: the logged-in user.
pub proof fn lemma_login_cookie_names_user(token: Seq<char>, email: Seq<char>, key: Seq<u8>, issued: i64, later: i64)
    requires
        token.len() > 0,
        forall|i: int| 0 <= i < token.len() ==> is_token_char(#[trigger] token[i]),
        issued >= 0,
        hs256_claims(token, key) == Some((email, expiry_for(issued) as u64)),
        later < expiry_for(issued),
    ensures
        cookie_claims(Some(session_header(token)), key, later) == Some((email, expiry_for(issued) as u64)),
{
    reveal_strlit("Authorization");
    let h = session_header(token);
    let n = h.len() as int;
    assert(SESSION_COOKIE@.len() == 13);
    assert(n == 14 + token.len());
    assert forall|m: int| 14 <= m < n implies h[m] == token[m - 14] && is_token_char(h[m]) by {
        assert(is_token_char(token[m - 14]));
    }
    assert forall|m: int| 0 <= m < n implies h[m] != ';' by {
        if m >= 14 {
            assert(is_token_char(h[m]));
        }
    }
    lemma_find_in_at(h, ';', 0, n, n);
    assert(h[0] == 'A');
    assert(is_token_char(h[n - 1]));
    assert(h.subrange(0, n) =~= h);
    assert(h[13] == '=');
    assert forall|m: int| 0 <= m < 13 implies h[m] != '=' by {}
    lemma_find_in_at(h, '=', 0, n, 13);
    assert(h[12] == 'n');
    assert(h.subrange(0, 13) =~= SESSION_COOKIE@);
    assert(is_token_char(h[14]));
    assert(h.subrange(14, n) =~= token);
    assert(session_segment(h) == Some(h));
    assert(session_cookie_value(h) == token);
}

} // verus!
