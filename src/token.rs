//! Signed session tokens (HS256 JWT) carrying a subject and an expiry.
//! The signing secret is handed in at construction; expiry is checked here
//! against a caller-supplied clock reading.

use vstd::prelude::*;
use vstd::utf8::encode_utf8;
use jsonwebtoken::errors::ErrorKind;
use jsonwebtoken::{decode, encode, Algorithm, DecodingKey, EncodingKey, Header, Validation};
use serde_json::Value;

verus! {

#[verifier::external_type_specification]
#[verifier::external_body]
pub struct ExJwtError(jsonwebtoken::errors::Error);

/// Seconds a session token stays valid: twenty days.
pub const SESSION_TTL_SECS: u64 = 3600 * 24 * 20;

/// The latest clock reading at which a token can be issued: its expiry must
/// still be a representable time.
pub const LATEST_ISSUE_TIME: i64 = i64::MAX - 3600 * 24 * 20;

/// What jsonwebtoken's `decode` makes of `token` under the HS256 key
/// `secret`, with the signature checked and the expiry left to the caller:
/// the subject and expiry claims, or `Err(true)` when the signature does not
/// match, `Err(false)` for any other failure.
pub uninterp spec fn hs256_decoded(token: Seq<char>, secret: Seq<u8>) -> Result<(Seq<char>, u64), bool>;

/// The claims that `token` carries under `secret`, if it decodes at all.
pub open spec fn hs256_claims(token: Seq<char>, secret: Seq<u8>) -> Option<(Seq<char>, u64)> {
    match hs256_decoded(token, secret) {
        Ok(c) => Some(c),
        Err(_) => None,
    }
}

/// A character of the URL-safe base64 alphabet, or the `.` between the parts.
pub open spec fn is_token_char(c: char) -> bool {
    ||| ('A' as u32) <= (c as u32) <= ('Z' as u32)
    ||| ('a' as u32) <= (c as u32) <= ('z' as u32)
    ||| ('0' as u32) <= (c as u32) <= ('9' as u32)
    ||| c == '-'
    ||| c == '_'
    ||| c == '.'
}

/// Relies on jsonwebtoken's `encode` with the default header (HS256) over the
/// claims object `{"sub", "exp"}`. It fails only when the key's family differs
/// from the header's algorithm, which an HMAC key under HS256 never does. The
/// token is three URL-safe base64 parts joined by `.`, and `decode` under the
/// same secret gives the same claims back.
#[verifier::external_body]
fn hs256_encode(sub: &str, exp: u64, secret: &[u8]) -> (r: Result<String, jsonwebtoken::errors::Error>)
    ensures
        r is Ok,
        r matches Ok(t) ==> t@.len() > 0 && hs256_claims(t@, secret@) == Some((sub@, exp)),
        r matches Ok(t) ==> forall|i: int| 0 <= i < t@.len() ==> is_token_char(#[trigger] t@[i]),
{
    let mut claims = serde_json::Map::new();
    claims.insert("sub".to_owned(), Value::from(sub));
    claims.insert("exp".to_owned(), Value::from(exp));
    encode(&Header::default(), &claims, &EncodingKey::from_secret(secret))
}

/// Relies on jsonwebtoken's `decode` with HS256 only, the signature checked
/// and its own expiry check turned off: the claims it reads back, or whether
/// its error kind is `InvalidSignature`. A payload whose `sub` is not a string
/// or whose `exp` is not an unsigned integer is refused like a malformed token.
#[verifier::external_body]
fn hs256_decode(token: &str, secret: &[u8]) -> (r: Result<(String, u64), bool>)
    ensures
        match hs256_decoded(token@, secret@) {
            Ok((sub, exp)) => r matches Ok(c) && c.0@ == sub && c.1 == exp,
            Err(bad_signature) => r == Err::<(String, u64), bool>(bad_signature),
        },
{
    let mut validation = Validation::new(Algorithm::HS256);
    validation.validate_exp = false;
    match decode::<serde_json::Map<String, Value>>(token, &DecodingKey::from_secret(secret), &validation) {
        Ok(data) => match (data.claims.get("sub"), data.claims.get("exp").and_then(Value::as_u64)) {
            (Some(Value::String(sub)), Some(exp)) => Ok((sub.clone(), exp)),
            _ => Err(false),
        },
        Err(e) => Err(matches!(e.kind(), ErrorKind::InvalidSignature)),
    }
}

/// Relies on chrono's `Utc::now`: seconds since the Unix epoch. The clock is
/// read afresh: nothing is stated of it.
#[verifier::external_body]
pub(crate) fn unix_time_now() -> i64 {
    chrono::Utc::now().timestamp()
}

/// The claims of a session: who it is for and when it stops being valid.
#[derive(Debug, Clone, PartialEq, Eq)]
pub struct Claims {
    pub sub: String,
    pub exp: u64,
}

#[derive(Debug, Clone, Copy, PartialEq, Eq, Structural)]
pub enum TokenError {
    /// The subject to issue a token for is empty.
    InvalidSubject,
    /// The token is empty or cannot be read as a signed token.
    InvalidToken,
    /// The signature does not match the payload under the current secret.
    SignatureMismatch,
    /// The token's expiry has passed.
    Expired,
    /// Signing failed; with an HMAC key under HS256 it never does.
    Crypto,
    /// The clock reads a time before the Unix epoch, or too late for an
    /// expiry to be represented.
    ClockOutOfRange,
}

/// When a token issued at `now` expires.
pub open spec fn expiry_for(now: i64) -> int {
    now + SESSION_TTL_SECS
}

/// The claims that verification accepts from `token` at time `now`: those it
/// signs under `key`, while their expiry lies ahead.
pub open spec fn accepted_claims(token: Seq<char>, key: Seq<u8>, now: i64) -> Option<(Seq<char>, u64)> {
    if token.len() == 0 {
        None
    } else {
        match hs256_claims(token, key) {
            Some((sub, exp)) => if now < exp {
                Some((sub, exp))
            } else {
                None
            },
            None => None,
        }
    }
}

/// Issues and verifies session tokens under one signing secret.
pub struct JwtService {
    pub secret: String,
}

impl JwtService {
    pub fn new(secret: String) -> (r: JwtService)
        ensures
            r.secret == secret,
    {
        JwtService { secret }
    }

    /// The HS256 key: the secret's UTF-8 bytes.
    pub open spec fn key(&self) -> Seq<u8> {
        encode_utf8(self.secret@)
    }

    /// Issues a token for `subject` at time `now`, expiring twenty days later.
    pub fn issue_at(&self, subject: &str, now: i64) -> (r: Result<String, TokenError>)
        ensures
            subject@.len() == 0 ==> r == Err::<String, TokenError>(TokenError::InvalidSubject),
            subject@.len() > 0 && !(0 <= now <= LATEST_ISSUE_TIME) ==> r == Err::<String, TokenError>(
                TokenError::ClockOutOfRange,
            ),
            subject@.len() > 0 && 0 <= now <= LATEST_ISSUE_TIME ==> (r matches Ok(t) && t@.len() > 0 && hs256_claims(t@, self.key())
                == Some((subject@, expiry_for(now) as u64))),
            r matches Ok(t) ==> forall|i: int| 0 <= i < t@.len() ==> is_token_char(#[trigger] t@[i]),
    {
        if subject.is_empty() {
            return Err(TokenError::InvalidSubject);
        }
        if now < 0 || now > LATEST_ISSUE_TIME {
            return Err(TokenError::ClockOutOfRange);
        }
        let exp: u64 = now as u64 + SESSION_TTL_SECS;
        match hs256_encode(subject, exp, self.secret.as_str().as_bytes()) {
            Ok(t) => Ok(t),
            Err(_) => Err(TokenError::Crypto),
        }
    }

    /// Verifies `token` at time `now` and returns its claims.
    pub fn verify_at(&self, token: &str, now: i64) -> (r: Result<Claims, TokenError>)
        ensures
            r is Ok <==> accepted_claims(token@, self.key(), now) is Some,
            r matches Ok(c) ==> accepted_claims(token@, self.key(), now) == Some((c.sub@, c.exp)),
            token@.len() == 0 ==> r == Err::<Claims, TokenError>(TokenError::InvalidToken),
            token@.len() > 0 ==> match hs256_claims(token@, self.key()) {
                Some((_, exp)) => now >= exp ==> r == Err::<Claims, TokenError>(TokenError::Expired),
                None => r == Err::<Claims, TokenError>(
                    if hs256_decoded(token@, self.key()) == Err::<(Seq<char>, u64), bool>(true) {
                        TokenError::SignatureMismatch
                    } else {
                        TokenError::InvalidToken
                    },
                ),
            },
    {
        if token.is_empty() {
            return Err(TokenError::InvalidToken);
        }
        match hs256_decode(token, self.secret.as_str().as_bytes()) {
            Ok((sub, exp)) => {
                if now >= 0 && exp <= now as u64 {
                    Err(TokenError::Expired)
                } else {
                    Ok(Claims { sub, exp })
                }
            },
            Err(true) => Err(TokenError::SignatureMismatch),
            Err(false) => Err(TokenError::InvalidToken),
        }
    }

    /// Issues a token for `email`, valid for twenty days from now.
    pub fn generate_jwt(&self, email: &str) -> (r: Result<String, TokenError>)
        ensures
            email@.len() == 0 ==> r == Err::<String, TokenError>(TokenError::InvalidSubject),
            email@.len() > 0 ==> r is Ok || r == Err::<String, TokenError>(TokenError::ClockOutOfRange),
            r matches Ok(t) ==> t@.len() > 0 && exists|now: i64|
                0 <= now <= LATEST_ISSUE_TIME && #[trigger] hs256_claims(t@, self.key()) == Some(
                    (email@, expiry_for(now) as u64),
                ),
    {
        self.issue_at(email, unix_time_now())
    }

    /// Verifies `token` against the clock now.
    pub fn verify_jwt(&self, token: &str) -> (r: Result<Claims, TokenError>)
        ensures
            token@.len() == 0 ==> r == Err::<Claims, TokenError>(TokenError::InvalidToken),
            r matches Ok(c) ==> token@.len() > 0 && hs256_claims(token@, self.key()) == Some((c.sub@, c.exp)),
            token@.len() > 0 && hs256_claims(token@, self.key()) is None ==> r == Err::<Claims, TokenError>(
                if hs256_decoded(token@, self.key()) == Err::<(Seq<char>, u64), bool>(true) {
                    TokenError::SignatureMismatch
                } else {
                    TokenError::InvalidToken
                },
            ),
            token@.len() > 0 && hs256_claims(token@, self.key()) is Some ==> r is Ok || r
                == Err::<Claims, TokenError>(TokenError::Expired),
    {
        self.verify_at(token, unix_time_now())
    }
}

/// A token issued for a subject is accepted, with that subject and its
/// expiry, at any time before the expiry.
pub proof fn lemma_issued_token_verifies(subject: Seq<char>, key: Seq<u8>, token: Seq<char>, issued: i64, later: i64)
    requires
        token.len() > 0,
        issued >= 0,
        hs256_claims(token, key) == Some((subject, expiry_for(issued) as u64)),
        later < expiry_for(issued),
    ensures
        accepted_claims(token, key, later) == Some((subject, expiry_for(issued) as u64)),
{
}

} // verus!
