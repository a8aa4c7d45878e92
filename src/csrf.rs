//! Anti-forgery tokens: a SHA-256 digest, in lowercase hex, of the current
//! second's timestamp followed by a server secret.

use vstd::prelude::*;
use vstd::utf8::encode_utf8;
use sha2::{Digest, Sha256};

verus! {

/// SHA-256 of `msg`.
pub uninterp spec fn sha256_of(msg: Seq<u8>) -> Seq<u8>;

/// Relies on sha2's `Sha256::digest`: the 32-byte digest of `msg`.
#[verifier::external_body]
fn sha256(msg: &[u8]) -> (r: Vec<u8>)
    ensures
        r@ == sha256_of(msg@),
        r@.len() == 32,
{
    Sha256::digest(msg).to_vec()
}

/// The lowercase hex digit for `d < 16`.
pub open spec fn hex_digit(d: u8) -> char {
    seq!['0', '1', '2', '3', '4', '5', '6', '7', '8', '9', 'a', 'b', 'c', 'd', 'e', 'f'][d as int]
}

/// Two lowercase hex digits per byte, high nibble first.
pub open spec fn lower_hex(b: Seq<u8>) -> Seq<char>
    decreases b.len(),
{
    if b.len() == 0 {
        Seq::empty()
    } else {
        lower_hex(b.drop_last()) + seq![hex_digit(b.last() / 16), hex_digit(b.last() % 16)]
    }
}

/// Two hex digits per byte.
pub proof fn lemma_lower_hex_len(b: Seq<u8>)
    ensures
        lower_hex(b).len() == 2 * b.len(),
    decreases b.len(),
{
    if b.len() > 0 {
        lemma_lower_hex_len(b.drop_last());
    }
}

/// Relies on hex's `encode`: two lowercase hex digits per byte, in order.
#[verifier::external_body]
fn to_hex(b: &[u8]) -> (r: String)
    ensures
        r@ == lower_hex(b@),
{
    hex::encode(b)
}

/// The ASCII decimal digits of `n`, without leading zeros.
pub open spec fn digits(n: nat) -> Seq<u8>
    decreases n,
{
    if n < 10 {
        seq![(48 + n) as u8]
    } else {
        digits(n / 10).push((48 + n % 10) as u8)
    }
}

/// The ASCII decimal form of `n`, with a leading `-` when negative.
pub open spec fn decimal(n: int) -> Seq<u8> {
    if n < 0 {
        seq![45u8] + digits((-n) as nat)
    } else {
        digits(n as nat)
    }
}

/// The anti-forgery token for `secret` at second `now`.
pub open spec fn csrf_token(secret: Seq<char>, now: i64) -> Seq<char> {
    lower_hex(sha256_of(decimal(now as int) + encode_utf8(secret)))
}

fn push_digits(m: u64, out: &mut Vec<u8>)
    ensures
        final(out)@ == old(out)@ + digits(m as nat),
    decreases m,
{
    if m >= 10 {
        push_digits(m / 10, out);
    }
    out.push((48 + m % 10) as u8);
    assert(final(out)@ =~= old(out)@ + digits(m as nat));
}

fn push_decimal(n: i64, out: &mut Vec<u8>)
    ensures
        final(out)@ == old(out)@ + decimal(n as int),
{
    if n < 0 {
        out.push(45u8);
        let m: u64 = (-(n + 1)) as u64 + 1;
        push_digits(m, out);
        assert(final(out)@ =~= old(out)@ + decimal(n as int));
    } else {
        push_digits(n as u64, out);
    }
}

fn push_bytes(b: &[u8], out: &mut Vec<u8>)
    ensures
        final(out)@ == old(out)@ + b@,
{
    let ghost start = out@;
    let mut i: usize = 0;
    while i < b.len()
        invariant
            i <= b@.len(),
            out@ == start + b@.subrange(0, i as int),
        decreases b@.len() - i,
    {
        out.push(b[i]);
        i = i + 1;
        assert(out@ =~= start + b@.subrange(0, i as int));
    }
    assert(b@.subrange(0, b@.len() as int) =~= b@);
}

#[derive(Debug, Clone, Copy, PartialEq, Eq, Structural)]
pub enum CsrfError {
    /// No server secret is configured.
    MissingSecret,
}

/// Two tokens made in the same second with the same secret are identical.
pub proof fn lemma_same_second_same_token(secret: Seq<char>, now: i64, first: Seq<char>, second: Seq<char>)
    requires
        first == csrf_token(secret, now),
        second == csrf_token(secret, now),
    ensures
        first == second,
{
}

pub struct CSRFTokenService;

impl CSRFTokenService {
    /// The token for `secret` at second `now`. Two calls in the same second
    /// with the same secret give the same token.
    pub fn generate_csrf_token_at(secret: Option<&str>, now: i64) -> (r: Result<String, CsrfError>)
        ensures
            match secret {
                None => r == Err::<String, CsrfError>(CsrfError::MissingSecret),
                Some(s) => r matches Ok(t) && t@ == csrf_token(s@, now),
            },
            r matches Ok(t) ==> t@.len() == 64,
    {
        let s = match secret {
            Some(s) => s,
            None => return Err(CsrfError::MissingSecret),
        };
        let mut msg: Vec<u8> = Vec::new();
        push_decimal(now, &mut msg);
        push_bytes(s.as_bytes(), &mut msg);
        let digest = sha256(msg.as_slice());
        let token = to_hex(digest.as_slice());
        proof {
            lemma_lower_hex_len(digest@);
        }
        Ok(token)
    }

    /// The token for `secret` at the current second.
    pub fn generate_csrf_token(secret: Option<&str>) -> (r: Result<String, CsrfError>)
        ensures
            secret is None ==> r == Err::<String, CsrfError>(CsrfError::MissingSecret),
            secret matches Some(s) ==> r matches Ok(t) && exists|now: i64| t@ == csrf_token(s@, now),
            r matches Ok(t) ==> t@.len() == 64,
    {
        let now = crate::token::unix_time_now();
        CSRFTokenService::generate_csrf_token_at(secret, now)
    }
}

} // verus!
