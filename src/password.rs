//! One-way password hashing (Argon2, salted per call) and verification.

use vstd::prelude::*;
use vstd::utf8::encode_utf8;
use argon2::password_hash::rand_core::OsRng;
use argon2::password_hash::{PasswordHash, PasswordHasher, PasswordVerifier, SaltString};
use argon2::Argon2;

verus! {

#[verifier::external_type_specification]
#[verifier::external_body]
pub struct ExPhcError(argon2::password_hash::Error);

/// Whether `PasswordHash::new` reads `phc` as a PHC-format hash string.
pub uninterp spec fn argon2_phc_parses(phc: Seq<char>) -> bool;

/// Whether Argon2's `verify_password` accepts `password` against the parsed `phc`.
pub uninterp spec fn argon2_accepts(password: Seq<char>, phc: Seq<char>) -> bool;

/// The longest password, in bytes, that Argon2 takes.
pub const MAX_PASSWORD_BYTES: u64 = 4294967295;

/// `phc` is a hash that this service can have produced for `password`: an
/// Argon2id PHC string that parses back and verifies against the password.
pub open spec fn is_hash_of(password: Seq<char>, phc: Seq<char>) -> bool {
    &&& phc.len() >= 9
    &&& phc.subrange(0, 9) == "$argon2id"@
    &&& argon2_phc_parses(phc)
    &&& argon2_accepts(password, phc)
}

/// Relies on password_hash's `SaltString::generate` over the OS random source
/// (a fresh 16-byte salt) and on Argon2's `hash_password` with default
/// parameters, rendered as a PHC string. Argon2 refuses only passwords over
/// `u32::MAX` bytes and salts under 8 bytes. The rendered string starts with
/// `$argon2id`, parses back, and verifies against the same password. The salt
/// is random: nothing more is stated of the string.
#[verifier::external_body]
fn argon2_hash(password: &str) -> (r: Result<String, argon2::password_hash::Error>)
    ensures
        encode_utf8(password@).len() <= MAX_PASSWORD_BYTES ==> r is Ok,
        r matches Ok(h) ==> is_hash_of(password@, h@),
{
    let salt = SaltString::generate(OsRng);
    Argon2::default().hash_password(password.as_bytes(), &salt).map(|h| h.to_string())
}

/// Relies on `PasswordHash::new` to read `phc` and on Argon2's
/// `verify_password` to recompute and compare the digest in constant time.
#[verifier::external_body]
fn argon2_check(password: &str, phc: &str) -> (r: Result<bool, argon2::password_hash::Error>)
    ensures
        r is Ok <==> argon2_phc_parses(phc@),
        r matches Ok(b) ==> b == argon2_accepts(password@, phc@),
{
    let parsed = PasswordHash::new(phc)?;
    Ok(Argon2::default().verify_password(password.as_bytes(), &parsed).is_ok())
}

/// Why hashing or verifying could not be done.
#[derive(Debug, Clone, Copy, PartialEq, Eq, Structural)]
pub enum HashError {
    /// The password or the hash is empty.
    EmptyInput,
    /// The hash is not a PHC-format hash string.
    MalformedHash,
    /// The hash function itself failed.
    Crypto,
}

/// What verifying `password` against `phc` yields.
pub open spec fn check_outcome(password: Seq<char>, phc: Seq<char>) -> Result<bool, HashError> {
    if password.len() == 0 || phc.len() == 0 {
        Err(HashError::EmptyInput)
    } else if !argon2_phc_parses(phc) {
        Err(HashError::MalformedHash)
    } else {
        Ok(argon2_accepts(password, phc))
    }
}

pub struct HashService;

impl HashService {
    /// Hashes a non-empty password under a fresh random salt.
    pub fn hash_password(password: &str) -> (r: Result<String, HashError>)
        ensures
            password@.len() == 0 ==> r == Err::<String, HashError>(HashError::EmptyInput),
            password@.len() > 0 && encode_utf8(password@).len() <= MAX_PASSWORD_BYTES ==> (r matches Ok(h)
                && is_hash_of(password@, h@)),
            password@.len() > 0 ==> (r matches Ok(h) && is_hash_of(password@, h@))
                || r == Err::<String, HashError>(HashError::Crypto),
    {
        if password.is_empty() {
            return Err(HashError::EmptyInput);
        }
        match argon2_hash(password) {
            Ok(h) => Ok(h),
            Err(_) => Err(HashError::Crypto),
        }
    }

    /// Whether `password` matches `hash`; a mismatch is `Ok(false)`, not an error.
    pub fn check_password(password: &str, hash: &str) -> (r: Result<bool, HashError>)
        ensures
            r == check_outcome(password@, hash@),
    {
        if password.is_empty() || hash.is_empty() {
            return Err(HashError::EmptyInput);
        }
        match argon2_check(password, hash) {
            Ok(b) => Ok(b),
            Err(_) => Err(HashError::MalformedHash),
        }
    }
}

/// A hash made from a password verifies against that same password.
pub proof fn lemma_hash_verifies(password: Seq<char>, phc: Seq<char>)
    requires
        password.len() > 0,
        is_hash_of(password, phc),
    ensures
        check_outcome(password, phc) == Ok::<bool, HashError>(true),
{
}

/// An empty password is refused by both hashing and verification, whatever the hash.
pub proof fn lemma_empty_password_refused(phc: Seq<char>)
    ensures
        check_outcome(Seq::empty(), phc) == Err::<bool, HashError>(HashError::EmptyInput),
{
}

} // verus!
