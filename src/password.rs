//! Password credentials: salted, memory-hard hashes (Argon2) and their check.

use vstd::prelude::*;
use vstd::utf8::encode_utf8;
use crate::error::AuthError;

verus! {

#[verifier::external_type_specification]
#[verifier::external_body]
pub struct ExHashError(argon2::password_hash::Error);

/// What Argon2 concludes of `secret` against the stored PHC string `stored`:
/// `Some(true)` where it matches, `Some(false)` where it is a well-formed
/// hash that the secret does not match, and `None` where `stored` cannot be
/// checked at all (it does not parse, or names an unknown algorithm or
/// invalid parameters).
pub uninterp spec fn argon2_verdict(secret: Seq<u8>, stored: Seq<char>) -> Option<bool>;

/// The PHC string that Argon2 with its default settings writes for `secret`
/// hashed with the B64 salt `salt`.
pub uninterp spec fn argon2_phc(secret: Seq<u8>, salt: Seq<char>) -> Seq<char>;

/// The characters a PHC salt is made of: `[a-zA-Z0-9/+.-]`.
pub open spec fn salt_char(c: char) -> bool {
    ('a' <= c && c <= 'z') || ('A' <= c && c <= 'Z') || ('0' <= c && c <= '9') || c == '/'
        || c == '+' || c == '.' || c == '-'
}

pub open spec fn salt_chars_only(salt: Seq<char>) -> bool {
    forall|i: int| 0 <= i < salt.len() ==> salt_char(#[trigger] salt[i])
}

/// How Argon2's default settings (Argon2id, version 19, 19456 KiB, two
/// passes, one lane) are written at the head of a PHC string.
pub open spec fn argon2_default_head() -> Seq<char> {
    "$argon2id$v=19$m=19456,t=2,p=1$"@
}

/// `phc` is a PHC string of Argon2's default settings that embeds `salt`:
/// the settings, the salt, a `$`, then the hash output.
pub open spec fn embeds_salt(phc: Seq<char>, salt: Seq<char>) -> bool {
    exists|out: Seq<char>| phc == argon2_default_head() + salt + seq!['$'] + out
}

/// Relies on `PasswordHash::new`, which parses a PHC string, and on
/// `Argon2::verify_password`, which recomputes the hash with the stored salt
/// and parameters and compares; it answers `Error::Password` exactly when
/// the secret does not match. The result depends on the two inputs alone.
#[verifier::external_body]
fn argon2_check(secret: &[u8], stored: &str) -> (r: Result<bool, argon2::password_hash::Error>)
    ensures
        match r {
            Ok(b) => argon2_verdict(secret@, stored@) == Some(b),
            Err(_) => argon2_verdict(secret@, stored@) is None,
        },
{
    let parsed = argon2::PasswordHash::new(stored)?;
    let verifier = argon2::Argon2::default();
    match argon2::PasswordVerifier::verify_password(&verifier, secret, &parsed) {
        Ok(()) => Ok(true),
        Err(argon2::password_hash::Error::Password) => Ok(false),
        Err(e) => Err(e),
    }
}

/// Relies on `SaltString::generate`, fed by the operating system's random
/// generator: a fresh random salt, written in B64.
#[verifier::external_body]
fn draw_salt() -> (r: String) {
    argon2::password_hash::SaltString::generate(&mut argon2::password_hash::rand_core::OsRng)
        .as_str()
        .to_owned()
}

/// Relies on `Salt::from_b64`, which accepts only PHC salt characters, on
/// `Argon2::hash_password` with the default settings, and on the `Display`
/// of `PasswordHash`, which writes `$argon2id$v=19$m=19456,t=2,p=1$`, the
/// salt, `$` and the output. The result depends on secret and salt alone,
/// and checking the same secret against it succeeds.
#[verifier::external_body]
fn argon2_hash(secret: &[u8], salt: &str) -> (r: Result<String, argon2::password_hash::Error>)
    ensures
        r matches Ok(h) ==> {
            &&& h@ == argon2_phc(secret@, salt@)
            &&& embeds_salt(h@, salt@)
            &&& salt_chars_only(salt@)
            &&& argon2_verdict(secret@, h@) == Some(true)
        },
{
    let salt = argon2::password_hash::Salt::from_b64(salt)?;
    let hasher = argon2::Argon2::default();
    let hash = argon2::PasswordHasher::hash_password(&hasher, secret, salt)?;
    Ok(hash.to_string())
}

/// The outcome of checking a plaintext secret against a stored hash: whether
/// it matches, or `Internal` where the stored hash is corrupt.
pub open spec fn password_check(secret: Seq<char>, stored: Seq<char>) -> Result<bool, AuthError> {
    match argon2_verdict(encode_utf8(secret), stored) {
        Some(b) => Ok(b),
        None => Err(AuthError::Internal),
    }
}

/// Checks `secret` against the stored hash. A mismatch is an ordinary
/// negative answer; a corrupt stored hash is an error of its own.
pub fn verify_password(secret: &str, stored: &str) -> (r: Result<bool, AuthError>)
    ensures
        r == password_check(secret@, stored@),
{
    match argon2_check(secret.as_bytes(), stored) {
        Ok(b) => Ok(b),
        Err(_) => Err(AuthError::Internal),
    }
}

/// What is known of a stored hash made from `secret` with `salt`.
pub open spec fn hashed_with(secret: Seq<char>, salt: Seq<char>, stored: Seq<char>) -> bool {
    &&& stored == argon2_phc(encode_utf8(secret), salt)
    &&& embeds_salt(stored, salt)
    &&& salt_chars_only(salt)
    &&& password_check(secret, stored) == Ok::<bool, AuthError>(true)
}

/// Hashes `secret` with the given B64 salt. The stored hash embeds the salt
/// and verifies against the same secret; an invalid salt is internal.
pub fn hash_password_with_salt(secret: &str, salt: &str) -> (r: Result<String, AuthError>)
    ensures
        r matches Ok(h) ==> hashed_with(secret@, salt@, h@),
        r matches Err(e) ==> e == AuthError::Internal,
{
    match argon2_hash(secret.as_bytes(), salt) {
        Ok(h) => Ok(h),
        Err(_) => Err(AuthError::Internal),
    }
}

/// Hashes `secret` with a freshly drawn salt, returning the salt and the
/// stored hash. Whatever salt was drawn, the hash embeds it and verifies
/// against the same secret.
pub fn hash_password_salted(secret: &str) -> (r: Result<(String, String), AuthError>)
    ensures
        r matches Ok(sh) ==> hashed_with(secret@, sh.0@, sh.1@),
        r matches Err(e) ==> e == AuthError::Internal,
{
    let salt = draw_salt();
    let h = hash_password_with_salt(secret, salt.as_str())?;
    Ok((salt, h))
}

/// Hashes `secret` with a freshly drawn salt.
pub fn hash_password(secret: &str) -> (r: Result<String, AuthError>)
    ensures
        r matches Ok(h) ==> exists|salt: Seq<char>| hashed_with(secret@, salt, h@),
        r matches Ok(h) ==> password_check(secret@, h@) == Ok::<bool, AuthError>(true),
        r matches Err(e) ==> e == AuthError::Internal,
{
    let (salt, h) = hash_password_salted(secret)?;
    assert(hashed_with(secret@, salt@, h@));
    Ok(h)
}

/// Two stored hashes that embed different salts differ, whatever secrets
/// they were made from.
pub proof fn lemma_distinct_salts_distinct_hashes(
    h1: Seq<char>,
    s1: Seq<char>,
    h2: Seq<char>,
    s2: Seq<char>,
)
    requires
        embeds_salt(h1, s1),
        embeds_salt(h2, s2),
        salt_chars_only(s1),
        salt_chars_only(s2),
        s1 != s2,
    ensures
        h1 != h2,
{
    let o1 = choose|out: Seq<char>| h1 == argon2_default_head() + s1 + seq!['$'] + out;
    let o2 = choose|out: Seq<char>| h2 == argon2_default_head() + s2 + seq!['$'] + out;
    let n = argon2_default_head().len();
    if h1 == h2 {
        let t1 = h1.subrange(n as int, h1.len() as int);
        assert(t1 =~= s1 + seq!['$'] + o1);
        assert(t1 =~= s2 + seq!['$'] + o2);
        if s1.len() < s2.len() {
            assert(t1[s1.len() as int] == '$');
            assert(t1[s1.len() as int] == s2[s1.len() as int]);
            assert(salt_char(s2[s1.len() as int]));
        } else if s2.len() < s1.len() {
            assert(t1[s2.len() as int] == '$');
            assert(t1[s2.len() as int] == s1[s2.len() as int]);
            assert(salt_char(s1[s2.len() as int]));
        } else {
            assert forall|i: int| 0 <= i < s1.len() implies s1[i] == s2[i] by {
                assert(t1[i] == s1[i]);
                assert(t1[i] == s2[i]);
            }
            assert(s1 =~= s2);
        }
    }
}

} // verus!
