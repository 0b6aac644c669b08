//! Password hashes, made and checked with bcrypt.
use vstd::prelude::*;
use crate::error::DbError;
use crate::text::{append_chars, chars_of, string_of};

verus! {

/// Whether `bcrypt::verify` accepts `password` against `hash`; none where
/// it refuses the hash as unreadable.
pub uninterp spec fn bcrypt_verdict(password: Seq<char>, hash: Seq<char>) -> Option<bool>;

/// How every hash made with the cost of 12 begins.
pub open spec fn bcrypt_prefix() -> Seq<char> {
    "$2b$12$"@
}

/// Hashes a password with `bcrypt::hash` at `bcrypt::DEFAULT_COST` (12) and
/// a random salt. The source shows: the hash is 60 characters, `$2b$12$`
/// followed by the salt and the digest, and `bcrypt::verify` accepts the same
/// password against it (it reads the cost and salt back and hashes again).
/// It fails only where the system gives no randomness; then the error's text.
#[verifier::external_body]
fn bcrypt_hash(password: &str) -> (r: Result<String, String>)
    ensures
        r matches Ok(h) ==> {
            &&& h@.len() == 60
            &&& bcrypt_prefix().is_prefix_of(h@)
            &&& bcrypt_verdict(password@, h@) == Some(true)
        },
{
    match bcrypt::hash(password, bcrypt::DEFAULT_COST) {
        Ok(h) => Ok(h),
        Err(e) => Err(e.to_string()),
    }
}

/// Checks a password against a hash with `bcrypt::verify`; its answer stands
/// under the name `bcrypt_verdict`. The source refuses any hash that is not
/// 60 ASCII bytes; otherwise the error's text.
#[verifier::external_body]
fn bcrypt_check(password: &str, hash: &str) -> (r: Result<bool, String>)
    ensures
        match r {
            Ok(b) => bcrypt_verdict(password@, hash@) == Some(b),
            Err(_) => bcrypt_verdict(password@, hash@) is None,
        },
        hash@.len() != 60 ==> r is Err,
{
    match bcrypt::verify(password, hash) {
        Ok(b) => Ok(b),
        Err(e) => Err(e.to_string()),
    }
}

/// The error for a failure of bcrypt: `Bcrypt error: <text>`.
pub open spec fn bcrypt_error_text(text: Seq<char>) -> Seq<char> {
    "Bcrypt error: "@ + text
}

fn bcrypt_error(text: &str) -> (e: DbError)
    ensures
        e matches DbError::Other(m) && m@ == bcrypt_error_text(text@),
{
    let mut msg = chars_of("Bcrypt error: ");
    append_chars(&mut msg, &chars_of(text));
    DbError::Other(string_of(&msg))
}

/// Hashes a password for storage. On success the hash begins with
/// `$2b$12$`, is 60 characters long, and the password checks against it.
pub fn hash_password(password: &str) -> (r: Result<String, DbError>)
    ensures
        match r {
            Ok(h) => {
                &&& h@.len() == 60
                &&& bcrypt_prefix().is_prefix_of(h@)
                &&& bcrypt_verdict(password@, h@) == Some(true)
            },
            Err(e) => exists|t: Seq<char>| e matches DbError::Other(m) && m@ == #[trigger] bcrypt_error_text(t),
        },
{
    match bcrypt_hash(password) {
        Ok(h) => Ok(h),
        Err(t) => Err(bcrypt_error(t.as_str())),
    }
}

/// Whether `password` matches the stored `hash`. A hash bcrypt cannot read
/// gives `Bcrypt error: ...`; one that is not 60 characters long always does.
pub fn check_password(password: &str, hash: &str) -> (r: Result<bool, DbError>)
    ensures
        match r {
            Ok(b) => bcrypt_verdict(password@, hash@) == Some(b),
            Err(e) => {
                &&& bcrypt_verdict(password@, hash@) is None
                &&& exists|t: Seq<char>| e matches DbError::Other(m) && m@ == #[trigger] bcrypt_error_text(t)
            },
        },
        hash@.len() != 60 ==> r is Err,
{
    match bcrypt_check(password, hash) {
        Ok(b) => Ok(b),
        Err(t) => Err(bcrypt_error(t.as_str())),
    }
}

} // verus!
