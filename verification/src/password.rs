use vstd::prelude::*;

pub mod hashing;

use self::hashing::{bcrypt_hash, HashAttempt};

verus! {

#[verifier::external_type_specification]
#[verifier::external_body]
pub struct ExBcryptError(bcrypt::BcryptError);

/// Hashing or checking a password failed.
#[derive(Clone, Copy, PartialEq, Eq, Structural, Debug)]
pub struct PasswordError;

/// Whether a text has the shape of a fresh bcrypt hash at cost 12: 60 characters that start
/// with `$2b$12$`.
pub open spec fn is_bcrypt_hash(h: Seq<char>) -> bool {
    h.len() == 60 && h.take(7) == "$2b$12$"@
}

/// What `bcrypt::verify` answers for a password and a stored hash: whether the password
/// produces that hash, or `None` when the hash is malformed.
pub uninterp spec fn bcrypt_verifies(password: Seq<char>, hash: Seq<char>) -> Option<bool>;

/// `bcrypt::verify`: recomputes the hash of `password` with the cost and salt written in
/// `hash` and compares. Its answer is a function of the two texts alone (named
/// `bcrypt_verifies`); an error stands for a malformed hash.
#[verifier::external_body]
fn bcrypt_verify(password: &str, hash: &str) -> (r: Result<bool, bcrypt::BcryptError>)
    ensures
        match bcrypt_verifies(password@, hash@) {
            Some(b) => r matches Ok(x) && x == b,
            None => r is Err,
        },
{
    bcrypt::verify(password, hash)
}

/// Bcrypt gave no hash for the password: the call failed.
pub open spec fn bcrypt_failed_for(password: Seq<char>) -> bool {
    exists|a: HashAttempt| a.password() == password && a.hash() is None
}

/// A bcrypt hash of the password, with a fresh salt; checking the same password against it
/// succeeds, and it is 60 characters starting with `$2b$12$`. It fails exactly when the call
/// of bcrypt for this password failed, which happens only when the system gives no random
/// salt: no password makes it fail.
pub fn hash_password(password: &str) -> (r: Result<String, PasswordError>)
    ensures
        r matches Ok(h) ==> bcrypt_verifies(password@, h@) == Some(true) && is_bcrypt_hash(h@),
        r is Err ==> bcrypt_failed_for(password@),
{
    let attempt = bcrypt_hash(password);
    match attempt.into_hash() {
        Some(h) => Ok(h),
        None => Err(PasswordError),
    }
}

/// Whether the password matches the stored hash; an error when the hash is malformed.
pub fn verify_password(password: &str, hash: &str) -> (r: Result<bool, PasswordError>)
    ensures
        match bcrypt_verifies(password@, hash@) {
            Some(b) => r == Ok::<bool, PasswordError>(b),
            None => r == Err::<bool, PasswordError>(PasswordError),
        },
{
    match bcrypt_verify(password, hash) {
        Ok(b) => Ok(b),
        Err(_) => Err(PasswordError),
    }
}

} // verus!
