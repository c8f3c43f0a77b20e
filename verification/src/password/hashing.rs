use vstd::prelude::*;

use crate::password::{bcrypt_verifies, is_bcrypt_hash};

verus! {

/// One call of `bcrypt::hash`: the password it was given and the hash it gave back, if any.
/// Only `bcrypt_hash` makes one, so "some `HashAttempt` for this password failed" speaks of
/// an actual failure of bcrypt, not of a decision of the library.
pub struct HashAttempt {
    password: Ghost<Seq<char>>,
    hash: Option<String>,
}

impl HashAttempt {
    /// The password bcrypt was asked to hash.
    pub closed spec fn password(self) -> Seq<char> {
        self.password@
    }

    /// The hash bcrypt gave back, or `None` when it failed.
    pub closed spec fn hash(self) -> Option<Seq<char>> {
        match self.hash {
            Some(h) => Some(h@),
            None => None,
        }
    }

    /// The hash bcrypt gave back, or `None` when it failed.
    pub fn into_hash(self) -> (r: Option<String>)
        ensures
            match self.hash() {
                Some(h) => r matches Some(x) && x@ == h,
                None => r is None,
            },
    {
        self.hash
    }
}

/// `bcrypt::hash` at `bcrypt::DEFAULT_COST`: hashes with a fresh random salt, so two calls
/// give different hashes. Claimed of every hash it returns: `bcrypt::verify` accepts the same
/// password against it (the hash is written as `$2b$12$` + salt + digest, which `verify`
/// splits back into the same cost and salt); and the hash has that shape: 60 characters
/// starting with `$2b$12$` (`HashParts::format`, version 2b, cost written with two digits).
/// In the source it fails only when the system gives no random salt (`getrandom`), whatever
/// the password; when that happens is not said.
#[verifier::external_body]
pub(crate) fn bcrypt_hash(password: &str) -> (r: HashAttempt)
    ensures
        r.password() == password@,
        r.hash() matches Some(h) ==> bcrypt_verifies(password@, h) == Some(true) && is_bcrypt_hash(h),
{
    HashAttempt {
        password: Ghost(password@),
        hash: bcrypt::hash(password, bcrypt::DEFAULT_COST).ok(),
    }
}

} // verus!
