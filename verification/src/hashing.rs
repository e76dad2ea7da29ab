//! One-way password hashing, through the bcrypt crate.

use vstd::prelude::*;

verus! {

/// What `bcrypt::verify` returns for a given password and stored hash
/// string. It is a function of the two strings alone: `verify` reads the
/// version, cost and salt back out of the hash string, recomputes the
/// digest of the password and compares.
pub uninterp spec fn bcrypt_matches(password: Seq<char>, hashed: Seq<char>) -> bool;

/// Relies on `bcrypt::hash`: salts from OS randomness and hashes the
/// password with the given cost, so that `bcrypt::verify` accepts the same
/// password against the result. Fails (`None`) on a cost outside bcrypt's
/// accepted range or when the random source fails.
#[verifier::external_body]
pub(crate) fn hash_password(password: &String, cost: u32) -> (r: Option<String>)
    ensures
        r matches Some(h) ==> bcrypt_matches(password@, h@),
{
    bcrypt::hash(password.as_str(), cost).ok()
}

/// Relies on `bcrypt::verify`: deterministic in the password and the hash
/// string; a malformed hash yields an error, treated here as no match.
#[verifier::external_body]
pub(crate) fn verify_password(password: &String, hashed: &String) -> (r: bool)
    ensures
        r == bcrypt_matches(password@, hashed@),
{
    bcrypt::verify(password.as_str(), hashed.as_str()).is_ok_and(|x| x)
}

} // verus!
