//! Password hashing, from `bcrypt`.

use vstd::prelude::*;

verus! {

/// What `bcrypt::verify` says of a password and a hash: whether they match,
/// or the message of the error for a hash that it cannot read.
pub uninterp spec fn bcrypt_verdict(password: Seq<char>, hash: Seq<char>) -> Result<
    bool,
    Seq<char>,
>;

/// Calls `bcrypt::hash` with `bcrypt::DEFAULT_COST`. The salt is random, so
/// the hash itself is not described; the contract claims that `bcrypt::verify`
/// accepts the password against it. A failure is handed out by its message.
#[verifier::external_body]
pub(crate) fn bcrypt_hash(password: &str) -> (r: Result<String, String>)
    ensures
        (r is Ok ==> bcrypt_verdict(password@, r->Ok_0@) == Ok::<bool, Seq<char>>(true)),
{
    match bcrypt::hash(password, bcrypt::DEFAULT_COST) {
        Ok(hashed) => Ok(hashed),
        Err(e) => Err(e.to_string()),
    }
}

/// Calls `bcrypt::verify`. The contract only names the result: it is
/// [`bcrypt_verdict`] of the password and the hash.
#[verifier::external_body]
pub(crate) fn bcrypt_verify(password: &str, hashed: &str) -> (r: Result<bool, String>)
    ensures
        match r {
            Ok(matches) => bcrypt_verdict(password@, hashed@) == Ok::<bool, Seq<char>>(matches),
            Err(message) => bcrypt_verdict(password@, hashed@) == Err::<bool, Seq<char>>(
                message@,
            ),
        },
{
    match bcrypt::verify(password, hashed) {
        Ok(matches) => Ok(matches),
        Err(e) => Err(e.to_string()),
    }
}

} // verus!
