//! Password hashing and checking, done by the `bcrypt` crate.
use vstd::prelude::*;

verus! {

/// The error type of the `bcrypt` crate, carried through opaquely.
#[verifier::external_type_specification]
#[verifier::external_body]
pub struct ExBcryptError(bcrypt::BcryptError);

/// What `bcrypt::verify(password, hash)` returns: `Some(b)` for `Ok(b)`,
/// `None` for an error (a hash that does not parse). It is a function of
/// the password's characters and the hash text alone.
pub uninterp spec fn bcrypt_verify_outcome(password: Seq<char>, hash: Seq<char>) -> Option<bool>;

/// Calls `bcrypt::verify(password, hash)`.
///
/// Claimed: the result is the named outcome of these two arguments
/// (`bcrypt::verify` splits the hash, re-hashes the password with the salt
/// and cost found there, and compares; nothing else enters).
#[verifier::external_body]
pub(crate) fn bcrypt_verify(password: &str, hash: &str) -> (r: Result<bool, bcrypt::BcryptError>)
    ensures
        match r {
            Ok(b) => bcrypt_verify_outcome(password@, hash@) == Some(b),
            Err(_) => bcrypt_verify_outcome(password@, hash@) is None,
        },
{
    bcrypt::verify(password, hash)
}

/// A character of bcrypt's base-64 alphabet (`./A-Za-z0-9`).
pub open spec fn is_bcrypt_base64_char(c: char) -> bool {
    ||| c == '.'
    ||| c == '/'
    ||| 'A' <= c <= 'Z'
    ||| 'a' <= c <= 'z'
    ||| '0' <= c <= '9'
}

/// The text of a bcrypt hash of version 2b made with cost 12 (bcrypt's
/// `DEFAULT_COST`): `$2b$12$`, then 22 characters of salt and 31 of hash,
/// all from bcrypt's base-64 alphabet.
pub open spec fn is_bcrypt_2b_cost12_hash(h: Seq<char>) -> bool {
    &&& h.len() == 60
    &&& h.subrange(0, 7) == "$2b$12$"@
    &&& forall|i: int| 7 <= i < 60 ==> is_bcrypt_base64_char(#[trigger] h[i])
}

/// Calls `bcrypt::hash(password, bcrypt::DEFAULT_COST)`.
///
/// Claimed: a hash that comes back verifies against the same password
/// (`bcrypt::verify` re-derives it from the salt and cost written into it),
/// and has the form `$2b$12$` + salt + hash that `HashParts::format` writes
/// (version 2b, cost 12, 16 salt bytes and 23 hash bytes in bcrypt's
/// base-64 without padding).
/// Not claimed: which hash comes back, since the salt is drawn at random, nor
/// when the call fails (only when the system's randomness source fails).
#[verifier::external_body]
pub(crate) fn bcrypt_hash(password: &str) -> (r: Result<String, bcrypt::BcryptError>)
    ensures
        r matches Ok(h) ==> bcrypt_verify_outcome(password@, h@) == Some(true),
        r matches Ok(h) ==> is_bcrypt_2b_cost12_hash(h@),
{
    bcrypt::hash(password, bcrypt::DEFAULT_COST)
}

} // verus!
