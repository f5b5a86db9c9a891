//! Password hashing and verification with bcrypt.

use vstd::prelude::*;
use crate::error::{AppError, AppResult};

verus! {

/// The error type of the `bcrypt` crate, carried through unopened.
#[verifier::external_type_specification]
#[verifier::external_body]
pub struct ExBcryptError(bcrypt::BcryptError);

/// The work factor of every hash this library makes.
pub const HASH_COST: u32 = 12;

/// What `bcrypt::verify` returns for a password and a stored hash: whether
/// they match, or `None` where it rejects the hash as malformed.
pub uninterp spec fn bcrypt_verify(password: Seq<char>, hash: Seq<char>) -> Option<bool>;

/// Whether `hash` is a well-formed hash of `password`.
pub open spec fn password_matches(password: Seq<char>, hash: Seq<char>) -> bool {
    bcrypt_verify(password, hash) == Some(true)
}

/// The decimal digit of a value below ten.
pub open spec fn decimal_digit(n: int) -> char {
    if n == 0 { '0' } else if n == 1 { '1' } else if n == 2 { '2' } else if n == 3 { '3' }
    else if n == 4 { '4' } else if n == 5 { '5' } else if n == 6 { '6' } else if n == 7 { '7' }
    else if n == 8 { '8' } else { '9' }
}

/// How a hash made at `cost` begins: the version `2b` and the cost in two
/// decimal digits, each between dollar signs.
pub open spec fn cost_prefix(cost: u32) -> Seq<char> {
    seq!['$', '2', 'b', '$', decimal_digit(cost as int / 10), decimal_digit(cost as int % 10), '$']
}

/// Whether `hash` has the shape of a hash made at `cost`: sixty characters,
/// of which the first seven name version and cost. The salt and the digest
/// fill the rest, so the hash verifies with nothing else at hand.
pub open spec fn is_hash_at_cost(hash: Seq<char>, cost: u32) -> bool {
    hash.len() == 60 && hash.subrange(0, 7) == cost_prefix(cost)
}

/// Calls `bcrypt::hash`, which salts from the system's random source. The
/// hash itself is therefore not determined. Claimed of a hash that comes out:
/// it verifies against the password it was made from, since verification
/// recomputes with the salt and cost that the hash carries; the cost was one
/// that the hasher allows; and the hash is written as `$2b$`, the cost in two
/// digits, `$`, then 22 characters of salt and 31 of digest.
#[verifier::external_body]
fn bcrypt_hash(password: &str, cost: u32) -> (hashed: Result<String, bcrypt::BcryptError>)
    ensures
        hashed matches Ok(hash) ==> bcrypt_verify(password@, hash@) == Some(true),
        hashed matches Ok(hash) ==> 4 <= cost <= 31 && is_hash_at_cost(hash@, cost),
{
    bcrypt::hash(password, cost)
}

/// Calls `bcrypt::verify`. Its result depends on the two texts alone and is
/// named by `bcrypt_verify`.
#[verifier::external_body]
fn bcrypt_check(password: &str, hash: &str) -> (checked: Result<bool, bcrypt::BcryptError>)
    ensures
        checked matches Ok(matched) ==> bcrypt_verify(password@, hash@) == Some(matched),
        checked is Err ==> bcrypt_verify(password@, hash@) is None,
{
    bcrypt::verify(password, hash)
}

/// Turns the hasher's answer into the library's: the hash, or a hashing
/// error whatever went wrong inside.
pub fn hashing_outcome(hashed: Result<String, bcrypt::BcryptError>) -> (outcome: AppResult<String>)
    ensures
        hashed matches Ok(hash) ==> outcome == Ok::<String, AppError>(hash),
        hashed is Err ==> outcome == Err::<String, AppError>(AppError::Hashing),
{
    match hashed {
        Ok(hash) => Ok(hash),
        Err(_) => Err(AppError::Hashing),
    }
}

/// Turns the verifier's answer into the library's. A mismatch is `Ok(false)`,
/// not an error; only a hash that cannot be read is one.
pub fn verification_outcome(checked: Result<bool, bcrypt::BcryptError>) -> (outcome: AppResult<bool>)
    ensures
        checked matches Ok(matched) ==> outcome == Ok::<bool, AppError>(matched),
        checked is Err ==> outcome == Err::<bool, AppError>(AppError::Hashing),
{
    match checked {
        Ok(matched) => Ok(matched),
        Err(_) => Err(AppError::Hashing),
    }
}

/// What `verify_password` returns, given what the verifier makes of the pair.
pub open spec fn verification_result(password: Seq<char>, hash: Seq<char>) -> AppResult<bool> {
    match bcrypt_verify(password, hash) {
        Some(matched) => Ok(matched),
        None => Err(AppError::Hashing),
    }
}

/// Whether `hash` is what hashing `password` gives: a hash at the fixed cost
/// that verifies against the password.
pub open spec fn is_fresh_hash(password: Seq<char>, hash: Seq<char>) -> bool {
    password_matches(password, hash) && is_hash_at_cost(hash, HASH_COST)
}

/// Hashes a password with a fresh salt at the fixed cost. The hash names its
/// cost and carries its salt, so it verifies without anything else at hand.
/// The only error is a hashing error.
pub fn hash_password(password: &str) -> (hashed: AppResult<String>)
    ensures
        hashed matches Ok(hash) ==> is_fresh_hash(password@, hash@),
        hashed matches Err(error) ==> error == AppError::Hashing,
{
    hashing_outcome(bcrypt_hash(password, HASH_COST))
}

/// Checks a password against a stored hash. A mismatch is `Ok(false)`; a
/// stored hash that cannot be read is a hashing error.
pub fn verify_password(password: &str, hash: &str) -> (verified: AppResult<bool>)
    ensures
        verified == verification_result(password@, hash@),
{
    verification_outcome(bcrypt_check(password, hash))
}

/// Every hash this library makes begins with `$2b$12$`.
pub proof fn fixed_cost_prefix()
    ensures
        cost_prefix(HASH_COST) == "$2b$12$"@,
{
    reveal_strlit("$2b$12$");
    assert(cost_prefix(HASH_COST) =~= "$2b$12$"@);
}

} // verus!
