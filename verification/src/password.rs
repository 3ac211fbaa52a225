//! Password hashing, done by bcrypt.

use crate::response::{APIResult, ErrorResponse, StatusCode};
use vstd::prelude::*;

verus! {

/// The work factor of every hash made here.
pub const BCRYPT_COST: u32 = 10;

/// Declares `bcrypt::BcryptError`, the error of both bcrypt calls, as an
/// opaque type.
#[verifier::external_type_specification]
#[verifier::external_body]
pub struct ExBcryptError(bcrypt::BcryptError);

/// What `bcrypt::verify` answers for a password and a stored hash: whether
/// they match, or `None` where the hash is not one that bcrypt can read.
pub uninterp spec fn bcrypt_verify(password: Seq<char>, hash: Seq<char>) -> Option<bool>;

/// Calls `bcrypt::hash`. The salt is random, so the hash is not determined
/// by the arguments; what is claimed of a hash that comes back is that
/// `bcrypt::verify` accepts the password against it, since it recomputes the
/// hash from the cost and salt that the hash text carries.
#[verifier::external_body]
fn bcrypt_hash(password: &str, cost: u32) -> (hashed: Result<String, bcrypt::BcryptError>)
    ensures
        hashed matches Ok(hash) ==> bcrypt_verify(password@, hash@) == Some(true),
{
    bcrypt::hash(password, cost)
}

/// Calls `bcrypt::verify`, whose answer depends on its two arguments alone.
#[verifier::external_body]
fn bcrypt_check(password: &str, hash: &str) -> (checked: Result<bool, bcrypt::BcryptError>)
    ensures
        match checked {
            Ok(matches) => bcrypt_verify(password@, hash@) == Some(matches),
            Err(_) => bcrypt_verify(password@, hash@) is None,
        },
{
    bcrypt::verify(password, hash)
}

/// Hashes a password for storage. A hash that is returned matches the
/// password.
pub fn hash_password(password: &str) -> (hashed: APIResult<String>)
    ensures
        match hashed {
            Ok(hash) => bcrypt_verify(password@, hash@) == Some(true),
            Err(failure) => failure.has(
                StatusCode::InternalServerError,
                "Failed to hash password."@,
            ),
        },
{
    match bcrypt_hash(password, BCRYPT_COST) {
        Ok(hash) => Ok(hash),
        Err(_) => Err(
            ErrorResponse::from(StatusCode::InternalServerError, "Failed to hash password."),
        ),
    }
}

/// Checks a password against a stored hash. Fails where the stored text is
/// not a hash.
pub fn check_password(password: &str, hash: &str) -> (checked: APIResult<bool>)
    ensures
        match checked {
            Ok(matches) => bcrypt_verify(password@, hash@) == Some(matches),
            Err(failure) => {
                &&& bcrypt_verify(password@, hash@) is None
                &&& failure.has(StatusCode::InternalServerError, "Failed to verify password."@)
            },
        },
{
    match bcrypt_check(password, hash) {
        Ok(matches) => Ok(matches),
        Err(_) => Err(
            ErrorResponse::from(StatusCode::InternalServerError, "Failed to verify password."),
        ),
    }
}

} // verus!
