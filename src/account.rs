//! Accounts: registration, login and password change, decided on what the store answered.

use vstd::prelude::*;
use crate::error::{Error, StoreError};
use crate::jwt::{create_token, signed_token_of, TOKEN_LIFETIME};

pub mod request;
pub mod response;

verus! {

/// What the store holds of a user looked up by email.
#[derive(Clone, Debug, PartialEq, Eq)]
pub struct StoredUser {
    pub id: i64,
    pub password: String,
}

pub open spec fn is_internal(e: Error) -> bool {
    e matches Error::InternalServerError(m) && m@ == "internal server error"@
}

fn internal_error() -> (r: Error)
    ensures
        is_internal(r),
{
    Error::InternalServerError(String::from_str("internal server error"))
}

/// The token answer for user `id` with `email`, issued at `now`: on success it holds the
/// token signed for those claims; it fails, as an internal error, only where the expiry does
/// not fit in 64 bits.
fn token_response(id: i64, email: &str, secret: &str, now: u64) -> (r: Result<response::Create, Error>)
    ensures
        r is Ok <==> now as int + TOKEN_LIFETIME <= u64::MAX,
        r matches Ok(c) ==> c.token@ == signed_token_of(id, email@, (now + TOKEN_LIFETIME) as u64, secret@),
        r matches Err(e) ==> is_internal(e),
{
    match create_token(id, email, secret, now) {
        Ok(token) => Ok(response::Create { token }),
        Err(_) => Err(internal_error()),
    }
}

/// Registration, once the store answered the insert of `payload` with the new user's id
/// or a failure: a taken login or email is `Conflict`, any other failure is internal, and
/// success answers a token for the new user issued at `now` (internal only where its expiry
/// does not fit in 64 bits).
pub fn create(inserted: Result<i64, StoreError>, payload: &request::Create, secret: &str, now: u64) -> (r: Result<response::Create, Error>)
    ensures
        match inserted {
            Ok(id) => (r is Ok <==> now as int + TOKEN_LIFETIME <= u64::MAX)
                && (r matches Ok(c) ==> c.token@ == signed_token_of(id, payload.email@, (now + TOKEN_LIFETIME) as u64, secret@))
                && (r matches Err(e) ==> is_internal(e)),
            Err(StoreError::UniqueViolation) => r == Err::<response::Create, Error>(Error::Conflict),
            Err(_) => r matches Err(e) && is_internal(e),
        },
{
    match inserted {
        Ok(id) => token_response(id, payload.email.as_str(), secret, now),
        Err(StoreError::UniqueViolation) => Err(Error::Conflict),
        Err(_) => Err(internal_error()),
    }
}

/// Login, once the store answered the lookup of `payload.email`: an unknown email is
/// `NotFound`, a wrong password `Unauthorized`, any other failure internal; a matching
/// password answers a token for the user issued at `now` (internal only where its expiry
/// does not fit in 64 bits).
pub fn login(found: Result<StoredUser, StoreError>, payload: &request::Login, secret: &str, now: u64) -> (r: Result<response::Create, Error>)
    ensures
        match found {
            Ok(user) => if user.password@ != payload.password@ {
                r matches Err(e) && (e matches Error::Unauthorized(m) && m@ == "wrong password"@)
            } else {
                (r is Ok <==> now as int + TOKEN_LIFETIME <= u64::MAX)
                    && (r matches Ok(c) ==> c.token@ == signed_token_of(user.id, payload.email@, (now + TOKEN_LIFETIME) as u64, secret@))
                    && (r matches Err(e) ==> is_internal(e))
            },
            Err(StoreError::RowNotFound) => r matches Err(e) && (e matches Error::NotFound(m)
                && m@ == "email `"@ + payload.email@ + "` not found"@),
            Err(_) => r matches Err(e) && is_internal(e),
        },
{
    match found {
        Ok(user) => if user.password != payload.password {
            Err(Error::Unauthorized(String::from_str("wrong password")))
        } else {
            token_response(user.id, payload.email.as_str(), secret, now)
        },
        Err(StoreError::RowNotFound) => {
            let mut m = String::from_str("email `");
            m.append(payload.email.as_str());
            m.append("` not found");
            Err(Error::NotFound(m))
        },
        Err(_) => Err(internal_error()),
    }
}

/// Password change, once the store answered with the caller's stored password: the old
/// password must match it (`BadRequest("invalid password")` otherwise); a missing user is
/// `NotFound`, any other failure internal. On `Ok` the new password may be stored.
pub fn change_password(stored: Result<String, StoreError>, payload: &request::ChangePassword) -> (r: Result<(), Error>)
    ensures
        match stored {
            Ok(p) => if p@ == payload.old_password@ {
                r is Ok
            } else {
                r matches Err(e) && (e matches Error::BadRequest(m) && m@ == "invalid password"@)
            },
            Err(StoreError::RowNotFound) => r matches Err(e) && (e matches Error::NotFound(m) && m@ == "not found"@),
            Err(_) => r matches Err(e) && is_internal(e),
        },
{
    match stored {
        Ok(p) => if p != payload.old_password {
            Err(Error::BadRequest(String::from_str("invalid password")))
        } else {
            Ok(())
        },
        Err(StoreError::RowNotFound) => Err(Error::NotFound(String::from_str("not found"))),
        Err(_) => Err(internal_error()),
    }
}

} // verus!
