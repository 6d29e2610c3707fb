//! The guard in front of authenticated requests: the bearer token of the `Authorization`
//! header, verified under the shared secret, names the caller.

use vstd::prelude::*;
use headers::authorization::{Authorization, Bearer};
use headers::Header;
use crate::error::Error;
use crate::jwt::{claims_outcome, decoded_claims_of};

verus! {

/// The id of the authenticated caller.
#[derive(Clone, Copy, Debug, PartialEq, Eq, Structural)]
pub struct AuthUser(pub i64);

/// A character that a header value may hold and still be read as text.
pub open spec fn header_text_char(c: char) -> bool {
    c == '\t' || (' ' <= c && c <= '~')
}

pub open spec fn ascii_lower(c: char) -> char {
    if 'A' <= c && c <= 'Z' {
        ((c as u32) + 32) as char
    } else {
        c
    }
}

/// `s` without its leading spaces and tabs.
pub open spec fn trim_leading_blanks(s: Seq<char>) -> Seq<char>
    decreases s.len(),
{
    if s.len() > 0 && (s[0] == ' ' || s[0] == '\t') {
        trim_leading_blanks(s.drop_first())
    } else {
        s
    }
}

/// The token of an `Authorization` value of the `Bearer` scheme: the value is text, starts
/// with `Bearer` in any letter case and a space, and the token is what follows, without
/// leading blanks.
pub open spec fn bearer_token_of(value: Seq<char>) -> Option<Seq<char>> {
    if value.len() > 6 && value[6] == ' '
        && (forall|i: int| 0 <= i < value.len() ==> #[trigger] header_text_char(value[i]))
        && value.subrange(0, 6).map_values(|c: char| ascii_lower(c)) == "bearer"@ {
        Some(trim_leading_blanks(value.subrange(7, value.len() as int)))
    } else {
        None
    }
}

/// Relies on `HeaderValue::from_str` and `Authorization::<Bearer>::decode` of the headers
/// crate, then `token()`: the value must be visible ASCII or tabs, begin with `Bearer ` in
/// any letter case, and the token is the rest without leading whitespace.
#[verifier::external_body]
fn bearer_token(value: &str) -> (r: Option<String>)
    ensures
        r is Some <==> bearer_token_of(value@) is Some,
        r matches Some(t) ==> t@ == bearer_token_of(value@)->0,
{
    let value = headers::HeaderValue::from_str(value).ok()?;
    let auth = Authorization::<Bearer>::decode(&mut std::iter::once(&value)).ok()?;
    Some(auth.token().to_string())
}

/// The answer of the guard at time `now` to a request whose first `Authorization` value is
/// `authorization`: the caller's id, or `None` for the uniform "invalid token" refusal.
pub open spec fn caller_of(authorization: Option<&str>, secret: Seq<char>, now: u64) -> Option<i64> {
    match authorization {
        None => None,
        Some(value) => match bearer_token_of(value@) {
            None => None,
            Some(token) => match claims_outcome(decoded_claims_of(token, secret), now) {
                Ok(id) => Some(id),
                Err(_) => None,
            },
        },
    }
}

pub open spec fn is_invalid_token(e: Error) -> bool {
    e matches Error::BadRequest(m) && m@ == "invalid token"@
}

impl AuthUser {
    /// Authenticates a request at time `now` from its first `Authorization` value. A missing
    /// header, another scheme and every token failure give the same `BadRequest("invalid token")`.
    pub fn from_request_parts(authorization: Option<&str>, secret: &str, now: u64) -> (r: Result<AuthUser, Error>)
        ensures
            match caller_of(authorization, secret@, now) {
                Some(id) => r == Ok::<AuthUser, Error>(AuthUser(id)),
                None => r matches Err(e) && is_invalid_token(e),
            },
    {
        let value = match authorization {
            Some(v) => v,
            None => return Err(Error::BadRequest(String::from_str("invalid token"))),
        };
        let token = match bearer_token(value) {
            Some(t) => t,
            None => return Err(Error::BadRequest(String::from_str("invalid token"))),
        };
        match crate::jwt::user_id(token.as_str(), secret, now) {
            Ok(id) => Ok(AuthUser(id)),
            Err(_) => Err(Error::BadRequest(String::from_str("invalid token"))),
        }
    }
}

} // verus!
