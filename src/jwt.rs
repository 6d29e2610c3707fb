//! Session tokens: HS256-signed claims `{sub: email, user_id, exp}` that stay valid for ten
//! years. There is no revocation: a leaked token is accepted until it expires.

use vstd::prelude::*;
use jsonwebtoken::errors::ErrorKind;
use jsonwebtoken::{Algorithm, DecodingKey, EncodingKey, Header, Validation};
use serde_json::Value;

verus! {

/// Lifetime of an issued token, in seconds (ten years of 365 days).
pub const TOKEN_LIFETIME: u64 = 315_360_000;

/// Why a token was refused or could not be made.
#[derive(Clone, Copy, Debug, PartialEq, Eq, Structural)]
pub enum Error {
    /// The token cannot be read as a token of this service.
    Malformed,
    /// The signature does not match the token's content under the secret.
    InvalidSignature,
    /// The token's expiry is not after the time of checking.
    Expired,
    /// The signing library refused to sign (it does not for an HMAC key).
    Signing,
    /// The time of issue is so late that the expiry does not fit in 64 bits.
    ExpiryOutOfRange,
}

/// The claims of an issued token that the checks read.
#[derive(Clone, Copy, Debug, PartialEq, Eq, Structural)]
pub struct Claims {
    pub user_id: i64,
    /// Expiry, in seconds since the Unix epoch.
    pub exp: u64,
}

/// The claims as read from a verified token: `None` where a claim is missing or not an
/// integer of the right range.
#[derive(Clone, Copy, Debug, PartialEq, Eq, Structural)]
pub struct DecodedClaims {
    pub user_id: Option<i64>,
    pub exp: Option<u64>,
}

/// How reading a token failed before any check of its claims.
#[derive(Clone, Copy, Debug, PartialEq, Eq, Structural)]
pub enum DecodeFailure {
    /// Not three segments, not base64, not JSON, another algorithm, or no numeric `exp`.
    Unreadable,
    /// The signature segment is not the HS256 signature of the rest under the secret.
    BadSignature,
}

/// The token text that jsonwebtoken produces for the given claims and secret.
pub uninterp spec fn signed_token_of(user_id: i64, email: Seq<char>, exp: u64, secret: Seq<char>) -> Seq<char>;

/// What jsonwebtoken reads from a token under a secret, expiry left unchecked.
pub uninterp spec fn decoded_claims_of(token: Seq<char>, secret: Seq<char>) -> Decoded;

/// What reading a token gives.
pub type Decoded = Result<DecodedClaims, DecodeFailure>;

/// What reading gives for a token issued with the claims `c`.
pub open spec fn decoded_from(c: Claims) -> DecodedClaims {
    DecodedClaims { user_id: Some(c.user_id), exp: Some(c.exp) }
}

/// `token` is what `create_token` issues under `secret` for the claims `c`, for some email.
pub open spec fn issued_with(token: Seq<char>, secret: Seq<char>, c: Claims) -> bool {
    exists|email: Seq<char>| token == signed_token_of(c.user_id, email, c.exp, secret)
}

/// Relies on jsonwebtoken::encode with the default (HS256) header and a key made from the
/// secret's bytes. It fails only for a key of another algorithm family or claims that do not
/// serialise, neither of which can happen here, so it always yields the token; the text
/// depends on the claims and the secret alone.
#[verifier::external_body]
fn encode_claims(user_id: i64, email: &str, exp: u64, secret: &str) -> (r: Option<String>)
    ensures
        r is Some,
        r matches Some(t) ==> t@ == signed_token_of(user_id, email@, exp, secret@),
{
    let mut claims = serde_json::Map::new();
    claims.insert("sub".to_string(), Value::from(email));
    claims.insert("user_id".to_string(), Value::from(user_id));
    claims.insert("exp".to_string(), Value::from(exp));
    jsonwebtoken::encode(&Header::default(), &claims, &EncodingKey::from_secret(secret.as_bytes())).ok()
}

/// Relies on jsonwebtoken::decode, HS256 only, expiry validation off: the signature is
/// recomputed from the secret and compared, then `user_id` and `exp` are read. The outcome
/// depends on the token and the secret alone, and a token that `encode_claims` made with
/// this secret yields the claims it was made from.
#[verifier::external_body]
fn decode_claims(token: &str, secret: &str) -> (r: Decoded)
    ensures
        r == decoded_claims_of(token@, secret@),
        forall|c: Claims| #[trigger] issued_with(token@, secret@, c) ==> r == Decoded::Ok(decoded_from(c)),
{
    let mut validation = Validation::new(Algorithm::HS256);
    validation.validate_exp = false;
    match jsonwebtoken::decode::<serde_json::Map<String, Value>>(token, &DecodingKey::from_secret(secret.as_bytes()), &validation) {
        Ok(d) => Ok(DecodedClaims {
            user_id: d.claims.get("user_id").and_then(Value::as_i64),
            exp: d.claims.get("exp").and_then(Value::as_u64),
        }),
        Err(e) => match e.kind() {
            ErrorKind::InvalidSignature => Err(DecodeFailure::BadSignature),
            _ => Err(DecodeFailure::Unreadable),
        },
    }
}

/// The answer to a token whose reading gave `decoded`, checked at time `now`.
pub open spec fn claims_outcome(decoded: Decoded, now: u64) -> Result<i64, Error> {
    match decoded {
        Err(DecodeFailure::Unreadable) => Err(Error::Malformed),
        Err(DecodeFailure::BadSignature) => Err(Error::InvalidSignature),
        Ok(DecodedClaims { user_id: Some(id), exp: Some(exp) }) => if exp <= now {
            Err(Error::Expired)
        } else {
            Ok(id)
        },
        Ok(_) => Err(Error::Malformed),
    }
}

/// Checks what was read from a token at time `now`: the user id if the token has not expired.
/// A token whose claims lack a user id or an expiry is malformed.
pub fn check_claims(decoded: Decoded, now: u64) -> (r: Result<i64, Error>)
    ensures
        r == claims_outcome(decoded, now),
{
    match decoded {
        Err(DecodeFailure::Unreadable) => Err(Error::Malformed),
        Err(DecodeFailure::BadSignature) => Err(Error::InvalidSignature),
        Ok(DecodedClaims { user_id: Some(id), exp: Some(exp) }) => if exp <= now {
            Err(Error::Expired)
        } else {
            Ok(id)
        },
        Ok(_) => Err(Error::Malformed),
    }
}

/// Issues a token for `user_id` and `email`, signed with `secret`, at time `now` (seconds
/// since the Unix epoch); it expires `TOKEN_LIFETIME` seconds later. It fails only where that
/// expiry does not fit in 64 bits.
pub fn create_token(user_id: i64, email: &str, secret: &str, now: u64) -> (r: Result<String, Error>)
    ensures
        r is Ok <==> now as int + TOKEN_LIFETIME <= u64::MAX,
        r matches Ok(t) ==> t@ == signed_token_of(user_id, email@, (now + TOKEN_LIFETIME) as u64, secret@),
        r matches Err(e) ==> e == Error::ExpiryOutOfRange,
{
    let exp: u64 = match now.checked_add(TOKEN_LIFETIME) {
        Some(exp) => exp,
        None => return Err(Error::ExpiryOutOfRange),
    };
    match encode_claims(user_id, email, exp, secret) {
        Some(token) => Ok(token),
        None => Err(Error::Signing),
    }
}

/// Verifies `token` under `secret` at time `now` and yields the user id it was issued for.
/// A token issued with this secret yields the user id it was issued for before its expiry,
/// and `Expired` from its expiry on.
pub fn user_id(token: &str, secret: &str, now: u64) -> (r: Result<i64, Error>)
    ensures
        r == claims_outcome(decoded_claims_of(token@, secret@), now),
        forall|c: Claims| #[trigger] issued_with(token@, secret@, c) ==> r == (if c.exp <= now {
            Err::<i64, Error>(Error::Expired)
        } else {
            Ok::<i64, Error>(c.user_id)
        }),
{
    let decoded = decode_claims(token, secret);
    check_claims(decoded, now)
}

} // verus!
