use nrs::jwt::{check_claims, create_token, user_id, DecodeFailure, DecodedClaims, Error, TOKEN_LIFETIME};

const SECRET: &str = "SECRET-REDACTED";
const NOW: u64 = 1_700_000_000;

#[test]
fn issued_token_verifies_to_its_user() {
    let token = create_token(42, "ann@example.com", SECRET, NOW).unwrap();
    assert_eq!(token.split('.').count(), 3);
    assert_eq!(user_id(&token, SECRET, NOW + 1), Ok(42));
    assert_eq!(user_id(&token, SECRET, NOW + TOKEN_LIFETIME - 1), Ok(42));
}

#[test]
fn negative_and_large_user_ids_round_trip() {
    for id in [-1i64, 0, i64::MAX, i64::MIN] {
        let token = create_token(id, "x@y.z", SECRET, NOW).unwrap();
        assert_eq!(user_id(&token, SECRET, NOW), Ok(id));
    }
}

#[test]
fn token_with_past_expiry_is_expired() {
    let token = create_token(7, "ann@example.com", SECRET, 0).unwrap();
    assert_eq!(user_id(&token, SECRET, TOKEN_LIFETIME), Err(Error::Expired));
    assert_eq!(user_id(&token, SECRET, NOW), Err(Error::Expired));
}

#[test]
fn token_under_another_secret_has_invalid_signature() {
    let token = create_token(42, "ann@example.com", SECRET, NOW).unwrap();
    assert_eq!(user_id(&token, "other", NOW), Err(Error::InvalidSignature));
}

#[test]
fn single_bit_flips_of_signature_are_rejected() {
    let token = create_token(42, "ann@example.com", SECRET, NOW).unwrap();
    let dot = token.rfind('.').unwrap();
    let bytes = token.as_bytes();
    for pos in dot + 1..bytes.len() {
        for bit in 0..8 {
            let mut changed = bytes.to_vec();
            changed[pos] ^= 1 << bit;
            let flipped = changed[pos];
            if !flipped.is_ascii() || flipped == b'.' {
                continue;
            }
            let text = String::from_utf8(changed).unwrap();
            assert_eq!(user_id(&text, SECRET, NOW), Err(Error::InvalidSignature), "byte {} bit {}", pos, bit);
        }
    }
}

#[test]
fn garbage_is_malformed() {
    assert_eq!(user_id("", SECRET, NOW), Err(Error::Malformed));
    assert_eq!(user_id("not a token", SECRET, NOW), Err(Error::Malformed));
    assert_eq!(user_id("a.b.c", SECRET, NOW), Err(Error::Malformed));
}

#[test]
fn expiry_that_does_not_fit_is_refused() {
    assert_eq!(create_token(1, "a@b.c", SECRET, u64::MAX), Err(Error::ExpiryOutOfRange));
    assert_eq!(create_token(1, "a@b.c", SECRET, u64::MAX - TOKEN_LIFETIME + 1), Err(Error::ExpiryOutOfRange));
    assert!(create_token(1, "a@b.c", SECRET, u64::MAX - TOKEN_LIFETIME).is_ok());
}

#[test]
fn token_expires_exactly_at_its_lifetime() {
    let token = create_token(5, "bo@example.com", SECRET, NOW).unwrap();
    assert_eq!(user_id(&token, SECRET, NOW + TOKEN_LIFETIME - 1), Ok(5));
    assert_eq!(user_id(&token, SECRET, NOW + TOKEN_LIFETIME), Err(Error::Expired));
}

#[test]
fn claims_checks() {
    let c = DecodedClaims { user_id: Some(9), exp: Some(100) };
    assert_eq!(check_claims(Ok(c), 99), Ok(9));
    assert_eq!(check_claims(Ok(c), 100), Err(Error::Expired));
    assert_eq!(check_claims(Ok(c), 101), Err(Error::Expired));
    assert_eq!(check_claims(Ok(DecodedClaims { user_id: None, exp: Some(100) }), 0), Err(Error::Malformed));
    assert_eq!(check_claims(Ok(DecodedClaims { user_id: Some(9), exp: None }), 0), Err(Error::Malformed));
    assert_eq!(check_claims(Err(DecodeFailure::Unreadable), 0), Err(Error::Malformed));
    assert_eq!(check_claims(Err(DecodeFailure::BadSignature), 0), Err(Error::InvalidSignature));
}

#[test]
fn lifetime_is_ten_years() {
    assert_eq!(TOKEN_LIFETIME, 3600 * 24 * 365 * 10);
}

#[test]
fn token_without_user_id_is_malformed() {
    let mut claims = serde_json::Map::new();
    claims.insert("exp".to_string(), serde_json::Value::from(NOW + 100));
    let key = jsonwebtoken::EncodingKey::from_secret(SECRET.as_bytes());
    let token = jsonwebtoken::encode(&jsonwebtoken::Header::default(), &claims, &key).unwrap();
    assert_eq!(user_id(&token, SECRET, NOW), Err(Error::Malformed));
}

#[test]
fn issued_token_is_a_standard_hs256_jwt() {
    let token = create_token(42, "ann@example.com", SECRET, NOW).unwrap();
    let mut validation = jsonwebtoken::Validation::new(jsonwebtoken::Algorithm::HS256);
    validation.validate_exp = false;
    let key = jsonwebtoken::DecodingKey::from_secret(SECRET.as_bytes());
    let data = jsonwebtoken::decode::<serde_json::Map<String, serde_json::Value>>(&token, &key, &validation).unwrap();
    assert_eq!(data.claims.get("sub").and_then(|v| v.as_str()), Some("ann@example.com"));
    assert_eq!(data.claims.get("user_id").and_then(|v| v.as_i64()), Some(42));
    assert_eq!(data.claims.get("exp").and_then(|v| v.as_u64()), Some(NOW + TOKEN_LIFETIME));
}
