use gossip::jwt::{
    check_claims, decode, decode_at, encode, encode_at, TokenError, TOKEN_LIFETIME,
};

const SECRET: &[u8] = b"SECRET-REDACTED";

#[test]
fn lifetime_is_180_days() {
    assert_eq!(TOKEN_LIFETIME, 60 * 60 * 24 * 30 * 6);
    assert_eq!(TOKEN_LIFETIME, 15_552_000);
}

#[test]
fn issued_token_validates_to_the_same_id() {
    let token = encode_at(7, SECRET, 1_000).unwrap();
    let claims = decode_at(&token, SECRET, 1_000).unwrap();
    assert_eq!(claims.id, 7);
    assert_eq!(claims.exp, 1_000 + 15_552_000);
}

#[test]
fn token_is_good_through_its_expiry_and_not_after() {
    let token = encode_at(42, SECRET, 500).unwrap();
    let exp = 500 + TOKEN_LIFETIME;
    assert_eq!(decode_at(&token, SECRET, 0).unwrap().id, 42);
    assert_eq!(decode_at(&token, SECRET, exp - 1).unwrap().id, 42);
    assert_eq!(decode_at(&token, SECRET, exp).unwrap().id, 42);
    assert_eq!(decode_at(&token, SECRET, exp + 1).unwrap_err(), TokenError::Expired);
    assert_eq!(decode_at(&token, SECRET, u64::MAX).unwrap_err(), TokenError::Expired);
}

#[test]
fn token_has_three_parts_and_differs_from_its_inputs() {
    let token = encode_at(1, SECRET, 1_000).unwrap();
    assert_eq!(token.split('.').count(), 3);
    assert_ne!(token.as_bytes(), SECRET);
    assert_ne!(token, "1");
}

#[test]
fn signing_is_a_function_of_id_expiry_and_secret() {
    let a = encode_at(1, SECRET, 1_000).unwrap();
    assert_eq!(a, encode_at(1, SECRET, 1_000).unwrap());
    assert_ne!(a, encode_at(2, SECRET, 1_000).unwrap());
    assert_ne!(a, encode_at(1, SECRET, 1_001).unwrap());
    assert_ne!(a, encode_at(1, b"other secret", 1_000).unwrap());
}

#[test]
fn wrong_secret_is_an_invalid_token() {
    let token = encode_at(7, SECRET, 1_000).unwrap();
    assert_eq!(decode_at(&token, b"other secret", 1_000).unwrap_err(), TokenError::InvalidToken);
}

#[test]
fn tampered_token_is_invalid() {
    let token = encode_at(7, SECRET, 1_000).unwrap();
    let other = encode_at(8, SECRET, 1_000).unwrap();
    let parts: Vec<&str> = token.split('.').collect();
    let other_parts: Vec<&str> = other.split('.').collect();
    let forged = format!("{}.{}.{}", parts[0], other_parts[1], parts[2]);
    assert_eq!(decode_at(&forged, SECRET, 1_000).unwrap_err(), TokenError::InvalidToken);
}

#[test]
fn malformed_tokens_are_invalid() {
    assert_eq!(decode_at("", SECRET, 0).unwrap_err(), TokenError::InvalidToken);
    assert_eq!(decode_at("a.b", SECRET, 0).unwrap_err(), TokenError::InvalidToken);
    assert_eq!(decode_at("a.b.c", SECRET, 0).unwrap_err(), TokenError::InvalidToken);
    assert_eq!(decode_at("not a token", SECRET, 0).unwrap_err(), TokenError::InvalidToken);
}

#[test]
fn expiry_out_of_range_is_unissuable() {
    assert_eq!(encode_at(1, SECRET, u64::MAX).unwrap_err(), TokenError::Unissuable);
    assert_eq!(
        encode_at(1, SECRET, u64::MAX - TOKEN_LIFETIME + 1).unwrap_err(),
        TokenError::Unissuable
    );
    let token = encode_at(1, SECRET, u64::MAX - TOKEN_LIFETIME).unwrap();
    assert_eq!(decode_at(&token, SECRET, u64::MAX).unwrap().exp, u64::MAX);
}

#[test]
fn negative_and_extreme_ids_round_trip() {
    for id in [i32::MIN, -1, 0, 1, i32::MAX] {
        let token = encode_at(id, SECRET, 10).unwrap();
        assert_eq!(decode_at(&token, SECRET, 10).unwrap().id, id);
    }
}

#[test]
fn check_claims_decides_each_case() {
    assert_eq!(check_claims(None, Some(10), 0).unwrap_err(), TokenError::InvalidToken);
    assert_eq!(check_claims(Some(1), None, 0).unwrap_err(), TokenError::InvalidToken);
    assert_eq!(check_claims(None, None, 0).unwrap_err(), TokenError::InvalidToken);
    assert_eq!(
        check_claims(Some(i32::MAX as i64 + 1), Some(10), 0).unwrap_err(),
        TokenError::InvalidToken
    );
    assert_eq!(
        check_claims(Some(i32::MIN as i64 - 1), Some(10), 0).unwrap_err(),
        TokenError::InvalidToken
    );
    assert_eq!(
        check_claims(Some(i32::MAX as i64 + 1), Some(10), 11).unwrap_err(),
        TokenError::InvalidToken
    );
    assert_eq!(check_claims(Some(1), Some(10), 11).unwrap_err(), TokenError::Expired);
    let claims = check_claims(Some(1), Some(10), 10).unwrap();
    assert_eq!((claims.id, claims.exp), (1, 10));
    let claims = check_claims(Some(-5), Some(u64::MAX), 0).unwrap();
    assert_eq!((claims.id, claims.exp), (-5, u64::MAX));
}

#[test]
fn clock_issued_token_validates_now() {
    let token = encode(9, SECRET).unwrap();
    let claims = decode(&token, SECRET).unwrap();
    assert_eq!(claims.id, 9);
    let now = std::time::SystemTime::now()
        .duration_since(std::time::UNIX_EPOCH)
        .unwrap()
        .as_secs();
    assert!(claims.exp >= now + TOKEN_LIFETIME - 5);
    assert!(claims.exp <= now + TOKEN_LIFETIME + 5);
}

#[test]
fn clock_refuses_a_token_long_expired() {
    let token = encode_at(9, SECRET, 0).unwrap();
    assert_eq!(decode(&token, SECRET).unwrap_err(), TokenError::Expired);
}

#[test]
fn empty_secret_still_signs_and_checks() {
    let token = encode_at(3, b"", 100).unwrap();
    assert_eq!(decode_at(&token, b"", 100).unwrap().id, 3);
    assert_eq!(decode_at(&token, b"x", 100).unwrap_err(), TokenError::InvalidToken);
}
