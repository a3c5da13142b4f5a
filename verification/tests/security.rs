use blog_core::ids::UserId;
use blog_core::infrastructure::security::{
    accept_claims, claims_for, password_hash, password_verify, DecodedClaims, JwtService,
    PasswordError, TokenError,
};

#[test]
fn test_jwt_service() {
    let jwt_service = JwtService::new("secret".to_string(), 24 * 60);
    let user_id = UserId::generate();

    let token = jwt_service.generate_token(user_id).expect("Failed to generate token");

    let claims = jwt_service.verify_token(&token).expect("Failed to verify token");

    assert_eq!(claims.sub, user_id.to_text());
}

#[test]
fn test_jwt_service_invalid_token() {
    let jwt_service = JwtService::new("secret".to_string(), 24 * 60);

    let other_service = JwtService::new("different_secret".to_string(), 24 * 60);
    let token = other_service.generate_token(UserId::generate()).expect("Failed to generate token");

    let result = jwt_service.verify_token(&token);

    assert!(result.is_err());
}

#[test]
fn token_has_three_parts_and_differs_from_the_subject() {
    let service = JwtService::new("0123456789abcdef0123456789abcdef".to_string(), 5);
    let id = UserId(0x550e8400e29b41d4a716446655440000);
    let token = service.generate_token(id).unwrap();
    assert_eq!(token.split('.').count(), 3);
    assert_ne!(token, id.to_text());
}

#[test]
fn token_claims_carry_issue_and_expiry() {
    let service = JwtService::new("secret".to_string(), 10);
    let id = UserId(7);
    let token = service.generate_token(id).unwrap();
    let claims = service.verify_token(&token).unwrap();
    assert_eq!(claims.exp, claims.iat + 600);
    assert_eq!(UserId::parse(&claims.sub).ok(), Some(id));
}

#[test]
fn expired_token_is_invalid() {
    let service = JwtService::new("secret".to_string(), -10);
    let token = service.generate_token(UserId(1)).unwrap();
    assert!(matches!(service.verify_token(&token), Err(TokenError::InvalidToken)));
}

#[test]
fn garbage_token_is_invalid() {
    let service = JwtService::new("secret".to_string(), 10);
    assert!(matches!(service.verify_token("a.jwt.token"), Err(TokenError::InvalidToken)));
    assert!(matches!(service.verify_token(""), Err(TokenError::InvalidToken)));
}

#[test]
fn tampered_token_is_invalid() {
    let service = JwtService::new("secret".to_string(), 10);
    let mut token = service.generate_token(UserId(1)).unwrap();
    let last = token.pop().unwrap();
    token.push(if last == 'A' { 'B' } else { 'A' });
    assert!(matches!(service.verify_token(&token), Err(TokenError::InvalidToken)));
}

#[test]
fn claims_for_computes_expiry_in_seconds() {
    let claims = claims_for(UserId(3), 1_700_000_000, 1440).unwrap();
    assert_eq!(claims.iat, 1_700_000_000);
    assert_eq!(claims.exp, 1_700_086_400);
    assert_eq!(claims.sub, "00000000-0000-0000-0000-000000000003");
}

#[test]
fn claims_for_rejects_times_out_of_range() {
    assert!(matches!(claims_for(UserId(3), -1, 10), Err(TokenError::ExpiryOutOfRange)));
    assert!(matches!(claims_for(UserId(3), 100, -10), Err(TokenError::ExpiryOutOfRange)));
    assert!(matches!(claims_for(UserId(3), 100, i64::MAX), Err(TokenError::ExpiryOutOfRange)));
    assert!(matches!(
        claims_for(UserId(3), i64::MAX, 1),
        Err(TokenError::ExpiryOutOfRange)
    ));
    assert!(claims_for(UserId(3), 600, -10).is_ok());
}

#[test]
fn accept_claims_needs_all_three() {
    let full = DecodedClaims { sub: Some("s".to_string()), exp: Some(2), iat: Some(1) };
    let claims = accept_claims(full).unwrap();
    assert_eq!((claims.sub.as_str(), claims.exp, claims.iat), ("s", 2, 1));
    let no_sub = DecodedClaims { sub: None, exp: Some(2), iat: Some(1) };
    assert!(matches!(accept_claims(no_sub), Err(TokenError::InvalidToken)));
    let no_iat = DecodedClaims { sub: Some("s".to_string()), exp: Some(2), iat: None };
    assert!(matches!(accept_claims(no_iat), Err(TokenError::InvalidToken)));
}

#[test]
fn password_hash_verifies_against_itself_only() {
    let hash = password_hash("hunter42").unwrap();
    assert!(hash.starts_with("$argon2"));
    assert_ne!(hash, "hunter42");
    assert_eq!(password_verify("hunter42", &hash).unwrap(), true);
    assert_eq!(password_verify("hunter43", &hash).unwrap(), false);
}

#[test]
fn password_hashes_are_salted() {
    let a = password_hash("same").unwrap();
    let b = password_hash("same").unwrap();
    assert_ne!(a, b);
}

#[test]
fn malformed_hash_is_a_distinct_error() {
    assert!(matches!(password_verify("x", "not a hash"), Err(PasswordError::Malformed(_))));
    assert!(matches!(password_verify("x", ""), Err(PasswordError::Malformed(_))));
}

#[test]
fn token_error_messages() {
    assert_eq!(TokenError::InvalidToken.message(), "InvalidToken");
    assert_eq!(TokenError::Signing("x".to_string()).message(), "Signing failed: x");
    assert_eq!(TokenError::ExpiryOutOfRange.message(), "Expiry out of range");
}
