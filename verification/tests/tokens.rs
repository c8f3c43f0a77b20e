use jsonwebtoken::{decode, Algorithm, DecodingKey, Validation};
use todo_api::auth::extractor::AuthUser;
use todo_api::config::{JwtAlgorithm, JwtConfig};
use todo_api::error::AppError;
use todo_api::jwt::{
    generate_access_token, generate_refresh_token, verify_access_token, verify_refresh_token,
    Claims, TokenError, TokenType,
};

fn decode_json(token: &str, secret: &str, alg: Algorithm) -> serde_json::Value {
    decode::<serde_json::Value>(token, &DecodingKey::from_secret(secret.as_bytes()), &Validation::new(alg))
        .ok()
        .unwrap()
        .claims
}

#[test]
fn access_token_carries_claims() {
    let cfg = JwtConfig::new("s3cret".to_string(), 15, 7);
    let token = generate_access_token(0x1234, &cfg).ok().unwrap();
    let c = decode_json(&token, "s3cret", Algorithm::HS256);
    assert_eq!(c["sub"], "00000000-0000-0000-0000-000000001234");
    assert_eq!(c["typ"], "Access");
    assert_eq!(c["exp"].as_u64().unwrap() - c["iat"].as_u64().unwrap(), 15 * 60);
    let keys: Vec<&String> = c.as_object().unwrap().keys().collect();
    assert_eq!(keys, vec!["sub", "exp", "iat", "typ"]);
}

#[test]
fn refresh_token_carries_claims() {
    let cfg = JwtConfig::new("s3cret".to_string(), 15, 7);
    let token = generate_refresh_token(1, &cfg).ok().unwrap();
    let c = decode_json(&token, "s3cret", Algorithm::HS256);
    assert_eq!(c["typ"], "Refresh");
    assert_eq!(c["exp"].as_u64().unwrap() - c["iat"].as_u64().unwrap(), 7 * 86400);
}

#[test]
fn other_hmac_algorithm_is_used() {
    let mut cfg = JwtConfig::new("k".to_string(), 1, 1);
    cfg.algorithm = JwtAlgorithm::HS384;
    let token = generate_access_token(1, &cfg).ok().unwrap();
    let c = decode_json(&token, "k", Algorithm::HS384);
    assert_eq!(c["typ"], "Access");
}

#[test]
fn non_hmac_algorithm_fails_to_sign() {
    let mut cfg = JwtConfig::new("k".to_string(), 1, 1);
    cfg.algorithm = JwtAlgorithm::RS256;
    assert_eq!(generate_access_token(1, &cfg).err(), Some(TokenError::Encoding));
}

#[test]
fn huge_lifetime_is_out_of_range() {
    let cfg = JwtConfig::new("k".to_string(), i64::MAX, i64::MAX);
    assert_eq!(generate_access_token(1, &cfg).err(), Some(TokenError::TimeOutOfRange));
    assert_eq!(generate_refresh_token(1, &cfg).err(), Some(TokenError::TimeOutOfRange));
}

fn claims(typ: TokenType) -> Claims {
    Claims { sub: 5, exp: 10, iat: 1, typ }
}

fn jwt_error() -> jsonwebtoken::errors::Error {
    jsonwebtoken::errors::ErrorKind::InvalidToken.into()
}

#[test]
fn verify_checks_the_type() {
    assert_eq!(verify_access_token(Ok(claims(TokenType::Access))).ok(), Some(claims(TokenType::Access)));
    assert_eq!(verify_access_token(Ok(claims(TokenType::Refresh))).err(), Some("Invalid access token type"));
    assert_eq!(verify_refresh_token(Ok(claims(TokenType::Refresh))).ok(), Some(claims(TokenType::Refresh)));
    assert_eq!(verify_refresh_token(Ok(claims(TokenType::Access))).err(), Some("Invalid refresh token type"));
    assert_eq!(verify_access_token(Err(jwt_error())).err(), Some("Invalid token"));
    assert_eq!(verify_refresh_token(Err(jwt_error())).err(), Some("Invalid token"));
}

#[test]
fn bearer_header_parsing() {
    assert_eq!(AuthUser::bearer_token(Some("Bearer abc.def")).ok(), Some("abc.def"));
    assert_eq!(AuthUser::bearer_token(Some("Bearer ")).ok(), Some(""));
    match AuthUser::bearer_token(Some("bearer abc")) {
        Err(AppError::Unauthorized(m)) => assert_eq!(m, "Invalid Authorization header"),
        _ => panic!("expected 401"),
    }
    match AuthUser::bearer_token(Some("Basic")) {
        Err(AppError::Unauthorized(m)) => assert_eq!(m, "Invalid Authorization header"),
        _ => panic!("expected 401"),
    }
    match AuthUser::bearer_token(None) {
        Err(AppError::Unauthorized(m)) => assert_eq!(m, "Missing Authorization header"),
        _ => panic!("expected 401"),
    }
}

#[test]
fn auth_user_from_claims() {
    assert_eq!(AuthUser::from_claims(Ok(claims(TokenType::Access))).ok().map(|u| u.user_id), Some(5));
    match AuthUser::from_claims(Ok(claims(TokenType::Refresh))) {
        Err(AppError::Unauthorized(m)) => assert_eq!(m, "Invalid or expired token"),
        _ => panic!("expected 401"),
    }
    assert!(AuthUser::from_claims(Err(jwt_error())).is_err());
}

#[test]
fn tokens_are_issued_at_the_current_time() {
    let cfg = JwtConfig::new("s".to_string(), 1, 1);
    let before = std::time::SystemTime::now()
        .duration_since(std::time::UNIX_EPOCH)
        .unwrap()
        .as_secs();
    let token = generate_access_token(1, &cfg).ok().unwrap();
    let c = decode_json(&token, "s", Algorithm::HS256);
    let iat = c["iat"].as_u64().unwrap();
    assert!(iat >= before && iat <= before + 5);
}

#[test]
fn password_hash_and_verify() {
    let h = todo_api::password::hash_password("hunter2").ok().unwrap();
    assert_ne!(h, "hunter2");
    assert!(h.starts_with("$2b$12$"));
    assert_eq!(todo_api::password::verify_password("hunter2", &h).ok(), Some(true));
    assert_eq!(todo_api::password::verify_password("hunter3", &h).ok(), Some(false));
    assert!(todo_api::password::verify_password("hunter2", "not a hash").is_err());
}

fn decoded_claims(token: &str, secret: &str) -> Claims {
    let c = decode_json(token, secret, Algorithm::HS256);
    let sub = uuid::Uuid::parse_str(c["sub"].as_str().unwrap()).unwrap().as_u128();
    let typ = if c["typ"] == "Access" { TokenType::Access } else { TokenType::Refresh };
    Claims {
        sub,
        exp: c["exp"].as_u64().unwrap() as usize,
        iat: c["iat"].as_u64().unwrap() as usize,
        typ,
    }
}

#[test]
fn issued_tokens_pass_only_their_own_check() {
    let cfg = JwtConfig::new("round".to_string(), 15, 7);
    let access = generate_access_token(77, &cfg).ok().unwrap();
    let refresh = generate_refresh_token(77, &cfg).ok().unwrap();
    let a = verify_access_token(Ok(decoded_claims(&access, "round"))).ok().unwrap();
    assert_eq!(a.sub, 77);
    assert_eq!(a.exp - a.iat, 15 * 60);
    assert_eq!(
        verify_refresh_token(Ok(decoded_claims(&access, "round"))).err(),
        Some("Invalid refresh token type")
    );
    let r = verify_refresh_token(Ok(decoded_claims(&refresh, "round"))).ok().unwrap();
    assert_eq!(r.sub, 77);
    assert_eq!(r.exp - r.iat, 7 * 86400);
    assert_eq!(
        verify_access_token(Ok(decoded_claims(&refresh, "round"))).err(),
        Some("Invalid access token type")
    );
}
