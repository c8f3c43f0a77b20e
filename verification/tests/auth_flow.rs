use todo_api::auth::repository::AuthRepository;
use todo_api::auth::service::{
    select_refresh_token, AuthCommand, AuthFlow, AuthOutcome, AuthReply, AuthService, AuthStep, StoredRefreshToken,
    User,
};
use todo_api::config::JwtConfig;
use todo_api::error::AppError;
use todo_api::jwt::{Claims, TokenError, TokenType};
use todo_api::password::{hash_password, verify_password, PasswordError};
use todo_api::time::Timestamp;

fn config() -> JwtConfig {
    JwtConfig::new("secret".to_string(), 15, 7)
}

fn expect_error(step: AuthStep) -> AppError {
    match step {
        AuthStep::Finish(Err(e)) => e,
        _ => panic!("expected an error"),
    }
}

#[test]
fn register_looks_email_up_first() {
    let (flow, step) = AuthService::register("a@b.c".to_string(), "pw".to_string());
    assert!(matches!(flow, AuthFlow::RegisterLookup { .. }));
    match step {
        AuthStep::Run(AuthCommand::FindUserByEmail { email }) => assert_eq!(email, "a@b.c"),
        _ => panic!("expected a lookup"),
    }
}

#[test]
fn register_refuses_taken_email() {
    let (flow, _) = AuthService::register("a@b.c".to_string(), "pw".to_string());
    let user = User { id: 1, email: "a@b.c".to_string(), password_hash: "h".to_string() };
    let (next, step) = AuthService::step(flow, AuthReply::UserLookup(Some(user)), &config());
    assert!(matches!(next, AuthFlow::Finished));
    match expect_error(step) {
        AppError::Conflict(m) => assert_eq!(m, "Email already exists"),
        _ => panic!("expected a conflict"),
    }
}

#[test]
fn register_full_run_issues_tokens() {
    let cfg = config();
    let (flow, _) = AuthService::register("a@b.c".to_string(), "pw".to_string());
    let (flow, step) = AuthService::step(flow, AuthReply::UserLookup(None), &cfg);
    let hash = match step {
        AuthStep::Run(AuthCommand::CreateUser { email, password_hash }) => {
            assert_eq!(email, "a@b.c");
            password_hash
        }
        _ => panic!("expected an insert"),
    };
    assert_ne!(hash, "pw");
    assert_eq!(verify_password("pw", &hash).ok(), Some(true));
    let user = User { id: 42, email: "a@b.c".to_string(), password_hash: hash };
    let (flow, step) = AuthService::step(flow, AuthReply::UserCreated(user), &cfg);
    let (saved_hash, expires_at) = match step {
        AuthStep::Run(AuthCommand::SaveRefreshToken { user_id, token_hash, expires_at }) => {
            assert_eq!(user_id, 42);
            (token_hash, expires_at)
        }
        _ => panic!("expected a save"),
    };
    let (flow, step) = AuthService::step(flow, AuthReply::TokenSaved, &cfg);
    assert!(matches!(flow, AuthFlow::Finished));
    match step {
        AuthStep::Finish(Ok(AuthOutcome::Tokens(t))) => {
            assert_eq!(verify_password(&t.refresh_token, &saved_hash).ok(), Some(true));
            assert_ne!(t.access_token, t.refresh_token);
        }
        _ => panic!("expected tokens"),
    }
    assert!(expires_at.secs > 1_600_000_000 + 6 * 86400);
}

#[test]
fn save_failure_is_internal() {
    let (flow, _) = AuthService::issue_tokens(1, &config());
    let (_, step) = AuthService::step(flow, AuthReply::DatabaseError, &config());
    assert!(matches!(expect_error(step), AppError::InternalServerError));
}

#[test]
fn login_unknown_email_and_wrong_password_answer_alike() {
    let (flow, _) = AuthService::login("a@b.c".to_string(), "pw".to_string());
    let (_, step) = AuthService::step(flow, AuthReply::UserLookup(None), &config());
    match expect_error(step) {
        AppError::Unauthorized(m) => assert_eq!(m, "Invalid credentials"),
        _ => panic!("expected 401"),
    }
    let hash = hash_password("other").ok().unwrap();
    let user = User { id: 1, email: "a@b.c".to_string(), password_hash: hash };
    let (flow, _) = AuthService::login("a@b.c".to_string(), "pw".to_string());
    let (_, step) = AuthService::step(flow, AuthReply::UserLookup(Some(user)), &config());
    match expect_error(step) {
        AppError::Unauthorized(m) => assert_eq!(m, "Invalid credentials"),
        _ => panic!("expected 401"),
    }
}

#[test]
fn login_with_malformed_stored_hash_is_internal() {
    let user = User { id: 1, email: "a@b.c".to_string(), password_hash: "nope".to_string() };
    let (flow, _) = AuthService::login("a@b.c".to_string(), "pw".to_string());
    let (_, step) = AuthService::step(flow, AuthReply::UserLookup(Some(user)), &config());
    assert!(matches!(expect_error(step), AppError::InternalServerError));
}

#[test]
fn login_success_saves_refresh_hash() {
    let hash = hash_password("pw").ok().unwrap();
    let user = User { id: 5, email: "a@b.c".to_string(), password_hash: hash };
    let (flow, _) = AuthService::login("a@b.c".to_string(), "pw".to_string());
    let (flow, step) = AuthService::step(flow, AuthReply::UserLookup(Some(user)), &config());
    assert!(matches!(flow, AuthFlow::SavingTokens { .. }));
    assert!(matches!(step, AuthStep::Run(AuthCommand::SaveRefreshToken { user_id: 5, .. })));
}

fn refresh_claims(sub: u128) -> Claims {
    Claims { sub, exp: 4_000_000_000, iat: 1_700_000_000, typ: TokenType::Refresh }
}

#[test]
fn refresh_refuses_access_tokens() {
    let claims = Claims { typ: TokenType::Access, ..refresh_claims(3) };
    let (flow, step) = AuthService::refresh_token("t".to_string(), Ok(claims));
    assert!(matches!(flow, AuthFlow::Finished));
    match expect_error(step) {
        AppError::Unauthorized(m) => assert_eq!(m, "Invalid refresh token"),
        _ => panic!("expected 401"),
    }
}

#[test]
fn refresh_rotates_the_matching_token() {
    let presented = "the-refresh-token".to_string();
    let (flow, step) = AuthService::refresh_token(presented.clone(), Ok(refresh_claims(3)));
    assert!(matches!(step, AuthStep::Run(AuthCommand::FindRefreshTokens { user_id: 3 })));
    let good = hash_password(&presented).ok().unwrap();
    let far = Timestamp { secs: 8_000_000_000_000, nanos: 0 };
    let past = Timestamp { secs: 1_000, nanos: 0 };
    let tokens = vec![
        StoredRefreshToken { id: 10, token_hash: good.clone(), expires_at: far, revoked: true },
        StoredRefreshToken { id: 11, token_hash: good.clone(), expires_at: past, revoked: false },
        StoredRefreshToken { id: 12, token_hash: "garbage".to_string(), expires_at: far, revoked: false },
        StoredRefreshToken { id: 13, token_hash: hash_password("x").ok().unwrap(), expires_at: far, revoked: false },
        StoredRefreshToken { id: 14, token_hash: good.clone(), expires_at: far, revoked: false },
        StoredRefreshToken { id: 15, token_hash: good, expires_at: far, revoked: false },
    ];
    let (flow, step) = AuthService::step(flow, AuthReply::RefreshTokens(tokens), &config());
    assert!(matches!(flow, AuthFlow::RefreshRevoke { user_id: 3 }));
    assert!(matches!(step, AuthStep::Run(AuthCommand::RevokeRefreshToken { token_id: 14 })));
    let (flow, step) = AuthService::step(flow, AuthReply::TokenRevoked, &config());
    assert!(matches!(flow, AuthFlow::SavingTokens { .. }));
    assert!(matches!(step, AuthStep::Run(AuthCommand::SaveRefreshToken { user_id: 3, .. })));
}

#[test]
fn refresh_without_usable_token_is_bad_request() {
    let (flow, _) = AuthService::refresh_token("t".to_string(), Ok(refresh_claims(3)));
    let (_, step) = AuthService::step(flow, AuthReply::RefreshTokens(vec![]), &config());
    match expect_error(step) {
        AppError::BadRequest(m) => assert_eq!(m, "Refresh token not found"),
        _ => panic!("expected 400"),
    }
}

#[test]
fn logout_revokes_every_token_despite_failures() {
    let (flow, step) = AuthService::logout(Ok(refresh_claims(8)));
    assert!(matches!(step, AuthStep::Run(AuthCommand::FindRefreshTokens { user_id: 8 })));
    let t = Timestamp { secs: 0, nanos: 0 };
    let tokens = vec![
        StoredRefreshToken { id: 1, token_hash: String::new(), expires_at: t, revoked: true },
        StoredRefreshToken { id: 2, token_hash: String::new(), expires_at: t, revoked: false },
        StoredRefreshToken { id: 3, token_hash: String::new(), expires_at: t, revoked: false },
    ];
    let mut revoked = vec![];
    let (mut flow, mut step) = AuthService::step(flow, AuthReply::RefreshTokens(tokens), &config());
    let mut fail = true;
    loop {
        match step {
            AuthStep::Run(AuthCommand::RevokeRefreshToken { token_id }) => revoked.push(token_id),
            AuthStep::Finish(Ok(AuthOutcome::LoggedOut)) => break,
            _ => panic!("unexpected step"),
        }
        let reply = if fail { AuthReply::DatabaseError } else { AuthReply::TokenRevoked };
        fail = !fail;
        let r = AuthService::step(flow, reply, &config());
        flow = r.0;
        step = r.1;
    }
    assert_eq!(revoked, vec![1, 2, 3]);
}

#[test]
fn logout_with_bad_token_is_internal() {
    let claims = Claims { typ: TokenType::Access, ..refresh_claims(8) };
    let (_, step) = AuthService::logout(Ok(claims));
    assert!(matches!(expect_error(step), AppError::InternalServerError));
}

#[test]
fn unexpected_reply_is_internal() {
    let (flow, _) = AuthService::login("a".to_string(), "b".to_string());
    let (_, step) = AuthService::step(flow, AuthReply::TokenSaved, &config());
    assert!(matches!(expect_error(step), AppError::InternalServerError));
}

#[test]
fn auth_statements() {
    let s = AuthRepository::find_by_email("a@b.c");
    assert_eq!(s.sql, "SELECT id, email, password_hash FROM users WHERE email = $1");
    assert_eq!(s.binds.len(), 1);
    let s = AuthRepository::create_user("a@b.c", "h");
    assert!(s.sql.starts_with("INSERT INTO users (email, password_hash)"));
    assert_eq!(s.binds.len(), 2);
    let s = AuthRepository::save_refresh_token(1, "h", Timestamp { secs: 5, nanos: 6 });
    assert!(s.sql.contains("VALUES ($1, $2, $3)"));
    assert_eq!(s.binds.len(), 3);
    let s = AuthRepository::find_valid_refresh_token(1);
    assert!(s.sql.ends_with("WHERE user_id = $1"));
    let s = AuthRepository::revoke_refresh_token(9);
    assert_eq!(s.sql, "UPDATE refresh_tokens SET revoked = true WHERE id = $1");
}

#[test]
fn refresh_accepts_the_token_just_issued() {
    let cfg = config();
    let (flow, step) = AuthService::issue_tokens(21, &cfg);
    let (hash, expires_at) = match step {
        AuthStep::Run(AuthCommand::SaveRefreshToken { token_hash, expires_at, .. }) => (token_hash, expires_at),
        _ => panic!("expected a save"),
    };
    let (_, step) = AuthService::step(flow, AuthReply::TokenSaved, &cfg);
    let issued = match step {
        AuthStep::Finish(Ok(AuthOutcome::Tokens(t))) => t,
        _ => panic!("expected tokens"),
    };
    let claims = Claims { sub: 21, exp: 0, iat: 0, typ: TokenType::Refresh };
    let (flow, _) = AuthService::refresh_token(issued.refresh_token.clone(), Ok(claims));
    let stored = vec![StoredRefreshToken { id: 77, token_hash: hash, expires_at, revoked: false }];
    let (_, step) = AuthService::step(flow, AuthReply::RefreshTokens(stored), &cfg);
    assert!(matches!(step, AuthStep::Run(AuthCommand::RevokeRefreshToken { token_id: 77 })));
}

#[test]
fn select_skips_revoked_and_expired() {
    let h = hash_password("tok").ok().unwrap();
    let now = Timestamp { secs: 100, nanos: 500 };
    let tokens = vec![
        StoredRefreshToken { id: 1, token_hash: h.clone(), expires_at: Timestamp { secs: 100, nanos: 499 }, revoked: false },
        StoredRefreshToken { id: 2, token_hash: h.clone(), expires_at: Timestamp { secs: 100, nanos: 500 }, revoked: false },
    ];
    assert_eq!(select_refresh_token(&tokens, now, "tok"), Some(2));
    assert_eq!(select_refresh_token(&tokens, now, "other"), None);
    let revoked = vec![StoredRefreshToken { id: 3, token_hash: h, expires_at: now, revoked: true }];
    assert_eq!(select_refresh_token(&revoked, now, "tok"), None);
}

#[test]
fn save_issued_is_exact() {
    let now = Timestamp { secs: 1_000, nanos: 5 };
    let (flow, step) = AuthService::save_issued(
        4,
        Ok("a".to_string()),
        Ok("r".to_string()),
        Ok("h".to_string()),
        now,
        &config(),
    );
    match flow {
        AuthFlow::SavingTokens { tokens } => {
            assert_eq!((tokens.access_token.as_str(), tokens.refresh_token.as_str()), ("a", "r"))
        }
        _ => panic!("expected tokens"),
    }
    match step {
        AuthStep::Run(AuthCommand::SaveRefreshToken { user_id, token_hash, expires_at }) => {
            assert_eq!((user_id, token_hash.as_str()), (4, "h"));
            assert_eq!(expires_at, Timestamp { secs: 1_000 + 7 * 86400, nanos: 5 });
        }
        _ => panic!("expected a save"),
    }
    let (_, step) = AuthService::save_issued(4, Err(TokenError::Encoding), Ok("r".to_string()), Ok("h".to_string()), now, &config());
    assert!(matches!(expect_error(step), AppError::InternalServerError));
    let (_, step) = AuthService::save_issued(4, Ok("a".to_string()), Ok("r".to_string()), Err(PasswordError), now, &config());
    assert!(matches!(expect_error(step), AppError::InternalServerError));
    let far = JwtConfig::new("s".to_string(), 15, 200_000_000);
    let (_, step) = AuthService::save_issued(4, Ok("a".to_string()), Ok("r".to_string()), Ok("h".to_string()), now, &far);
    assert!(matches!(expect_error(step), AppError::InternalServerError));
}

#[test]
fn create_user_after_hashing() {
    let (flow, step) = AuthService::create_user("e@x.y".to_string(), Ok("h".to_string()));
    assert!(matches!(flow, AuthFlow::RegisterCreate));
    match step {
        AuthStep::Run(AuthCommand::CreateUser { email, password_hash }) => {
            assert_eq!((email.as_str(), password_hash.as_str()), ("e@x.y", "h"))
        }
        _ => panic!("expected an insert"),
    }
    let (_, step) = AuthService::create_user("e@x.y".to_string(), Err(PasswordError));
    assert!(matches!(expect_error(step), AppError::InternalServerError));
}

#[test]
fn password_hash_has_bcrypt_shape() {
    let h = hash_password("pw").ok().unwrap();
    assert_eq!(h.len(), 60);
    assert!(h.starts_with("$2b$12$"));
    assert_ne!(h, "pw");
}

#[test]
fn stored_hashes_differ_from_plaintext() {
    let cfg = config();
    let (flow, _) = AuthService::register("a@b.c".to_string(), "secret-pw".to_string());
    let (_, step) = AuthService::step(flow, AuthReply::UserLookup(None), &cfg);
    match step {
        AuthStep::Run(AuthCommand::CreateUser { password_hash, .. }) => {
            assert!(password_hash.starts_with("$2b$12$"));
            assert_ne!(password_hash, "secret-pw");
        }
        _ => panic!("expected an insert"),
    }
    let (flow, step) = AuthService::issue_tokens(9, &cfg);
    let saved = match step {
        AuthStep::Run(AuthCommand::SaveRefreshToken { token_hash, .. }) => token_hash,
        _ => panic!("expected a save"),
    };
    match flow {
        AuthFlow::SavingTokens { tokens } => {
            assert_ne!(saved, tokens.refresh_token);
            assert!(saved.starts_with("$2b$12$"));
            assert!(!tokens.refresh_token.contains('$'));
        }
        _ => panic!("expected tokens"),
    }
}

#[test]
fn rotated_refresh_token_is_refused_the_second_time() {
    let presented = "rotate-me".to_string();
    let good = hash_password(&presented).ok().unwrap();
    let far = Timestamp { secs: 8_000_000_000_000, nanos: 0 };
    let before = vec![
        StoredRefreshToken { id: 20, token_hash: hash_password("x").ok().unwrap(), expires_at: far, revoked: false },
        StoredRefreshToken { id: 21, token_hash: good.clone(), expires_at: far, revoked: false },
    ];
    let (flow, _) = AuthService::refresh_token(presented.clone(), Ok(refresh_claims(3)));
    let (_, step) = AuthService::step(flow, AuthReply::RefreshTokens(before), &config());
    assert!(matches!(step, AuthStep::Run(AuthCommand::RevokeRefreshToken { token_id: 21 })));
    let after = vec![
        StoredRefreshToken { id: 20, token_hash: hash_password("x").ok().unwrap(), expires_at: far, revoked: false },
        StoredRefreshToken { id: 21, token_hash: good, expires_at: far, revoked: true },
    ];
    let (flow, _) = AuthService::refresh_token(presented, Ok(refresh_claims(3)));
    let (next, step) = AuthService::step(flow, AuthReply::RefreshTokens(after), &config());
    assert!(matches!(next, AuthFlow::Finished));
    match expect_error(step) {
        AppError::BadRequest(m) => assert_eq!(m, "Refresh token not found"),
        _ => panic!("expected 400"),
    }
}
