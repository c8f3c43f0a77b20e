use todo_api::config::{Env, EnvVars, JwtAlgorithm, JwtConfig};
use todo_api::error::AppError;
use todo_api::response::ApiResponse;
use todo_api::validation::validate_request;

fn vars() -> EnvVars {
    EnvVars {
        app_name: Some("todo".to_string()),
        app_port: None,
        database_url: Some("postgres://db".to_string()),
        jwt_secret: Some("s".to_string()),
        jwt_access_expire_minutes: None,
        jwt_refresh_expire_days: None,
    }
}

fn error_of(v: EnvVars) -> String {
    match v.check() {
        Err(e) => e.message,
        Ok(()) => panic!("expected an error"),
    }
}

#[test]
fn env_defaults() {
    let v = vars();
    assert!(v.check().is_ok());
    let e = Env::from_env(v);
    assert_eq!(e.app_name, "todo");
    assert_eq!(e.app_port, 3000);
    assert_eq!(e.database_url, "postgres://db");
    assert_eq!(e.jwt_secret, "s");
    assert_eq!(e.jwt_access_expire_minutes, 15);
    assert_eq!(e.jwt_refresh_expire_days, 7);
}

#[test]
fn env_values_are_parsed() {
    let mut v = vars();
    v.app_port = Some("+8080".to_string());
    v.jwt_access_expire_minutes = Some("-5".to_string());
    v.jwt_refresh_expire_days = Some("9223372036854775807".to_string());
    assert!(v.check().is_ok());
    let e = Env::from_env(v);
    assert_eq!(e.app_port, 8080);
    assert_eq!(e.jwt_access_expire_minutes, -5);
    assert_eq!(e.jwt_refresh_expire_days, i64::MAX);
}

#[test]
fn env_errors_name_the_first_bad_variable() {
    let mut v = vars();
    v.app_name = None;
    v.app_port = Some("x".to_string());
    assert_eq!(error_of(v), "APP_NAME missing");
    for bad in ["70000", "-1", "", "+", " 80", "80a"] {
        let mut v = vars();
        v.app_port = Some(bad.to_string());
        assert_eq!(error_of(v), "APP_PORT invalid");
    }
    let mut v = vars();
    v.database_url = None;
    assert_eq!(error_of(v), "DATABASE_URL missing");
    let mut v = vars();
    v.jwt_secret = None;
    assert_eq!(error_of(v), "JWT_SECRET missing");
    let mut v = vars();
    v.jwt_access_expire_minutes = Some("9223372036854775808".to_string());
    assert_eq!(error_of(v), "JWT_ACCESS_EXPIRE_MINUTES invalid");
    let mut v = vars();
    v.jwt_refresh_expire_days = Some("-".to_string());
    assert_eq!(error_of(v), "JWT_REFRESH_EXPIRE_DAYS invalid");
}

#[test]
fn jwt_config_uses_hs256() {
    let c = JwtConfig::new("x".to_string(), 1, 2);
    assert_eq!(c.algorithm, JwtAlgorithm::HS256);
    assert_eq!((c.secret.as_str(), c.access_exp_minutes, c.refresh_exp_days), ("x", 1, 2));
}

#[test]
fn error_statuses_and_messages() {
    let cases = [
        (AppError::BadRequest("b".to_string()), 400, "b"),
        (AppError::Unauthorized("u".to_string()), 401, "u"),
        (AppError::Conflict("c".to_string()), 409, "c"),
        (AppError::NotFound("n".to_string()), 404, "n"),
        (AppError::InternalServerError, 500, "Internal server error"),
    ];
    for (e, status, message) in cases {
        assert_eq!(e.status_code(), status);
        assert_eq!(e.message(), message);
    }
}

#[test]
fn response_envelopes() {
    let r = ApiResponse::new(5, 77);
    assert_eq!((r.data, r.meta, r.request_id), (5, None::<()>, 77));
    let r = ApiResponse::with_meta("d", 3, 78);
    assert_eq!((r.data, r.meta, r.request_id), ("d", Some(3), 78));
}

#[test]
fn validation_outcomes() {
    assert!(validate_request(Ok(())).is_ok());
    match validate_request(Err("email: invalid".to_string())) {
        Err(AppError::BadRequest(m)) => assert_eq!(m, "email: invalid"),
        _ => panic!("expected 400"),
    }
}
