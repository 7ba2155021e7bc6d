use home_maintenance::config::{
    base64_encode, build_config, default_auth_mode, default_data_dir, default_digest_hour,
    default_log_format, default_port, default_timezone, uses_json_logs, AuthMode, ConfigEnv,
    ConfigError,
};
use home_maintenance::db::{backend_for_url, bind_sql, max_connections, sqlite_rewrite, DbBackend};
use std::borrow::Cow;
use home_maintenance::error::AppError;

#[test]
fn bind_sql_rewrites_for_sqlite_only() {
    let sql = "SELECT * FROM t WHERE a = $1 AND b = $12 AND c = '$x' AND d = $$3";
    assert_eq!(bind_sql(sql, &DbBackend::Postgres), sql);
    assert_eq!(
        bind_sql(sql, &DbBackend::Sqlite),
        "SELECT * FROM t WHERE a = ? AND b = ? AND c = '$x' AND d = $?"
    );
    assert_eq!(bind_sql("$", &DbBackend::Sqlite), "$");
    match bind_sql(sql, &DbBackend::Postgres) {
        Cow::Borrowed(b) => assert!(std::ptr::eq(b, sql)),
        Cow::Owned(_) => panic!("expected the literal itself"),
    }
    assert_eq!(
        bind_sql("SELECT '$a' FROM t WHERE x = $10 AND y = $2", &DbBackend::Sqlite),
        Cow::<str>::Owned("SELECT '$a' FROM t WHERE x = ? AND y = ?".to_string())
    );
    assert_eq!(sqlite_rewrite("a = $1 OR b = $2"), "a = ? OR b = ?");
    assert_eq!(bind_sql("", &DbBackend::Sqlite), "");
}

#[test]
fn backend_texts() {
    assert_eq!(DbBackend::Postgres.kind(), "postgresql");
    assert_eq!(DbBackend::Sqlite.kind(), "sqlite");
    assert_eq!(DbBackend::Postgres.placeholder(7), "$7");
    assert_eq!(DbBackend::Sqlite.placeholder(7), "?");
    assert_eq!(DbBackend::Postgres.returning(&[]), "");
    assert_eq!(DbBackend::Sqlite.returning(&["id"]), " RETURNING id");
    assert_eq!(DbBackend::Sqlite.returning(&["id", "name", "x"]), " RETURNING id, name, x");
}

#[test]
fn backend_choice() {
    assert_eq!(backend_for_url(Some("POSTGRES://h/db")), DbBackend::Postgres);
    assert_eq!(backend_for_url(Some("postgresql://h/db")), DbBackend::Postgres);
    assert_eq!(backend_for_url(Some("sqlite:data.db")), DbBackend::Sqlite);
    assert_eq!(backend_for_url(None), DbBackend::Sqlite);
    assert_eq!(max_connections(&DbBackend::Postgres), 10);
    assert_eq!(max_connections(&DbBackend::Sqlite), 5);
}

#[test]
fn config_defaults() {
    assert_eq!(default_port(), 8080);
    assert_eq!(default_data_dir(), "./data");
    assert_eq!(default_timezone(), "America/New_York");
    assert_eq!(default_log_format(), "text");
    assert_eq!(default_auth_mode(), "none");
    assert_eq!(default_digest_hour(), 8);
    let c = build_config(ConfigEnv::default(), "secret".to_string()).unwrap();
    assert_eq!(c.port, 8080);
    assert_eq!(c.auth_mode, AuthMode::Disabled);
    assert_eq!(c.data_dir, "./data");
    assert_eq!(c.session_secret, "secret");
    assert_eq!(c.digest_hour, 8);
    assert_eq!(c.database_url, None);
}

#[test]
fn config_from_environment() {
    let env = ConfigEnv {
        database_url: Some("".to_string()),
        auth_mode: Some("PassWord".to_string()),
        app_password: Some("pw".to_string()),
        port: Some("+9090".to_string()),
        digest_hour: Some("-3".to_string()),
        session_secret: Some("s".to_string()),
        api_token: Some("".to_string()),
        ntfy_topic: Some("topic".to_string()),
        ..ConfigEnv::default()
    };
    let c = build_config(env, "unused".to_string()).unwrap();
    assert_eq!(c.auth_mode, AuthMode::Password);
    assert_eq!(c.port, 9090);
    assert_eq!(c.digest_hour, -3);
    assert_eq!(c.database_url, None);
    assert_eq!(c.api_token, None);
    assert_eq!(c.ntfy_topic, Some("topic".to_string()));
    assert_eq!(c.session_secret, "s");
    let env = ConfigEnv { port: Some("70000".to_string()), ..ConfigEnv::default() };
    assert_eq!(build_config(env, String::new()).unwrap().port, 8080);
}

#[test]
fn config_errors() {
    let env = ConfigEnv { auth_mode: Some("magic".to_string()), ..ConfigEnv::default() };
    assert_eq!(
        build_config(env, String::new()).unwrap_err(),
        ConfigError::InvalidAuthMode("unknown auth mode: magic".to_string())
    );
    let env = ConfigEnv {
        auth_mode: Some("password".to_string()),
        app_password: Some("".to_string()),
        ..ConfigEnv::default()
    };
    assert_eq!(build_config(env, String::new()).unwrap_err(), ConfigError::MissingPassword);
    assert_eq!(AuthMode::parse("NONE"), Ok(AuthMode::Disabled));
    assert!(uses_json_logs("JSON"));
    assert!(!uses_json_logs("text"));
}

#[test]
fn base64_of_secret_bytes() {
    let zeros = base64_encode([0u8; 64]);
    assert_eq!(zeros, format!("{}==", "A".repeat(86)));
    let mut b = [0u8; 64];
    b[0] = b'M';
    b[1] = b'a';
    b[2] = b'n';
    assert!(base64_encode(b).starts_with("TWFu"));
    assert_eq!(base64_encode([255u8; 64]).len(), 88);
}

#[test]
fn error_responses() {
    let e = AppError::Database("disk full".to_string()).response();
    assert_eq!((e.status, e.code.as_str(), e.message.as_str()), (500, "database_error", "Internal database error"));
    let e = AppError::BadRequest("bad".to_string()).response();
    assert_eq!((e.status, e.code.as_str(), e.message.as_str()), (400, "bad_request", "bad"));
    let e = AppError::NotFound.response();
    assert_eq!((e.status, e.code.as_str(), e.message.as_str()), (404, "not_found", "Resource not found"));
    let e = AppError::Validation("v".to_string()).response();
    assert_eq!((e.status, e.code.as_str()), (422, "validation_error"));
    let e = AppError::Conflict("c".to_string()).response();
    assert_eq!((e.status, e.message.as_str()), (409, "c"));
    assert_eq!(AppError::Unauthorized.response().status, 401);
    assert_eq!(AppError::Forbidden.response().status, 403);
    let e = AppError::Internal("boom".to_string());
    assert_eq!(e.response().message, "Internal server error");
    assert_eq!(e.log_line(), Some("internal error: boom".to_string()));
    assert_eq!(AppError::NotFound.log_line(), None);
    assert_eq!(AppError::BadRequest("x".to_string()).message(), "bad request: x");
}
