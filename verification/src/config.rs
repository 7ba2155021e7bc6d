//! Application settings and their defaults.
use crate::text::{ascii_lower, parse_i64, parse_i64_spec, parse_unsigned, parse_unsigned_spec, str_eq, to_ascii_lowercase};
use base64::Engine;
use vstd::prelude::*;

verus! {

pub fn default_port() -> (r: u16)
    ensures
        r == 8080,
{
    8080
}

pub fn default_data_dir() -> (r: String)
    ensures
        r@ == "./data"@,
{
    String::from_str("./data")
}

pub fn default_timezone() -> (r: String)
    ensures
        r@ == "America/New_York"@,
{
    String::from_str("America/New_York")
}

pub fn default_log_format() -> (r: String)
    ensures
        r@ == "text"@,
{
    String::from_str("text")
}

pub fn default_auth_mode() -> (r: String)
    ensures
        r@ == "none"@,
{
    String::from_str("none")
}

pub fn default_digest_hour() -> (r: i64)
    ensures
        r == 8,
{
    8
}

/// How the UI and API authenticate.
#[derive(Debug, Clone, Copy, PartialEq, Eq, Structural)]
pub enum AuthMode {
    /// No authentication (`AUTH_MODE=none`).
    Disabled,
    Password,
}

impl AuthMode {
    /// The mode named by a text, in any ASCII case.
    pub open spec fn parse_spec(s: Seq<char>) -> Option<AuthMode> {
        if ascii_lower(s) == "none"@ {
            Some(AuthMode::Disabled)
        } else if ascii_lower(s) == "password"@ {
            Some(AuthMode::Password)
        } else {
            None
        }
    }

    /// Reads an auth mode; the error names the text.
    pub fn parse(s: &str) -> (r: Result<AuthMode, String>)
        ensures
            match AuthMode::parse_spec(s@) {
                Some(m) => r == Ok::<AuthMode, String>(m),
                None => r matches Err(e) && e@ == "unknown auth mode: "@ + s@,
            },
    {
        let lower = to_ascii_lowercase(s);
        if str_eq(lower.as_str(), "none") {
            Ok(AuthMode::Disabled)
        } else if str_eq(lower.as_str(), "password") {
            Ok(AuthMode::Password)
        } else {
            Err(String::from_str("unknown auth mode: ").concat(s))
        }
    }
}

/// The base64 alphabet.
pub open spec fn base64_char(n: int) -> char {
    if n < 26 {
        (65 + n) as char
    } else if n < 52 {
        (97 + n - 26) as char
    } else if n < 62 {
        (48 + n - 52) as char
    } else if n == 62 {
        '+'
    } else {
        '/'
    }
}

/// Standard base64 with `=` padding: each three bytes become four characters.
pub open spec fn base64_spec(b: Seq<u8>) -> Seq<char>
    decreases b.len(),
{
    if b.len() == 0 {
        Seq::empty()
    } else {
        let b0 = b[0] as int;
        let b1 = if b.len() > 1 { b[1] as int } else { 0 };
        let b2 = if b.len() > 2 { b[2] as int } else { 0 };
        let c0 = base64_char(b0 / 4);
        let c1 = base64_char((b0 % 4) * 16 + b1 / 16);
        let c2 = base64_char((b1 % 16) * 4 + b2 / 64);
        let c3 = base64_char(b2 % 64);
        if b.len() == 1 {
            seq![c0, c1, '=', '=']
        } else if b.len() == 2 {
            seq![c0, c1, c2, '=']
        } else {
            seq![c0, c1, c2, c3] + base64_spec(b.skip(3))
        }
    }
}

/// Encodes bytes in standard base64.
///
/// Calls `base64::engine::general_purpose::STANDARD.encode`, the standard alphabet
/// with `=` padding.
#[verifier::external_body]
pub fn base64_encode(bytes: [u8; 64]) -> (r: String)
    ensures
        r@ == base64_spec(bytes@),
{
    base64::engine::general_purpose::STANDARD.encode(bytes)
}

/// Application settings.
#[derive(Debug, Clone)]
pub struct AppConfig {
    pub port: u16,
    pub database_url: Option<String>,
    pub data_dir: String,
    pub app_timezone: String,
    pub log_format: String,
    pub auth_mode: AuthMode,
    pub app_password: Option<String>,
    pub session_secret: String,
    pub ntfy_url: Option<String>,
    pub ntfy_topic: Option<String>,
    pub ntfy_token: Option<String>,
    pub digest_hour: i64,
    pub api_token: Option<String>,
}

/// The settings as read from the environment: each variable, if set.
#[derive(Debug, Clone, Default)]
pub struct ConfigEnv {
    pub database_url: Option<String>,
    pub auth_mode: Option<String>,
    pub data_dir: Option<String>,
    pub app_password: Option<String>,
    pub port: Option<String>,
    pub digest_hour: Option<String>,
    pub app_timezone: Option<String>,
    pub log_format: Option<String>,
    pub session_secret: Option<String>,
    pub ntfy_url: Option<String>,
    pub ntfy_topic: Option<String>,
    pub ntfy_token: Option<String>,
    pub api_token: Option<String>,
}

/// Settings that cannot be used.
#[derive(Debug, Clone, PartialEq, Eq)]
pub enum ConfigError {
    /// `AUTH_MODE` names no mode; holds the message.
    InvalidAuthMode(String),
    /// `AUTH_MODE=password` without `APP_PASSWORD`.
    MissingPassword,
}

/// A variable's value, unless it is unset or empty.
pub open spec fn non_empty(v: Option<String>) -> Option<String> {
    match v {
        Some(s) => if s@.len() > 0 { Some(s) } else { None },
        None => None,
    }
}

pub open spec fn text_or(v: Option<String>, default: Seq<char>) -> Seq<char> {
    match v {
        Some(s) => s@,
        None => default,
    }
}

pub open spec fn auth_mode_text(env: ConfigEnv) -> Seq<char> {
    text_or(env.auth_mode, "none"@)
}

/// The settings that the environment gives: unset or empty optional values are absent,
/// unset values take their defaults, and numbers that do not parse take theirs.
pub open spec fn config_matches(env: ConfigEnv, generated_secret: String, c: AppConfig) -> bool {
    &&& AuthMode::parse_spec(auth_mode_text(env)) == Some(c.auth_mode)
    &&& c.database_url == non_empty(env.database_url)
    &&& c.data_dir@ == text_or(env.data_dir, "./data"@)
    &&& c.app_password == non_empty(env.app_password)
    &&& c.port == match env.port {
        Some(p) => match parse_unsigned_spec(p@, u16::MAX as int) {
            Some(v) => v as u16,
            None => 8080u16,
        },
        None => 8080u16,
    }
    &&& c.digest_hour == match env.digest_hour {
        Some(h) => match parse_i64_spec(h@) {
            Some(v) => v as i64,
            None => 8i64,
        },
        None => 8i64,
    }
    &&& c.app_timezone@ == text_or(env.app_timezone, "America/New_York"@)
    &&& c.log_format@ == text_or(env.log_format, "text"@)
    &&& c.session_secret@ == text_or(env.session_secret, generated_secret@)
    &&& c.ntfy_url == non_empty(env.ntfy_url)
    &&& c.ntfy_topic == non_empty(env.ntfy_topic)
    &&& c.ntfy_token == non_empty(env.ntfy_token)
    &&& c.api_token == non_empty(env.api_token)
}

fn filter_non_empty(v: Option<String>) -> (r: Option<String>)
    ensures
        r == non_empty(v),
{
    match v {
        Some(s) => if s.unicode_len() > 0 { Some(s) } else { None },
        None => None,
    }
}

fn text_or_default(v: Option<String>, default: String) -> (r: String)
    ensures
        r@ == text_or(v, default@),
{
    match v {
        Some(s) => s,
        None => default,
    }
}

/// Builds the settings from the environment. `generated_secret` stands in for an
/// unset `SESSION_SECRET`.
pub fn build_config(env: ConfigEnv, generated_secret: String) -> (r: Result<AppConfig, ConfigError>)
    ensures
        match AuthMode::parse_spec(auth_mode_text(env)) {
            None => r matches Err(ConfigError::InvalidAuthMode(m)) && m@ == "unknown auth mode: "@
                + auth_mode_text(env),
            Some(mode) => if mode == AuthMode::Password && non_empty(env.app_password) is None {
                r == Err::<AppConfig, ConfigError>(ConfigError::MissingPassword)
            } else {
                r matches Ok(c) && config_matches(env, generated_secret, c)
            },
        },
{
    let ghost env0 = env;
    let auth_mode_str = text_or_default(env.auth_mode, default_auth_mode());
    let auth_mode = match AuthMode::parse(auth_mode_str.as_str()) {
        Ok(m) => m,
        Err(e) => return Err(ConfigError::InvalidAuthMode(e)),
    };
    let app_password = filter_non_empty(env.app_password);
    if auth_mode == AuthMode::Password && app_password.is_none() {
        return Err(ConfigError::MissingPassword);
    }
    let port = match env.port {
        Some(p) => match parse_unsigned(p.as_str(), u16::MAX as u64) {
            Some(v) => v as u16,
            None => default_port(),
        },
        None => default_port(),
    };
    let digest_hour = match env.digest_hour {
        Some(h) => match parse_i64(h.as_str()) {
            Some(v) => v,
            None => default_digest_hour(),
        },
        None => default_digest_hour(),
    };
    Ok(AppConfig {
        port,
        database_url: filter_non_empty(env.database_url),
        data_dir: text_or_default(env.data_dir, default_data_dir()),
        app_timezone: text_or_default(env.app_timezone, default_timezone()),
        log_format: text_or_default(env.log_format, default_log_format()),
        auth_mode,
        app_password,
        session_secret: text_or_default(env.session_secret, generated_secret),
        ntfy_url: filter_non_empty(env.ntfy_url),
        ntfy_topic: filter_non_empty(env.ntfy_topic),
        ntfy_token: filter_non_empty(env.ntfy_token),
        digest_hour,
        api_token: filter_non_empty(env.api_token),
    })
}

/// The log is written as JSON when the format is `json` in any ASCII case.
pub fn uses_json_logs(log_format: &str) -> (r: bool)
    ensures
        r == (ascii_lower(log_format@) == "json"@),
{
    let lower = to_ascii_lowercase(log_format);
    str_eq(lower.as_str(), "json")
}

} // verus!
