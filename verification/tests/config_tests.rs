use share_anything::config::{lookup, required, startup_failure_message, var_or, Config, ConfigError};

const REQUIRED: [&str; 23] = [
    "DATABASE_URL", "JWT_SECRET",
    "GOOGLE_CLIENT_ID", "GOOGLE_CLIENT_SECRET", "GOOGLE_REDIRECT_URI",
    "NAVER_CLIENT_ID", "NAVER_CLIENT_SECRET", "NAVER_REDIRECT_URI",
    "KAKAO_CLIENT_ID", "KAKAO_CLIENT_SECRET", "KAKAO_REDIRECT_URI",
    "APPLE_CLIENT_ID", "APPLE_TEAM_ID", "APPLE_KEY_ID", "APPLE_PRIVATE_KEY", "APPLE_REDIRECT_URI",
    "S3_BUCKET_NAME", "S3_ACCESS_KEY_ID", "S3_SECRET_ACCESS_KEY",
    "TURNSTILE_SECRET_KEY", "SESSION_TOKEN_JWT_SECRET",
    "CLOUDFLARE_TURN_KEY_ID", "CLOUDFLARE_TURN_API_TOKEN",
];

fn base_vars() -> Vec<(String, String)> {
    REQUIRED
        .iter()
        .map(|n| {
            let v = if n.ends_with("REDIRECT_URI") { format!("https://api.example/{}", n.to_lowercase()) } else { format!("value-{}", n) };
            (n.to_string(), v)
        })
        .collect()
}

fn with(mut vars: Vec<(String, String)>, name: &str, value: &str) -> Vec<(String, String)> {
    vars.retain(|(n, _)| n != name);
    vars.push((name.to_string(), value.to_string()));
    vars
}

#[test]
fn defaults_apply_when_optional_settings_are_unset() {
    let c = Config::from_vars(&base_vars()).unwrap();
    assert_eq!(c.server.host, "0.0.0.0");
    assert_eq!(c.server.port, 8080);
    assert_eq!(c.server.base_url, "http://localhost:8080");
    assert_eq!(c.jwt.expiration_hours, 24);
    assert_eq!(c.s3.region, "auto");
    assert_eq!(c.s3.endpoint, None);
    assert_eq!(c.cors.allowed_origins, vec!["http://localhost:3000".to_string()]);
    assert_eq!(c.session_token.ttl_seconds, 1800);
    assert_eq!(c.smtp.port, 587);
    assert_eq!(c.database.url, "value-DATABASE_URL");
}

#[test]
fn settings_are_read_from_the_variables() {
    let vars = with(with(with(base_vars(), "SERVER_PORT", "9000"), "CORS_ALLOWED_ORIGINS", " https://a.example , https://b.example"), "APPLE_PRIVATE_KEY", "line1\\nline2");
    let c = Config::from_vars(&vars).unwrap();
    assert_eq!(c.server.port, 9000);
    assert_eq!(c.cors.allowed_origins, vec!["https://a.example".to_string(), "https://b.example".to_string()]);
    assert_eq!(c.oauth.apple.private_key, "line1\nline2");
}

#[test]
fn bad_numbers_are_refused() {
    match Config::from_vars(&with(base_vars(), "SERVER_PORT", "70000")) {
        Err(ConfigError::InvalidNumber(n)) => assert_eq!(n, "SERVER_PORT"),
        other => panic!("{:?}", other.map(|_| ())),
    }
    match Config::from_vars(&with(base_vars(), "SMTP_PORT", "abc")) {
        Err(ConfigError::InvalidNumber(n)) => assert_eq!(n, "SMTP_PORT"),
        other => panic!("{:?}", other.map(|_| ())),
    }
}

#[test]
fn bad_urls_are_refused_with_their_name() {
    match Config::from_vars(&with(base_vars(), "FRONTEND_URL", "not a url")) {
        Err(ConfigError::InvalidUrl(m)) => assert_eq!(m, "Invalid URL in FRONTEND_URL: 'not a url' (relative URL without a base)"),
        other => panic!("{:?}", other.map(|_| ())),
    }
    match Config::from_vars(&with(base_vars(), "S3_ENDPOINT", "::")) {
        Err(ConfigError::InvalidUrl(m)) => assert!(m.starts_with("Invalid URL in S3_ENDPOINT: '::'")),
        other => panic!("{:?}", other.map(|_| ())),
    }
}

#[test]
fn variable_lookup() {
    let vars = vec![("A".to_string(), "1".to_string())];
    assert_eq!(lookup(&vars, "A"), Some("1".to_string()));
    assert_eq!(lookup(&vars, "B"), None);
    assert_eq!(var_or(&vars, "B", "d"), "d");
    assert_eq!(required(&vars, "A"), "1");
}

fn without(mut vars: Vec<(String, String)>, name: &str) -> Vec<(String, String)> {
    vars.retain(|(n, _)| n != name);
    vars
}

#[test]
fn complete_settings_do_not_stop_the_service() {
    assert_eq!(startup_failure_message(&base_vars()), None);
}

#[test]
fn missing_variables_stop_the_service_with_their_message() {
    assert_eq!(
        startup_failure_message(&without(base_vars(), "DATABASE_URL")),
        Some("DATABASE_URL must be set in environment".to_string())
    );
    assert_eq!(
        startup_failure_message(&without(base_vars(), "GOOGLE_CLIENT_ID")),
        Some("GOOGLE_CLIENT_ID must be set".to_string())
    );
    assert_eq!(
        startup_failure_message(&without(base_vars(), "CLOUDFLARE_TURN_API_TOKEN")),
        Some("CLOUDFLARE_TURN_API_TOKEN must be set in environment".to_string())
    );
    // The first one read is reported.
    let vars = without(without(base_vars(), "S3_BUCKET_NAME"), "JWT_SECRET");
    assert_eq!(startup_failure_message(&vars), Some("JWT_SECRET must be set in environment".to_string()));
}

#[test]
fn unparsable_token_lifetime_stops_the_service() {
    assert_eq!(
        startup_failure_message(&with(base_vars(), "SESSION_TOKEN_TTL_SECONDS", "soon")),
        Some("SESSION_TOKEN_TTL_SECONDS must be an integer".to_string())
    );
}

#[test]
fn an_earlier_bad_number_is_an_error_not_a_stop() {
    let vars = with(without(base_vars(), "DATABASE_URL"), "SERVER_PORT", "port");
    assert_eq!(startup_failure_message(&vars), None);
    match Config::from_vars(&vars) {
        Err(ConfigError::InvalidNumber(n)) => assert_eq!(n, "SERVER_PORT"),
        other => panic!("{:?}", other.map(|_| ())),
    }
    // A bad SMTP port is read last: a missing variable stops the service first.
    let vars = with(without(base_vars(), "APPLE_TEAM_ID"), "SMTP_PORT", "x");
    assert_eq!(startup_failure_message(&vars), Some("APPLE_TEAM_ID must be set".to_string()));
}
