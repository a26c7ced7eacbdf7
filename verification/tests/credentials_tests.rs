use share_anything::api_error::AppError;
use share_anything::credentials::{
    bearer_token, check_api_key_now, check_api_key_state, check_personal_token_expiry, check_personal_token_format,
    check_v1_key_format, generate_api_key, generate_personal_token, hash_token, is_cli_api_key_format, swagger_authorized,
    swagger_protected_path, verify_admin_password,
};

fn unauthorized(r: Result<(), AppError>) -> String {
    match r {
        Err(AppError::Unauthorized(m)) => m,
        other => panic!("expected unauthorized, got {:?}", other),
    }
}

#[test]
fn tokens_are_stored_as_hex_sha256() {
    assert_eq!(hash_token("abc"), "ba7816bf8f01cfea414140de5dae2223b00361a396177a9cb410ff61f20015ad");
    assert_eq!(hash_token(""), "e3b0c44298fc1c149afbf4c8996fb92427ae41e4649b934ca495991b7852b855");
    assert_ne!(hash_token("sa_a"), hash_token("sa_b"));
}

#[test]
fn generated_tokens_have_their_prefix_and_forty_letters_or_digits() {
    for t in [generate_personal_token(), generate_api_key()] {
        assert_eq!(t.len(), 43);
        assert!(t[3..].chars().all(|c| c.is_ascii_alphanumeric()));
    }
    assert!(generate_personal_token().starts_with("sa_"));
    assert!(generate_api_key().starts_with("sk_"));
    assert_ne!(generate_api_key(), generate_api_key());
}

#[test]
fn token_formats() {
    assert!(check_personal_token_format("sa_x").is_ok());
    assert!(check_personal_token_format("sk_x").is_ok());
    assert_eq!(unauthorized(check_personal_token_format("sak_x")), "Invalid token format. Expected 'sa_' or 'sk_' prefix.");
    assert!(check_v1_key_format("sak_x").is_ok());
    assert_eq!(
        unauthorized(check_v1_key_format("sa_x")),
        "Invalid token format. Only API keys (sak_ prefix) are accepted on this endpoint."
    );
    assert!(is_cli_api_key_format("sa_1"));
    assert!(!is_cli_api_key_format("sk_1"));
}

#[test]
fn stored_key_checks() {
    assert!(check_api_key_state(None, false, 100).is_ok());
    assert!(check_api_key_state(Some(100), false, 100).is_ok());
    assert_eq!(unauthorized(check_api_key_state(Some(99), false, 100)), "API Key has expired");
    assert_eq!(unauthorized(check_api_key_state(Some(99), true, 100)), "API Key has expired");
    assert_eq!(unauthorized(check_api_key_state(None, true, 100)), "API Key has been revoked");
    assert!(check_api_key_now(None, false).is_ok());
    assert_eq!(unauthorized(check_api_key_now(Some(0), false)), "API Key has expired");
    assert_eq!(unauthorized(check_personal_token_expiry(Some(1), 2)), "Personal Token has expired.");
    assert!(check_personal_token_expiry(None, 2).is_ok());
}

#[test]
fn bearer_header() {
    assert_eq!(bearer_token(Some("Bearer abc")).unwrap(), "abc");
    match bearer_token(None) {
        Err(AppError::Unauthorized(m)) => assert_eq!(m, "Authentication required"),
        _ => panic!(),
    }
    match bearer_token(Some("Basic abc")) {
        Err(AppError::Unauthorized(m)) => assert_eq!(m, "Bearer token required"),
        _ => panic!(),
    }
}

#[test]
fn admin_password() {
    assert_eq!(unauthorized(verify_admin_password("", Some("x"))), "Admin password not configured");
    assert_eq!(unauthorized(verify_admin_password("secret", None)), "Invalid admin password");
    assert_eq!(unauthorized(verify_admin_password("secret", Some("secreT"))), "Invalid admin password");
    assert_eq!(unauthorized(verify_admin_password("secret", Some("secret1"))), "Invalid admin password");
    assert!(verify_admin_password("secret", Some("secret")).is_ok());
}

#[test]
fn swagger_basic_credentials() {
    assert!(swagger_protected_path("/swagger-ui/index.html"));
    assert!(swagger_protected_path("/api-docs/openapi.json"));
    assert!(!swagger_protected_path("/api-docs"));
    assert!(swagger_authorized("user", "pass", Some("Basic dXNlcjpwYXNz")));
    assert!(!swagger_authorized("user", "pass", Some("Basic dXNlcjpwYXNzCg==")));
    assert!(!swagger_authorized("user", "pass", Some("dXNlcjpwYXNz")));
    assert!(!swagger_authorized("user", "pass", None));
    assert!(!swagger_authorized("", "pass", Some("Basic OnBhc3M=")));
}
