use share_anything::api_error::AppError;
use share_anything::jwt_claims::{
    check_exchange_request, device_result_url, device_revoke_claims, is_device_revoke_kind, is_session_kind,
    needs_interactive_retry, session_claims, session_step, session_token_verdict, turnstile_verdict, user_claims,
    DeviceRevokeOutcome, ExchangeRequest, SessionRefusal, SessionStep,
};

#[test]
fn user_token_lives_the_configured_hours() {
    let c = user_claims("u1", "a@b.co", "A", "j1", 1_700_000_000, 24);
    assert_eq!(c.sub, "u1");
    assert_eq!(c.jti, "j1");
    assert_eq!(c.iat, 1_700_000_000);
    assert_eq!(c.exp, 1_700_000_000 + 24 * 3600);
}

#[test]
fn session_and_revocation_claims() {
    let s = session_claims(1_000, 1_800);
    assert_eq!(s.kind, "session");
    assert_eq!(s.exp, 2_800);
    let d = device_revoke_claims("u1", "j1", "dev", 10);
    assert_eq!(d.typ, "device_revoke");
    assert_eq!(d.exp, 10 + 7 * 86_400);
    assert!(is_session_kind("session"));
    assert!(!is_session_kind("device_revoke"));
    assert!(is_device_revoke_kind("device_revoke"));
}

#[test]
fn exchange_needs_a_turnstile_token() {
    match check_exchange_request(&ExchangeRequest { turnstile_token: String::new() }) {
        Err(AppError::BadRequest(m)) => assert_eq!(m, "turnstile_token is required"),
        _ => panic!(),
    }
    assert!(check_exchange_request(&ExchangeRequest { turnstile_token: "t".to_string() }).is_ok());
}

#[test]
fn turnstile_retry_and_verdict() {
    assert!(!needs_interactive_retry(true, "k"));
    assert!(!needs_interactive_retry(false, ""));
    assert!(needs_interactive_retry(false, "k"));
    assert!(turnstile_verdict(true, None).is_ok());
    assert!(turnstile_verdict(false, Some(true)).is_ok());
    match turnstile_verdict(false, Some(false)) {
        Err(AppError::Forbidden(m)) => assert_eq!(m, "Turnstile verification failed"),
        _ => panic!(),
    }
    assert!(turnstile_verdict(false, None).is_err());
}

#[test]
fn session_token_check_of_anonymous_routes() {
    assert!(matches!(session_step(true, false, None), SessionStep::Pass));
    assert!(matches!(session_step(false, true, None), SessionStep::Pass));
    assert!(matches!(session_step(false, false, None), SessionStep::Missing));
    assert!(matches!(session_step(false, false, Some("")), SessionStep::Missing));
    match session_step(false, false, Some("tok")) {
        SessionStep::Check(t) => assert_eq!(t, "tok"),
        _ => panic!(),
    }
    let expired = session_token_verdict(None).unwrap_err();
    assert_eq!(expired.code(), "SESSION_TOKEN_EXPIRED");
    assert_eq!(expired.message(), "Session token invalid or expired");
    let wrong = session_token_verdict(Some("device_revoke")).unwrap_err();
    assert_eq!(wrong.code(), "SESSION_TOKEN_INVALID");
    assert!(session_token_verdict(Some("session")).is_ok());
    assert_eq!(SessionRefusal::Required.message(), "Session token required");
}

#[test]
fn revocation_result_page() {
    assert_eq!(device_result_url("https://s.example", DeviceRevokeOutcome::Revoked), "https://s.example/auth/device/result?status=revoked");
    assert_eq!(device_result_url("https://s.example", DeviceRevokeOutcome::Invalid), "https://s.example/auth/device/result?status=invalid");
}
