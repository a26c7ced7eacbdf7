use share_anything::api_error::{hide_forbidden_as_not_found, AppError, PublicApiError};
use share_anything::rate_limiter::RateLimitStatus;
use share_anything::scope::{PersonalTokenUser, Scope};
use share_anything::v1::{
    authorize, health, me_response, rate_limit_response, resource_limit, v1_upload_response_from, CliUploadResponse,
    V1Endpoint,
};

fn key(scopes: Vec<Scope>) -> PersonalTokenUser {
    PersonalTokenUser { user_id: "u1".to_string(), personal_token_id: "k1".to_string(), scopes }
}

#[test]
fn public_errors_have_stable_codes_and_messages() {
    let e = PublicApiError::InsufficientScope("upload");
    assert_eq!(e.status_and_code(), (403, "insufficient_scope"));
    assert_eq!(e.message(), "This endpoint requires the 'upload' scope.");
    let env = PublicApiError::TooManyRequests.envelope();
    assert_eq!(env.error.code, "too_many_requests");
    assert_eq!(env.error.message, "Rate limit exceeded.");
    assert!(env.error.request_id.is_none());
    assert_eq!(PublicApiError::Internal.status_and_code(), (500, "internal_error"));
    assert_eq!(PublicApiError::Gone("g".into()).status_and_code(), (410, "gone"));
}

#[test]
fn internal_errors_are_not_leaked() {
    let e = PublicApiError::from(AppError::Internal("db password is hunter2".into()));
    assert_eq!(e.message(), "An internal error occurred.");
    assert_eq!(e.status_and_code().0, 500);
    let nf = PublicApiError::from(AppError::NotFound("share 123456 of user 7".into()));
    assert_eq!(nf.message(), "Resource not found.");
    assert_eq!(PublicApiError::from(AppError::Http(413, "too big".into())).status_and_code().0, 500);
    assert_eq!(PublicApiError::from(AppError::TooManyRequests("x".into())).status_and_code().0, 429);
}

#[test]
fn forbidden_is_shown_as_not_found() {
    let e = hide_forbidden_as_not_found(AppError::Forbidden("not yours".into()));
    assert_eq!(e.status_and_code(), (404, "not_found"));
    assert_eq!(e.message(), "Resource not found.");
    let b = hide_forbidden_as_not_found(AppError::BadRequest("x".into()));
    assert_eq!(b.message(), "Bad request.");
}

#[test]
fn endpoints_demand_their_scope() {
    let reader = key(vec![Scope::Read]);
    assert!(authorize(Some(&reader), V1Endpoint::GetShare).is_ok());
    match authorize(Some(&reader), V1Endpoint::PostUpload) {
        Err(PublicApiError::InsufficientScope(s)) => assert_eq!(s, "upload"),
        other => panic!("{:?}", other),
    }
    match authorize(Some(&reader), V1Endpoint::PostP2pSession) {
        Err(PublicApiError::InsufficientScope(s)) => assert_eq!(s, "p2p_transfer"),
        other => panic!("{:?}", other),
    }
    match authorize(None, V1Endpoint::GetMe) {
        Err(PublicApiError::Unauthorized(m)) => {
            assert_eq!(m, "Missing or invalid Personal Token. Set the 'X-Personal-Token' header.")
        }
        other => panic!("{:?}", other),
    }
    assert!(matches!(V1Endpoint::DeleteMyUpload.required_scope(), Scope::Delete));
}

#[test]
fn me_and_health() {
    assert_eq!(health().status, "healthy");
    let k = key(vec![Scope::Read, Scope::Upload]);
    let me = me_response(&k, Some(("u1".into(), "a@b.co".into(), "A".into(), "active".into()))).unwrap();
    assert_eq!(me.token_id, "k1");
    assert_eq!(me.scopes, vec![Scope::Read, Scope::Upload]);
    match me_response(&k, None) {
        Err(PublicApiError::Unauthorized(m)) => assert_eq!(m, "Token is associated with a deleted user"),
        other => panic!("{:?}", other),
    }
}

#[test]
fn me_refuses_a_soft_deleted_account() {
    let k = key(vec![Scope::Read]);
    match me_response(&k, Some(("u1".into(), "a@b.co".into(), "A".into(), "deleted".into()))) {
        Err(PublicApiError::Unauthorized(m)) => assert_eq!(m, "Token is associated with a deleted user"),
        other => panic!("{:?}", other),
    }
}

#[test]
fn upload_response_drops_the_curl_command() {
    let c = CliUploadResponse {
        share_code: "123456".into(),
        files: vec!["a.txt".into()],
        curl_command: "curl ...".into(),
        expires_at: "2030-01-01 00:00".into(),
    };
    let v = v1_upload_response_from(c);
    assert_eq!(v.share_code, "123456");
    assert_eq!(v.files, vec!["a.txt".to_string()]);
}

#[test]
fn rate_limit_report() {
    let s = |limit, remaining, reset| RateLimitStatus { limit, remaining, reset_unix: reset };
    let r = resource_limit(&s(500, 480, 99));
    assert_eq!((r.limit, r.used, r.remaining, r.reset), (500, 20, 480, 99));
    let rep = rate_limit_response(&s(500, 500, 1), &s(80, 0, 2), &s(150, 10, 3), 3, 2, 7, 60, 5);
    assert_eq!(rep.resources.upload.used, 80);
    assert_eq!(rep.p2p.concurrent_connections.available, 0);
    assert_eq!(rep.p2p.connect_attempts.remaining, 0);
    assert_eq!(rep.p2p.connect_attempts.window_seconds, 60);
}

#[test]
fn foreign_share_and_missing_share_get_the_same_answer() {
    let foreign = hide_forbidden_as_not_found(AppError::Forbidden("belongs to someone else".into()));
    let missing = hide_forbidden_as_not_found(AppError::NotFound("no such share".into()));
    assert_eq!(foreign.status_and_code(), missing.status_and_code());
    assert_eq!(foreign.message(), missing.message());
    assert_eq!(foreign.status_and_code(), (404, "not_found"));
}
