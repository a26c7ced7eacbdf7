use share_anything::api_error::AppError;
use share_anything::jwt_claims::SessionRefusal;
use share_anything::jwt_tokens::{
    check_session_token, create_jwt, issue_device_revoke_token, issue_session_token, validate_session_token, verify_device_revoke_token,
    verify_jwt,
};

fn now() -> i64 {
    std::time::SystemTime::now().duration_since(std::time::UNIX_EPOCH).unwrap().as_secs() as i64
}

#[test]
fn a_created_token_verifies_back_to_its_claims() {
    let t = now();
    let token = create_jwt("u1", "a@b.co", "Alice", "j1", "secret", 24, t).unwrap();
    assert_eq!(token.split('.').count(), 3);
    let c = verify_jwt(&token, "secret").unwrap();
    assert_eq!(c.sub, "u1");
    assert_eq!(c.email, "a@b.co");
    assert_eq!(c.name, "Alice");
    assert_eq!(c.jti, "j1");
    assert_eq!(c.iat, t as usize);
    assert_eq!(c.exp, (t + 24 * 3600) as usize);
}

#[test]
fn a_token_under_another_secret_or_expired_is_refused() {
    let t = now();
    let token = create_jwt("u1", "a@b.co", "Alice", "j1", "secret", 24, t).unwrap();
    match verify_jwt(&token, "other") {
        Err(AppError::Unauthorized(m)) => assert_eq!(m, "Invalid authentication token"),
        other => panic!("{:?}", other),
    }
    let old = create_jwt("u1", "a@b.co", "Alice", "j1", "secret", -2, t).unwrap();
    assert!(verify_jwt(&old, "secret").is_err());
    assert!(verify_jwt("not.a.token", "secret").is_err());
}

#[test]
fn a_created_token_is_what_jsonwebtoken_decodes() {
    let t = now();
    let token = create_jwt("u1", "a@b.co", "Alice", "j1", "secret", 1, t).unwrap();
    let data = jsonwebtoken::decode::<serde_json::Value>(
        &token,
        &jsonwebtoken::DecodingKey::from_secret(b"secret"),
        &jsonwebtoken::Validation::default(),
    )
    .unwrap();
    assert_eq!(data.claims["sub"], "u1");
    assert_eq!(data.claims["exp"].as_u64(), Some((t + 3600) as u64));
    assert_eq!(data.header.alg, jsonwebtoken::Algorithm::HS256);
}

#[test]
fn session_tokens_validate_only_when_signed_unexpired_and_of_their_kind() {
    let t = now();
    let token = issue_session_token("s3cret", t, 600).unwrap();
    assert!(validate_session_token(&token, "s3cret"));
    assert!(!validate_session_token(&token, "other"));
    assert!(!validate_session_token("", "s3cret"));
    let expired = issue_session_token("s3cret", t - 7200, 600).unwrap();
    assert!(!validate_session_token(&expired, "s3cret"));
    let user = create_jwt("u1", "a@b.co", "Alice", "j1", "s3cret", 1, t).unwrap();
    assert!(!validate_session_token(&user, "s3cret"));
}

#[test]
fn device_revoke_links_round_trip_and_keep_their_kind() {
    let t = now();
    let token = issue_device_revoke_token("k", "u1", "j1", "d1", t).unwrap();
    let c = verify_device_revoke_token(&token, "k").unwrap();
    assert_eq!((c.sub.as_str(), c.jti.as_str(), c.device_id.as_str(), c.typ.as_str()), ("u1", "j1", "d1", "device_revoke"));
    assert_eq!(c.exp, (t + 7 * 86400) as usize);
    assert!(verify_device_revoke_token(&token, "other").is_none());
    let user = create_jwt("u1", "a@b.co", "Alice", "j1", "k", 1, t).unwrap();
    assert!(verify_device_revoke_token(&user, "k").is_none());
}

#[test]
fn session_header_check_tells_wrong_kind_from_invalid() {
    let t = now();
    let token = issue_session_token("s", t, 600).unwrap();
    assert!(check_session_token(&token, "s").is_ok());
    assert!(matches!(check_session_token(&token, "x"), Err(SessionRefusal::Expired)));
    assert!(matches!(check_session_token("garbage", "s"), Err(SessionRefusal::Expired)));
    let revoke = issue_device_revoke_token("s", "u1", "j1", "d1", t).unwrap();
    assert!(matches!(check_session_token(&revoke, "s"), Err(SessionRefusal::Expired)));
    let mut m = serde_json::Map::new();
    m.insert("kind".into(), serde_json::Value::from("other"));
    m.insert("iat".into(), serde_json::Value::from(t));
    m.insert("exp".into(), serde_json::Value::from(t + 600));
    let other = jsonwebtoken::encode(&jsonwebtoken::Header::default(), &m, &jsonwebtoken::EncodingKey::from_secret(b"s")).unwrap();
    assert!(matches!(check_session_token(&other, "s"), Err(SessionRefusal::WrongKind)));
}
