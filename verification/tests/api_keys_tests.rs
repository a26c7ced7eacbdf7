use share_anything::api_error::AppError;
use share_anything::api_keys::{
    application_scopes, check_application_owner, check_application_rate, check_pending, check_revoked_rows, extract_ip,
    issue_api_key, validate_application, AdminListQuery,
};
use share_anything::credentials::hash_token;
use share_anything::scope::Scope;

fn bad_request(r: Result<(), AppError>) -> String {
    match r {
        Err(AppError::BadRequest(m)) => m,
        other => panic!("expected bad request, got {:?}", other),
    }
}

const PURPOSE: &str = "Uploading build artifacts from our CI pipeline";

#[test]
fn application_fields_are_checked_in_order() {
    assert!(validate_application("My App", "https://example.com", PURPOSE).is_ok());
    assert_eq!(bad_request(validate_application("", "https://example.com", PURPOSE)), "서비스 이름은 1~255자 이내여야 합니다");
    assert_eq!(bad_request(validate_application(&"x".repeat(256), "https://example.com", PURPOSE)), "서비스 이름은 1~255자 이내여야 합니다");
    assert!(validate_application(&"x".repeat(255), "http://example.com", PURPOSE).is_ok());
    assert_eq!(
        bad_request(validate_application("App", "ftp://example.com", PURPOSE)),
        "서비스 URL은 http:// 또는 https://로 시작해야 합니다"
    );
    let long_url = format!("https://{}", "a".repeat(505));
    assert_eq!(bad_request(validate_application("App", &long_url, PURPOSE)), "서비스 URL은 512자 이내여야 합니다");
    assert_eq!(bad_request(validate_application("App", "https://e.com", "too short")), "사용 목적은 30자 이상 입력해야 합니다");
    assert!(validate_application("App", "https://e.com", &"한".repeat(10)).is_ok(), "thirty bytes of Korean text are enough");
}

#[test]
fn default_scopes() {
    assert_eq!(application_scopes(None), vec![Scope::Read, Scope::Upload, Scope::Delete]);
    assert_eq!(application_scopes(Some(vec![Scope::P2pTransfer])), vec![Scope::P2pTransfer]);
}

#[test]
fn one_application_a_day() {
    assert!(check_application_rate(false).is_ok());
    match check_application_rate(true) {
        Err(AppError::TooManyRequests(m)) => assert_eq!(m, "하루에 한 번만 신청할 수 있습니다"),
        _ => panic!(),
    }
}

#[test]
fn applicant_address() {
    assert_eq!(extract_ip(Some(Some("1.1.1.1, 2.2.2.2")), Some(Some("3.3.3.3"))), Some("1.1.1.1".to_string()));
    assert_eq!(extract_ip(None, Some(Some(" 3.3.3.3 "))), Some("3.3.3.3".to_string()));
    assert_eq!(extract_ip(Some(None), Some(Some("3.3.3.3"))), None);
    assert_eq!(extract_ip(None, None), None);
}

#[test]
fn applications_are_private_and_decided_once() {
    assert!(check_application_owner(Some("u1"), "u1").is_ok());
    match check_application_owner(Some("u2"), "u1") {
        Err(AppError::NotFound(m)) => assert_eq!(m, "신청을 찾을 수 없습니다"),
        _ => panic!(),
    }
    assert!(check_application_owner(None, "u1").is_err());
    assert!(check_pending("pending").is_ok());
    match check_pending("approved") {
        Err(AppError::Conflict(m)) => assert_eq!(m, "이미 처리된 신청입니다"),
        _ => panic!(),
    }
    assert!(check_revoked_rows(1).is_ok());
    match check_revoked_rows(0) {
        Err(AppError::NotFound(m)) => assert_eq!(m, "API Key를 찾을 수 없습니다"),
        _ => panic!(),
    }
}

#[test]
fn issued_keys() {
    let k = issue_api_key("Acme");
    assert!(k.api_key.starts_with("sk_"));
    assert_eq!(k.api_key.len(), 43);
    assert_eq!(k.key_prefix, k.api_key[..8].to_string());
    assert_eq!(k.key_hash, hash_token(&k.api_key));
    assert_eq!(k.name, "API Key for Acme");
    let q = AdminListQuery { status: Some("pending".to_string()) };
    assert_eq!(q.status.as_deref(), Some("pending"));
}
