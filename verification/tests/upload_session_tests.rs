use share_anything::api_error::AppError;
use share_anything::upload_policy::ExpirationPeriod;
use share_anything::upload_session::{
    check_upload_session_state, session_expiration, share_download_url, upload_notice_recipient, UploadSession,
};

fn session(code: &str, completed: bool, period: &str, quick: bool, user: Option<&str>) -> UploadSession {
    UploadSession {
        share_code: code.to_string(),
        user_id: user.map(|u| u.to_string()),
        expiration_period: period.to_string(),
        is_quick_access: quick,
        completed,
    }
}

fn bad(r: Result<(), AppError>) -> String {
    match r {
        Err(AppError::BadRequest(m)) => m,
        other => panic!("expected bad request, got {:?}", other),
    }
}

#[test]
fn session_checks() {
    let s = session("123456", false, "one_hour", false, None);
    assert!(check_upload_session_state(Some(&s), Some("123456")).is_ok());
    assert!(check_upload_session_state(Some(&s), None).is_ok());
    assert_eq!(bad(check_upload_session_state(None, Some("123456"))), "Invalid upload session");
    assert_eq!(bad(check_upload_session_state(Some(&s), Some("654321"))), "Share code does not match");
    let done = session("123456", true, "one_hour", false, None);
    assert_eq!(bad(check_upload_session_state(Some(&done), Some("123456"))), "Upload session already completed");
    assert_eq!(bad(check_upload_session_state(Some(&done), None)), "Upload session already completed");
}

#[test]
fn completed_share_lifetime_and_link() {
    assert!(matches!(session_expiration(&session("1", false, "six_hours", false, None)), ExpirationPeriod::SixHours));
    assert!(matches!(session_expiration(&session("1", false, "forever", false, None)), ExpirationPeriod::FiveMinutes));
    assert_eq!(share_download_url("https://api.example", "123456"), "https://api.example/download?code=123456");
}

#[test]
fn who_is_told() {
    assert_eq!(upload_notice_recipient(&session("1", false, "one_hour", false, Some("u1"))), Some("u1".to_string()));
    assert_eq!(upload_notice_recipient(&session("1", false, "one_hour", true, Some("u1"))), None);
    assert_eq!(upload_notice_recipient(&session("1", false, "one_hour", false, None)), None);
}
