use share_anything::api_error::AppError;
use share_anything::cli_auth::{
    check_completable, check_completed_rows, check_token_revoked, cli_auth_status, handed_token, issue_personal_token,
    login_url, personal_token_name, CliAuthStatus,
};
use share_anything::credentials::hash_token;

fn bad(r: Result<(), AppError>) -> String {
    match r {
        Err(AppError::BadRequest(m)) => m,
        other => panic!("expected bad request, got {:?}", other),
    }
}

#[test]
fn polling_status() {
    assert!(matches!(cli_auth_status("pending", 100, 50), CliAuthStatus::Pending));
    assert!(matches!(cli_auth_status("pending", 100, 101), CliAuthStatus::Expired));
    assert!(matches!(cli_auth_status("completed", 100, 101), CliAuthStatus::Completed));
    assert_eq!(CliAuthStatus::Expired.as_str(), "expired");
}

#[test]
fn the_token_is_handed_out_once() {
    assert_eq!(handed_token(Some("sa_x".to_string()), 1), Some("sa_x".to_string()));
    assert_eq!(handed_token(Some("sa_x".to_string()), 0), None);
    assert_eq!(handed_token(None, 1), None);
}

#[test]
fn completing_a_session() {
    assert!(check_completable("pending", 100, 100).is_ok());
    assert_eq!(bad(check_completable("pending", 99, 100)), "CLI auth session has expired");
    assert_eq!(bad(check_completable("completed", 100, 50)), "CLI auth session has already been processed");
    assert_eq!(bad(check_completed_rows(0)), "Failed to complete CLI auth session");
    assert!(check_completed_rows(1).is_ok());
    assert_eq!(login_url("https://s.example", "abc"), "https://s.example/cli-signin/abc");
}

#[test]
fn personal_tokens() {
    let t = issue_personal_token();
    assert!(t.token.starts_with("sa_"));
    assert_eq!(t.prefix, t.token[..8].to_string());
    assert_eq!(t.hash, hash_token(&t.token));
    assert_eq!(personal_token_name(None).unwrap(), "CLI Token");
    assert_eq!(personal_token_name(Some("laptop".to_string())).unwrap(), "laptop");
    match personal_token_name(Some("x".repeat(256))) {
        Err(AppError::BadRequest(m)) => assert_eq!(m, "키 이름은 255자 이하여야 합니다"),
        _ => panic!(),
    }
    match check_token_revoked(0) {
        Err(AppError::NotFound(m)) => assert_eq!(m, "Personal Token을 찾을 수 없습니다"),
        _ => panic!(),
    }
}
