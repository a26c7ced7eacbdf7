use share_anything::api_error::AppError;
use share_anything::quick_access::{check_quick_access, QuickAccessFile};

fn file(owner: Option<&str>, quick: bool, expires_at: i64) -> QuickAccessFile {
    QuickAccessFile { id: "f".to_string(), user_id: owner.map(|o| o.to_string()), is_quick_access: quick, expires_at }
}

fn err(r: Result<(), AppError>) -> String {
    match r {
        Err(e) => format!("{:?}", e),
        Ok(()) => "ok".to_string(),
    }
}

#[test]
fn only_the_owner_reaches_a_quick_access_file() {
    let f = file(Some("u1"), true, 1_000);
    assert_eq!(err(check_quick_access(Some("u1"), Some(&f), true, 500)), "ok");
    assert_eq!(err(check_quick_access(None, Some(&f), true, 500)), "Unauthorized(\"Authentication required\")");
    assert_eq!(err(check_quick_access(Some("u1"), None, true, 500)), "NotFound(\"File not found\")");
    assert_eq!(
        err(check_quick_access(Some("u2"), Some(&f), true, 500)),
        "Forbidden(\"Access to another user's file is forbidden\")"
    );
    let plain = file(Some("u1"), false, 1_000);
    assert_eq!(err(check_quick_access(Some("u1"), Some(&plain), true, 500)), "Forbidden(\"Not a Quick Access file\")");
}

#[test]
fn expired_files_are_gone_except_for_deletion() {
    let f = file(Some("u1"), true, 1_000);
    assert_eq!(err(check_quick_access(Some("u1"), Some(&f), true, 1_001)), "NotFound(\"File expired\")");
    assert_eq!(err(check_quick_access(Some("u1"), Some(&f), false, 1_001)), "ok");
}
