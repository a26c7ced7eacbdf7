use share_anything::api_error::AppError;
use share_anything::share_password::{check_share_password, hash_share_password, p2p_password_ok, password_verdict};

#[test]
fn a_set_password_is_accepted_and_others_are_not() {
    let hash = hash_share_password(Some("correct horse")).unwrap().unwrap();
    assert!(hash.starts_with("$2b$12$"));
    assert!(check_share_password(Some(&hash), Some("correct horse"), "m", "f").is_ok());
    match check_share_password(Some(&hash), Some("battery"), "m", "f") {
        Err(AppError::Unauthorized(m)) => assert_eq!(m, "Incorrect password"),
        other => panic!("{:?}", other),
    }
    match check_share_password(Some(&hash), None, "need it", "f") {
        Err(AppError::Unauthorized(m)) => assert_eq!(m, "need it"),
        other => panic!("{:?}", other),
    }
    assert!(check_share_password(None, None, "m", "f").is_ok());
    assert!(p2p_password_ok(Some(&hash), Some("correct horse")));
    assert!(!p2p_password_ok(Some(&hash), None));
    assert!(p2p_password_ok(None, None));
}

#[test]
fn no_password_no_hash() {
    assert!(matches!(hash_share_password(None), Ok(None)));
}

#[test]
fn unreadable_hashes() {
    match check_share_password(Some("$2b$12$short"), Some("x"), "m", "broken") {
        Err(AppError::Internal(m)) => assert_eq!(m, "broken"),
        other => panic!("{:?}", other),
    }
    assert!(!p2p_password_ok(Some("garbage"), Some("x")));
    assert!(password_verdict(Some(true), "f").is_ok());
    assert!(matches!(password_verdict(None, "f"), Err(AppError::Internal(_))));
}
