use share_anything::account::{
    check_default_expiration, check_file_owner, check_terminable, cli_session_label, newest_first, termination_outcome,
    validate_display_name,
};
use share_anything::api_error::AppError;

#[test]
fn display_names() {
    assert_eq!(validate_display_name("  Min Su  ").unwrap(), "Min Su");
    match validate_display_name("   ") {
        Err(AppError::BadRequest(m)) => assert_eq!(m, "Name must be between 1 and 50 characters"),
        _ => panic!(),
    }
    assert!(validate_display_name(&"a".repeat(50)).is_ok());
    assert!(validate_display_name(&"a".repeat(51)).is_err());
    assert!(validate_display_name(&"가".repeat(17)).is_err(), "17 Korean letters are 51 bytes");
}

#[test]
fn default_expiration_must_name_a_period() {
    assert!(check_default_expiration("twelve_hours").is_ok());
    match check_default_expiration("1h") {
        Err(AppError::BadRequest(m)) => assert_eq!(m, "Invalid default_expiration value"),
        _ => panic!(),
    }
}

#[test]
fn owners_only() {
    assert!(check_file_owner(Some("u1"), "u1").is_ok());
    match check_file_owner(Some("u2"), "u1") {
        Err(AppError::Forbidden(m)) => assert_eq!(m, "Access to another user's file is forbidden"),
        _ => panic!(),
    }
    assert!(check_file_owner(None, "u1").is_err());
}

#[test]
fn newest_first_is_a_stable_descending_order() {
    assert_eq!(newest_first(&vec![10, 30, 20, 30, 10]), vec![1, 3, 2, 0, 4]);
    assert_eq!(newest_first(&vec![]), Vec::<usize>::new());
    assert_eq!(newest_first(&vec![5]), vec![0]);
}

#[test]
fn sessions() {
    assert_eq!(cli_session_label(Some("macOS arm64")), "CLI on macOS arm64");
    assert_eq!(cli_session_label(Some("")), "CLI");
    assert_eq!(cli_session_label(None), "CLI");
    match check_terminable("j1", "j1") {
        Err(AppError::BadRequest(m)) => assert_eq!(m, "Cannot terminate the active session"),
        _ => panic!(),
    }
    assert!(check_terminable("j2", "j1").is_ok());
    assert!(termination_outcome(1, None).is_ok());
    assert!(termination_outcome(0, Some(1)).is_ok());
    match termination_outcome(0, Some(0)) {
        Err(AppError::NotFound(m)) => assert_eq!(m, "Session not found"),
        _ => panic!(),
    }
}

#[test]
fn history_page_lists_newest_first_with_its_total() {
    let p = share_anything::account::history_page(&vec![10, 30, 20], Some(20), Some(0));
    assert_eq!(p.order, vec![1, 2, 0]);
    assert_eq!(p.total, 3);
    assert_eq!(p.limit, Some(20));
    assert_eq!(p.offset, Some(0));
}
