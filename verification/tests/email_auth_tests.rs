use share_anything::api_error::AppError;
use share_anything::email_auth::{
    build_email_auth_data, check_recent_link, check_verification_code, is_completed, link_outcome,
    new_verification_code, sign_in_address, six_digit_code, User,
};

fn status(e: AppError) -> u16 {
    match e {
        AppError::Http(s, _) => s,
        other => panic!("expected a status, got {:?}", other),
    }
}

#[test]
fn sign_in_address_is_trimmed_and_lower_cased() {
    assert_eq!(sign_in_address("  Alice@Example.COM ").unwrap(), "alice@example.com");
    assert_eq!(status(sign_in_address("not-an-address").unwrap_err()), 400);
    assert_eq!(status(check_recent_link(true).unwrap_err()), 429);
    assert!(check_recent_link(false).is_ok());
}

#[test]
fn codes_have_six_digits() {
    assert_eq!(six_digit_code(42), "000042");
    assert_eq!(six_digit_code(999_999), "999999");
    assert_eq!(six_digit_code(0), "000000");
    let c = new_verification_code();
    assert_eq!(c.len(), 6);
    assert!(c.chars().all(|ch| ch.is_ascii_digit()));
}

#[test]
fn opening_a_link() {
    assert_eq!(link_outcome("pending", Some("dev-1"), "dev-1").unwrap(), true);
    assert_eq!(link_outcome("pending", Some("dev-2"), "dev-1").unwrap(), false);
    assert_eq!(link_outcome("pending", Some(""), "").unwrap(), false);
    assert_eq!(link_outcome("pending", None, "dev-1").unwrap(), false);
    assert_eq!(status(link_outcome("completed", Some("dev-1"), "dev-1").unwrap_err()), 410);
}

#[test]
fn typing_the_code() {
    assert!(check_verification_code(100, 100, "123456", "123456").is_ok());
    assert_eq!(status(check_verification_code(99, 100, "123456", "123456").unwrap_err()), 410);
    assert_eq!(status(check_verification_code(100, 50, "123456", "654321").unwrap_err()), 401);
    assert!(is_completed("completed"));
    assert!(!is_completed("verified"));
}

#[test]
fn sign_in_data() {
    let user = User {
        id: "u1".to_string(),
        email: "a@b.co".to_string(),
        name: "A".to_string(),
        profile_image: None,
    };
    let d = build_email_auth_data(&user, "jwt".to_string(), Some("google".to_string()));
    assert_eq!(d.token, "jwt");
    assert_eq!(d.user.id, "u1");
    assert_eq!(d.user.email, "a@b.co");
    assert_eq!(d.user.profile_image, None);
    assert_eq!(d.existing_provider.as_deref(), Some("google"));
}
