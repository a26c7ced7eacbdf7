use share_anything::request_info::{extract_accept_language, extract_cli_platform, extract_client_ip, is_valid_email};

#[test]
fn client_ip_from_proxy_headers() {
    assert_eq!(extract_client_ip(Some(" 203.0.113.5 , 10.0.0.1"), Some("1.1.1.1")), "203.0.113.5");
    assert_eq!(extract_client_ip(None, Some(" 198.51.100.7 ")), "198.51.100.7");
    assert_eq!(extract_client_ip(None, None), "unknown");
}

#[test]
fn email_language() {
    assert_eq!(extract_accept_language(Some("en-US,en;q=0.9")), "en");
    assert_eq!(extract_accept_language(Some("ja")), "ja");
    assert_eq!(extract_accept_language(Some("zh-TW,zh;q=0.8")), "zh-TW");
    assert_eq!(extract_accept_language(Some("zh-Hant-HK")), "zh-TW");
    assert_eq!(extract_accept_language(Some("zh-CN")), "zh-CN");
    assert_eq!(extract_accept_language(Some("de-DE,en;q=0.5")), "ko");
    assert_eq!(extract_accept_language(Some(" en ;q=1")), "en");
    assert_eq!(extract_accept_language(None), "ko");
}

#[test]
fn cli_platform_from_user_agent() {
    assert_eq!(extract_cli_platform("share-cli/1.2.0 (macOS arm64)"), Some("macOS arm64".to_string()));
    assert_eq!(extract_cli_platform("share-cli/1.2.0 (  )"), None);
    assert_eq!(extract_cli_platform("share-cli/1.2.0"), None);
    assert_eq!(extract_cli_platform("share-cli/1.2.0 )("), None);
    assert_eq!(extract_cli_platform("curl/8 (Linux)"), None);
}

#[test]
fn email_addresses() {
    assert!(is_valid_email("a@b.co"));
    assert!(!is_valid_email("a@b."), "a domain of two bytes is too short");
    assert!(!is_valid_email("@b.com"));
    assert!(!is_valid_email("a@bcom"));
    assert!(!is_valid_email("a@b@c.com"));
    assert!(!is_valid_email("abc"));
    assert!(is_valid_email("민수@예.kr"));
}
