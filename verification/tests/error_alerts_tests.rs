use share_anything::error_alerts::{error_detail, is_health_path, should_alert};

#[test]
fn health_probes_are_recognised() {
    assert!(is_health_path("/health"));
    assert!(is_health_path("/health/db"));
    assert!(is_health_path("/health/turn"));
    assert!(is_health_path("/v1/health"));
    assert!(!is_health_path("/healthz"));
    assert!(!is_health_path("/v1/health/db"));
    assert!(!is_health_path("/api/upload"));
}

#[test]
fn only_server_errors_off_health_paths_alert() {
    assert!(should_alert("/api/upload", 500));
    assert!(should_alert("/api/upload", 503));
    assert!(should_alert("/api/upload", 599));
    assert!(!should_alert("/api/upload", 404));
    assert!(!should_alert("/api/upload", 600));
    assert!(!should_alert("/health/db", 503));
    assert!(!should_alert("/v1/health", 500));
}

#[test]
fn empty_body_uses_the_status_line() {
    assert_eq!(error_detail("500 Internal Server Error", ""), "500 Internal Server Error");
}

#[test]
fn short_body_is_kept_whole() {
    assert_eq!(error_detail("500 Internal Server Error", "db down"), "db down");
    let exactly = "a".repeat(1000);
    assert_eq!(error_detail("500", &exactly), exactly);
}

#[test]
fn long_body_is_cut_after_a_thousand_bytes() {
    let long = "x".repeat(1500);
    let detail = error_detail("500", &long);
    assert_eq!(detail, format!("{}...", "x".repeat(1000)));
    // Two-byte characters: the cut falls after the 500th.
    let wide = "é".repeat(600);
    assert_eq!(error_detail("500", &wide), format!("{}...", "é".repeat(500)));
}
