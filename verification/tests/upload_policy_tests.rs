use share_anything::api_error::AppError;
use share_anything::upload_policy::{
    add_staged_file, apply_upload_field, check_chunk_size, MIN_CHUNK_SIZE, check_api_key_storage, check_declared_total, check_presigned_sizes,
    check_upload_session, cli_upload_options, daily_quota_response, empty_upload_metadata, is_allowed_default_expiration,
    needs_multipart_completion, parse_bool, parse_cli_expiration, plan_p2p_share, presigned_options, stored_expiration,
    refusal_answer, total_size, upload_handling, web_upload_first, web_upload_second, ExpirationPeriod, QuotaCharge,
    SessionOperation, TransferType, UploadRefusal, UploadSurface,
    API_KEY_ACTIVE_STORAGE_LIMIT, GUEST_MAX_TOTAL, MEMBER_MAX_TOTAL,
};

fn msg<T: std::fmt::Debug>(r: Result<T, UploadRefusal>) -> String {
    match r {
        Err(UploadRefusal::BadRequest(m)) | Err(UploadRefusal::Unauthorized(m)) | Err(UploadRefusal::Forbidden(m)) => m,
        Err(other) => format!("{:?}", other),
        Ok(v) => format!("ok {:?}", v),
    }
}

#[test]
fn expiration_names() {
    assert!(matches!(parse_cli_expiration("1h"), Some(ExpirationPeriod::OneHour)));
    assert!(matches!(parse_cli_expiration("twenty_four_hours"), Some(ExpirationPeriod::TwentyFourHours)));
    assert!(parse_cli_expiration("2h").is_none());
    assert_eq!(ExpirationPeriod::ThreeHours.as_str(), "three_hours");
    assert_eq!(ExpirationPeriod::TwelveHours.minutes(), 720);
    assert!(matches!(stored_expiration("bogus", ExpirationPeriod::FiveMinutes), ExpirationPeriod::FiveMinutes));
    assert!(is_allowed_default_expiration("six_hours"));
    assert!(!is_allowed_default_expiration("6h"));
    assert_eq!(parse_bool("true"), Some(true));
    assert_eq!(parse_bool("TRUE"), None);
}

#[test]
fn presigned_sizes() {
    assert_eq!(msg(check_presigned_sizes(&vec![], true, 100)), "At least one file is required");
    assert_eq!(msg(check_presigned_sizes(&vec![101], true, 100)), "PayloadTooLarge");
    assert_eq!(msg(check_presigned_sizes(&vec![GUEST_MAX_TOTAL, 1], false, i64::MAX)), "PayloadTooLarge");
    assert!(check_presigned_sizes(&vec![GUEST_MAX_TOTAL], false, i64::MAX).is_ok());
    assert!(check_presigned_sizes(&vec![MEMBER_MAX_TOTAL], true, i64::MAX).is_ok());
    assert_eq!(total_size(&vec![i64::MAX, i64::MAX]), 2 * (i64::MAX as i128));
}

#[test]
fn web_upload_options() {
    let guest_long = presigned_options(false, Some(ExpirationPeriod::OneHour), None, None, false);
    assert_eq!(msg(guest_long), "Guest users can only use the 5-minute expiration");
    let member = presigned_options(true, None, Some("six_hours"), Some(true), true).unwrap();
    assert!(matches!(member.expiration, ExpirationPeriod::SixHours));
    assert!(member.is_one_time);
    let guest = presigned_options(false, None, None, None, false).unwrap();
    assert!(matches!(guest.expiration, ExpirationPeriod::ThirtyMinutes));
    assert_eq!(msg(presigned_options(false, None, None, Some(true), false)), "Sign in required for one-time download");
    assert_eq!(msg(presigned_options(false, None, None, None, true)), "Sign in required for password protection");
}

#[test]
fn relayed_web_upload() {
    assert_eq!(msg(web_upload_first(0, true, None, None)), "No files uploaded. At least one file is required.");
    let (p, t) = web_upload_first(1, false, None, None).unwrap();
    assert!(matches!(p, ExpirationPeriod::FiveMinutes));
    assert!(matches!(t, TransferType::Server));
    assert_eq!(msg(web_upload_first(1, false, Some(ExpirationPeriod::OneHour), None)), "Guest users can only use the 5-minute expiration");
    assert_eq!(web_upload_second(false, TransferType::P2p, None, false).unwrap(), true);
    assert_eq!(msg(web_upload_second(false, TransferType::Server, Some(true), false)), "Sign in required for one-time download");
    assert_eq!(msg(web_upload_second(false, TransferType::Server, None, true)), "Sign in required for password protection");
    assert_eq!(web_upload_second(true, TransferType::Server, None, true).unwrap(), false);
}

#[test]
fn upload_form_fields() {
    let mut m = empty_upload_metadata();
    assert!(apply_upload_field(&mut m, "password", "").is_ok());
    assert!(m.password.is_none());
    apply_upload_field(&mut m, "password", "pw").unwrap();
    apply_upload_field(&mut m, "expiration", "one_hour").unwrap();
    apply_upload_field(&mut m, "is_one_time", "yes").unwrap();
    apply_upload_field(&mut m, "transfer_type", "p2p").unwrap();
    apply_upload_field(&mut m, "description", "ignored").unwrap();
    assert_eq!(m.password.as_deref(), Some("pw"));
    assert!(matches!(m.expiration, Some(ExpirationPeriod::OneHour)));
    assert_eq!(m.is_one_time, None);
    assert!(matches!(m.transfer_type, Some(TransferType::P2p)));
    match apply_upload_field(&mut m, "transfer_type", "carrier-pigeon") {
        Err(AppError::BadRequest(s)) => assert_eq!(s, "Invalid transfer_type value"),
        other => panic!("{:?}", other),
    }
}

#[test]
fn cli_options() {
    assert_eq!(msg(cli_upload_options(UploadSurface::Cli, 0, true, None, false, None)), "No files were uploaded");
    let (p, one) = cli_upload_options(UploadSurface::Cli, 1, false, None, false, None).unwrap();
    assert!(matches!(p, ExpirationPeriod::ThirtyMinutes));
    assert!(!one);
    assert_eq!(msg(cli_upload_options(UploadSurface::Cli, 1, false, Some("1h"), false, None)), "Personal token required to set expiration");
    assert_eq!(msg(cli_upload_options(UploadSurface::Cli, 1, true, Some("2h"), false, None)), "Invalid expiration. Available: 5m, 30m, 1h, 3h, 6h, 12h, 24h");
    assert_eq!(msg(cli_upload_options(UploadSurface::Cli, 1, false, None, true, None)), "Personal token required to set password");
    assert_eq!(msg(cli_upload_options(UploadSurface::Cli, 1, false, None, false, Some(true))), "Personal token required to set one-time download");
    let (p, one) = cli_upload_options(UploadSurface::Cli, 1, true, Some("12h"), true, Some(true)).unwrap();
    assert!(matches!(p, ExpirationPeriod::TwelveHours));
    assert!(one);
}

#[test]
fn quotas() {
    assert!(check_api_key_storage(API_KEY_ACTIVE_STORAGE_LIMIT - 1).is_ok());
    assert!(matches!(check_api_key_storage(API_KEY_ACTIVE_STORAGE_LIMIT), Err(UploadRefusal::StorageQuotaExceeded)));
    let daily = QuotaCharge::Daily { used: 90, limit: 100 };
    assert_eq!(add_staged_file(UploadSurface::Cli, daily, 0, 10).unwrap(), 10);
    assert!(matches!(add_staged_file(UploadSurface::Cli, QuotaCharge::Daily { used: 90, limit: 100 }, 10, 1), Err(UploadRefusal::DailyQuotaExceeded)));
    let key = QuotaCharge::ApiKey { existing: API_KEY_ACTIVE_STORAGE_LIMIT - 5 };
    assert!(matches!(check_declared_total(key, &vec![3, 3]), Err(UploadRefusal::StorageQuotaExceeded)));
    let q = daily_quota_response(120, 100, "2030-01-01T00:00:00+09:00".to_string(), true);
    assert_eq!(q.remaining_bytes, 0);
    assert_eq!(daily_quota_response(30, 100, String::new(), false).remaining_bytes, 70);
}

#[test]
fn multipart_session_checks() {
    assert!(check_upload_session(Some("u1"), Some("u1"), true, false, UploadSurface::Cli, SessionOperation::Complete).is_ok());
    assert_eq!(msg(check_upload_session(Some("u1"), Some("u2"), true, false, UploadSurface::V1, SessionOperation::Complete)), "Upload session does not belong to the authenticated user");
    assert_eq!(msg(check_upload_session(None, None, false, false, UploadSurface::Cli, SessionOperation::PresignParts)), "Share code mismatch");
    assert_eq!(msg(check_upload_session(None, None, true, true, UploadSurface::Cli, SessionOperation::PresignParts)), "Upload session already completed");
    assert!(needs_multipart_completion("abc", 2));
    assert!(!needs_multipart_completion("direct", 2));
    assert!(!needs_multipart_completion("abc", 0));
}

#[test]
fn p2p_shares_are_one_time_and_live_a_day() {
    match plan_p2p_share(0, None, "File information is required") {
        Err(AppError::BadRequest(m)) => assert_eq!(m, "File information is required"),
        other => panic!("{:?}", other),
    }
    let p = plan_p2p_share(2, Some("pw"), "x").unwrap();
    assert!(p.is_one_time);
    assert!(!p.is_quick_access);
    assert_eq!(p.lifetime_hours, 24);
    assert!(matches!(p.transfer_type, TransferType::P2p));
    assert!(p.password_hash.unwrap().starts_with("$2b$"));
    assert!(plan_p2p_share(1, None, "x").unwrap().password_hash.is_none());
}

#[test]
fn v1_uploads_default_to_a_day() {
    let (p, one) = cli_upload_options(UploadSurface::V1, 1, true, None, false, None).unwrap();
    assert!(matches!(p, ExpirationPeriod::TwentyFourHours));
    assert!(!one);
    let (p, _) = cli_upload_options(UploadSurface::V1, 1, true, Some("5m"), false, None).unwrap();
    assert!(matches!(p, ExpirationPeriod::FiveMinutes));
}

#[test]
fn v1_refuses_empty_files() {
    let key = QuotaCharge::ApiKey { existing: 0 };
    assert_eq!(msg(add_staged_file(UploadSurface::V1, key, 0, 0)), "Empty files cannot be uploaded");
    assert_eq!(add_staged_file(UploadSurface::Cli, key, 0, 0).unwrap(), 0);
    assert_eq!(add_staged_file(UploadSurface::V1, key, 5, 3).unwrap(), 8);
}

#[test]
fn v1_completed_sessions() {
    match check_upload_session(None, None, true, true, UploadSurface::V1, SessionOperation::PresignParts) {
        Err(UploadRefusal::NotFound(m)) => assert_eq!(m, "Upload session already completed"),
        other => panic!("{:?}", other),
    }
    match check_upload_session(None, None, true, true, UploadSurface::V1, SessionOperation::Complete) {
        Err(UploadRefusal::Conflict(m)) => assert_eq!(m, "Upload session already completed"),
        other => panic!("{:?}", other),
    }
    assert!(check_upload_session(None, None, true, false, UploadSurface::V1, SessionOperation::Complete).is_ok());
}

#[test]
fn refusals_are_answered_as_documented() {
    assert_eq!(refusal_answer(&UploadRefusal::PayloadTooLarge), (413, "file_too_large", "Per-file size limit exceeded.".to_string()));
    assert_eq!(
        refusal_answer(&UploadRefusal::StorageQuotaExceeded),
        (429, "storage_quota_exceeded", "API key storage quota exceeded.".to_string())
    );
    assert_eq!(refusal_answer(&UploadRefusal::DailyQuotaExceeded).0, 429);
    assert_eq!(refusal_answer(&UploadRefusal::Conflict("c".to_string())), (409, "conflict", "c".to_string()));
}

#[test]
fn p2p_uploads_are_not_stored_or_charged() {
    let h = upload_handling(TransferType::P2p);
    assert!(!h.stores_files && !h.charges_daily_quota);
    let h = upload_handling(TransferType::Server);
    assert!(h.stores_files && h.charges_daily_quota);
}

#[test]
fn v1_parts_are_at_least_five_mib() {
    assert_eq!(MIN_CHUNK_SIZE, 5 * 1024 * 1024);
    assert!(check_chunk_size(UploadSurface::V1, MIN_CHUNK_SIZE).is_ok());
    assert_eq!(msg(check_chunk_size(UploadSurface::V1, MIN_CHUNK_SIZE - 1)), "chunk_size must be at least 5242880 bytes");
    assert!(check_chunk_size(UploadSurface::Cli, 1).is_ok());
}
