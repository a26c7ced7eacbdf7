use share_anything::api_error::AppError;
use share_anything::download::{
    authorize_revoke, authorize_single_download, bulk_content_disposition, check_bulk_limits, check_share_owner,
    cli_authorize_download, cli_history_page, find_file_by_id, find_requested_file, is_true_param, plan_bulk_download,
    require_download_params, select_bulk_files, share_summary, v1_download_plan, verify_share_password, zip_entry_names,
    FileShare, V1Download,
};
use share_anything::share_password::hash_share_password;

fn f(id: &str, name: &str, size: i64, transfer: &str, hash: Option<String>) -> FileShare {
    FileShare {
        id: id.to_string(),
        file_name: name.to_string(),
        file_size: size,
        file_type: "application/octet-stream".to_string(),
        storage_key: format!("k/{}", id),
        transfer_type: transfer.to_string(),
        password_hash: hash,
        is_one_time: false,
        user_id: Some("u1".to_string()),
        device_id: Some("d1".to_string()),
    }
}

fn msg(e: AppError) -> (String, String) {
    match e {
        AppError::BadRequest(m) => ("bad_request".into(), m),
        AppError::Unauthorized(m) => ("unauthorized".into(), m),
        AppError::Forbidden(m) => ("forbidden".into(), m),
        AppError::NotFound(m) => ("not_found".into(), m),
        AppError::Internal(m) => ("internal".into(), m),
        AppError::Http(s, m) => (format!("http {}", s), m),
        other => (format!("{:?}", other), String::new()),
    }
}

#[test]
fn single_download_finds_the_named_file() {
    let files = vec![f("a", "a.txt", 1, "server", None), f("b", "b.txt", 2, "server", None)];
    assert_eq!(find_requested_file(&files, "b", false).unwrap(), 1);
    assert_eq!(msg(find_requested_file(&files, "z", false).unwrap_err()), ("not_found".into(), "File not found".into()));
    let none: Vec<FileShare> = Vec::new();
    assert_eq!(msg(find_requested_file(&none, "a", false).unwrap_err()), ("not_found".into(), "File not found or expired".into()));
    assert_eq!(find_file_by_id(&files, "a"), Some(0));
    assert_eq!(find_file_by_id(&files, "q"), None);
}

#[test]
fn p2p_files_are_not_served_over_http_but_can_be_previewed() {
    let files = vec![f("a", "a.txt", 1, "p2p", None)];
    assert_eq!(
        msg(find_requested_file(&files, "a", false).unwrap_err()),
        ("forbidden".into(), "This file is configured for P2P transfer. Use WebRTC connection.".into())
    );
    assert_eq!(find_requested_file(&files, "a", true).unwrap(), 0);
}

#[test]
fn protected_single_download_checks_the_password_header() {
    let hash = hash_share_password(Some("pw")).unwrap();
    let files = vec![f("a", "a.txt", 1, "server", hash)];
    assert_eq!(
        msg(authorize_single_download(&files, "a", false, None).unwrap_err()),
        ("unauthorized".into(), "Password required. Set the X-File-Password header.".into())
    );
    assert_eq!(msg(authorize_single_download(&files, "a", false, Some("no")).unwrap_err()), ("unauthorized".into(), "Incorrect password".into()));
    assert_eq!(authorize_single_download(&files, "a", false, Some("pw")).unwrap(), 0);
}

#[test]
fn unreadable_hash_is_an_internal_error() {
    let files = vec![f("a", "a.txt", 1, "server", Some("not-a-hash".to_string()))];
    assert_eq!(msg(authorize_single_download(&files, "a", false, Some("pw")).unwrap_err()), ("internal".into(), "Password verification failed".into()));
}

#[test]
fn download_parameters_are_required() {
    assert_eq!(msg(require_download_params(None, Some("x")).unwrap_err()), ("bad_request".into(), "code parameter is required".into()));
    assert_eq!(msg(require_download_params(Some("c"), None).unwrap_err()), ("bad_request".into(), "file_id parameter is required".into()));
    assert!(require_download_params(Some("c"), Some("x")).is_ok());
    assert!(is_true_param(Some("true")));
    assert!(!is_true_param(Some("True")));
    assert!(!is_true_param(None));
}

#[test]
fn bulk_selection_keeps_the_share_order() {
    let files = vec![f("a", "a", 1, "server", None), f("b", "b", 1, "server", None), f("c", "c", 1, "server", None)];
    let ids = vec!["c".to_string(), "a".to_string(), "x".to_string()];
    assert_eq!(select_bulk_files(&ids, &files).unwrap(), vec![0, 2]);
    let empty: Vec<String> = Vec::new();
    assert_eq!(msg(select_bulk_files(&empty, &files).unwrap_err()), ("bad_request".into(), "At least one file ID is required".into()));
    let none: Vec<FileShare> = Vec::new();
    assert_eq!(msg(select_bulk_files(&ids, &none).unwrap_err()), ("not_found".into(), "File not found or expired".into()));
    let other = vec!["x".to_string()];
    assert_eq!(msg(select_bulk_files(&other, &files).unwrap_err()), ("not_found".into(), "Requested files not found".into()));
}

#[test]
fn bulk_downloads_are_limited_to_fifty_files_and_150_mib() {
    let many: Vec<FileShare> = (0..51).map(|i| f(&format!("f{}", i), "x", 1, "server", None)).collect();
    let all: Vec<usize> = (0..51).collect();
    assert_eq!(
        msg(check_bulk_limits(&many, &all).unwrap_err()),
        ("bad_request".into(), "Too many files requested. Download at most 50 files at a time.".into())
    );
    let fifty: Vec<usize> = (0..50).collect();
    assert!(check_bulk_limits(&many, &fifty).is_ok());
    let big = vec![f("a", "a", 100 * 1024 * 1024, "server", None), f("b", "b", 50 * 1024 * 1024 + 1, "server", None)];
    assert_eq!(
        msg(check_bulk_limits(&big, &vec![0, 1]).unwrap_err()),
        ("http 413".into(), "Selected files are too large to download together. Please download them individually.".into())
    );
    let exact = vec![f("a", "a", 100 * 1024 * 1024, "server", None), f("b", "b", 50 * 1024 * 1024, "server", None)];
    assert!(check_bulk_limits(&exact, &vec![0, 1]).is_ok());
}

#[test]
fn bulk_password_is_the_first_selected_files() {
    let hash = hash_share_password(Some("pw")).unwrap();
    let files = vec![f("a", "a", 1, "server", hash.clone()), f("b", "b", 1, "server", hash)];
    let ids = vec!["a".to_string(), "b".to_string()];
    assert_eq!(msg(plan_bulk_download(&ids, &files, None).unwrap_err()), ("unauthorized".into(), "Password required".into()));
    assert_eq!(msg(plan_bulk_download(&ids, &files, Some("x")).unwrap_err()), ("unauthorized".into(), "Incorrect password".into()));
    assert_eq!(plan_bulk_download(&ids, &files, Some("pw")).unwrap(), vec![0, 1]);
}

#[test]
fn zip_entries_are_safe_and_distinct() {
    let files = vec![
        f("a", "../../etc/passwd", 1, "server", None),
        f("b", "photo.png", 1, "server", None),
        f("c", "dir/photo.png", 1, "server", None),
        f("d", "..", 1, "server", None),
    ];
    let names = zip_entry_names(&files, &vec![0, 1, 2, 3]);
    assert_eq!(names, vec!["passwd".to_string(), "photo.png".to_string(), "photo (1).png".to_string(), "file_d".to_string()]);
    assert_eq!(bulk_content_disposition("123456"), "attachment; filename=\"share-123456.zip\"");
}

#[test]
fn file_list_summary() {
    let files = vec![f("a", "a", 1, "p2p", None), f("b", "b", 1, "p2p", Some("h".to_string()))];
    let s = share_summary(&files, true).unwrap();
    assert_eq!(s.total_count, 2);
    assert!(s.has_password);
    assert_eq!(s.transfer_type, "p2p");
    assert_eq!(s.uploader_online, Some(true));
    let server = vec![f("a", "a", 1, "server", None)];
    assert_eq!(share_summary(&server, true).unwrap().uploader_online, None);
    let none: Vec<FileShare> = Vec::new();
    assert!(share_summary(&none, false).is_err());
}

#[test]
fn share_password_check_uses_the_first_stored_hash() {
    let hash = hash_share_password(Some("pw")).unwrap();
    let files = vec![f("a", "a", 1, "server", None), f("b", "b", 1, "server", hash)];
    assert!(verify_share_password(&files, "pw").is_ok());
    assert_eq!(msg(verify_share_password(&files, "no").unwrap_err()), ("unauthorized".into(), "Incorrect password".into()));
    let open = vec![f("a", "a", 1, "server", None)];
    assert!(verify_share_password(&open, "anything").is_ok());
}

#[test]
fn only_the_owner_or_the_uploading_device_revokes() {
    let files = vec![f("a", "a", 1, "server", None)];
    assert!(authorize_revoke(&files, Some("u1"), None).is_ok());
    assert!(authorize_revoke(&files, None, Some("d1")).is_ok());
    assert_eq!(msg(authorize_revoke(&files, Some("u2"), Some("d2")).unwrap_err()), ("forbidden".into(), "Not allowed to revoke this share".into()));
    assert_eq!(msg(authorize_revoke(&files, None, None).unwrap_err()).0, "forbidden");
    let none: Vec<FileShare> = Vec::new();
    assert_eq!(msg(authorize_revoke(&none, Some("u1"), None).unwrap_err()), ("not_found".into(), "Share not found".into()));
}

#[test]
fn cli_download_takes_the_first_file_and_the_query_password() {
    let hash = hash_share_password(Some("pw")).unwrap();
    let files = vec![f("a", "a", 1, "server", hash), f("b", "b", 1, "server", None)];
    let missing = "Password required. Use ?password=<pw> or X-File-Password header";
    assert_eq!(msg(cli_authorize_download(&files, None, None, None, missing).unwrap_err()), ("unauthorized".into(), missing.to_string()));
    assert_eq!(cli_authorize_download(&files, None, Some("pw"), Some("bad"), missing).unwrap(), 0);
    assert_eq!(cli_authorize_download(&files, None, None, Some("pw"), missing).unwrap(), 0);
    assert_eq!(cli_authorize_download(&files, Some("b"), None, None, missing).unwrap(), 1);
    let p2p = vec![f("a", "a", 1, "p2p", None)];
    assert_eq!(msg(cli_authorize_download(&p2p, None, None, None, missing).unwrap_err()), ("bad_request".into(), "P2P files cannot be downloaded via CLI".into()));
    let broken = vec![f("a", "a", 1, "server", Some("bad".to_string()))];
    assert_eq!(msg(cli_authorize_download(&broken, None, Some("pw"), None, missing).unwrap_err()), ("internal".into(), "Failed to verify password".into()));
}

#[test]
fn token_holders_touch_only_their_own_shares() {
    let mut files = vec![f("a", "a", 1, "server", None), f("b", "b", 1, "server", None)];
    assert!(check_share_owner(Some("u1"), &files).is_ok());
    assert_eq!(
        msg(check_share_owner(None, &files).unwrap_err()),
        ("unauthorized".into(), "Personal token required. Set the 'X-Personal-Token' header.".into())
    );
    files[1].user_id = Some("u2".to_string());
    assert_eq!(msg(check_share_owner(Some("u1"), &files).unwrap_err()), ("forbidden".into(), "You do not have permission to access this share".into()));
    let none: Vec<FileShare> = Vec::new();
    assert_eq!(msg(check_share_owner(Some("u1"), &none).unwrap_err()), ("not_found".into(), "Share code not found".into()));
}

#[test]
fn cli_history_pages() {
    assert_eq!(cli_history_page(None, None), (20, 0));
    assert_eq!(cli_history_page(Some(500), Some(40)), (100, 40));
    assert_eq!(cli_history_page(Some(5), None), (5, 0));
}

#[test]
fn v1_download_without_a_file_id_takes_the_whole_share() {
    let files = vec![f("a", "a.txt", 1, "server", None), f("b", "b.txt", 2, "server", None), f("c", "c.txt", 3, "server", None)];
    match v1_download_plan(&files, None, None, None).unwrap() {
        V1Download::WholeShare(sel) => assert_eq!(sel, vec![0, 1, 2]),
        other => panic!("{:?}", other),
    }
    let one = vec![f("a", "a.txt", 1, "server", None)];
    assert!(matches!(v1_download_plan(&one, None, None, None).unwrap(), V1Download::OneFile(0)));
    assert!(matches!(v1_download_plan(&files, Some("b"), None, None).unwrap(), V1Download::OneFile(1)));
    assert_eq!(msg(v1_download_plan(&files, Some("z"), None, None).unwrap_err()), ("not_found".into(), "File not found".into()));
    let none: Vec<FileShare> = Vec::new();
    assert_eq!(msg(v1_download_plan(&none, None, None, None).unwrap_err()).0, "not_found");
}

#[test]
fn v1_download_with_a_wrong_or_missing_password_is_forbidden() {
    let hash = hash_share_password(Some("secret")).unwrap();
    let files = vec![f("a", "a.txt", 1, "server", hash.clone()), f("b", "b.txt", 2, "server", hash)];
    assert_eq!(msg(v1_download_plan(&files, Some("a"), Some("wrong"), None).unwrap_err()), ("forbidden".into(), "Incorrect password".into()));
    assert_eq!(msg(v1_download_plan(&files, None, Some("wrong"), None).unwrap_err()), ("forbidden".into(), "Incorrect password".into()));
    assert_eq!(msg(v1_download_plan(&files, None, None, None).unwrap_err()).0, "forbidden");
    assert!(matches!(v1_download_plan(&files, Some("b"), None, Some("secret")).unwrap(), V1Download::OneFile(1)));
    match v1_download_plan(&files, None, Some("secret"), None).unwrap() {
        V1Download::WholeShare(sel) => assert_eq!(sel, vec![0, 1]),
        other => panic!("{:?}", other),
    }
}
