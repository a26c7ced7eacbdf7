use share_anything::account::v1_uploads_page;
use share_anything::api_error::AppError;
use share_anything::turn::{turn_credentials_answer, turn_request_body, CloudflareIceServer, StringOrVec};
use share_anything::upload_policy::TransferType;
use share_anything::upload_response::{share_download_link, upload_response, NewFileRow};

fn row(id: &str, name: &str, size: i64) -> NewFileRow {
    NewFileRow {
        id: id.into(),
        file_name: name.into(),
        file_size: size,
        file_type: "text/plain".into(),
        description: Some("notes".into()),
        relative_path: None,
        expires_at: 1_700_000_300,
        created_at: 1_700_000_000,
    }
}

#[test]
fn p2p_upload_answer_lists_every_file_of_the_share() {
    let rows = vec![row("f1", "a.txt", 3), row("f2", "b.txt", 5)];
    let r = upload_response("ABC123", "https://x.dev", Some("data:image/png;base64,AA"), TransferType::P2p, false, true, &rows);
    assert_eq!(r.share_code, "ABC123");
    assert_eq!(r.total_count, 2);
    assert_eq!(r.files.len(), 2);
    for (e, (id, name)) in r.files.iter().zip([("f1", "a.txt"), ("f2", "b.txt")]) {
        assert_eq!(e.id, id);
        assert_eq!(e.file_name, name);
        assert_eq!(e.share_code, "ABC123");
        assert_eq!(e.transfer_type, "p2p");
        assert!(e.is_one_time);
        assert!(!e.has_password);
        assert_eq!(e.download_url, "https://x.dev/download?code=ABC123");
        assert_eq!(e.description.as_deref(), Some("notes"));
        assert_eq!(e.relative_path, None);
        assert_eq!((e.expires_at, e.created_at), (1_700_000_300, 1_700_000_000));
        assert_eq!(e.qr_code.as_deref(), Some("data:image/png;base64,AA"));
        assert_eq!(e.uploader_online, None);
    }
    assert_eq!(r.files[1].file_size, 5);
}

#[test]
fn storage_upload_answer_keeps_its_options() {
    let r = upload_response("Z9", "http://h", None, TransferType::Server, true, false, &vec![row("f", "c.bin", 9)]);
    assert_eq!(r.files[0].qr_code, None);
    assert_eq!(r.files[0].transfer_type, "server");
    assert!(r.files[0].has_password);
    assert!(!r.files[0].is_one_time);
    assert_eq!(share_download_link("http://h", "Z9"), "http://h/download?code=Z9");
}

#[test]
fn turn_request_asks_for_one_day() {
    assert_eq!(turn_request_body(), "{\"ttl\":86400}");
}

#[test]
fn turn_answer_refuses_a_failed_status_and_lists_servers_otherwise() {
    match turn_credentials_answer(502, "502 Bad Gateway", None) {
        Err(AppError::Internal(m)) => assert_eq!(m, "Cloudflare TURN API error: 502 Bad Gateway"),
        other => panic!("{:?}", other),
    }
    match turn_credentials_answer(200, "200 OK", None) {
        Err(AppError::Internal(m)) => assert_eq!(m, "Failed to read Cloudflare TURN response"),
        other => panic!("{:?}", other),
    }
    let cf = vec![CloudflareIceServer {
        urls: StringOrVec::Single("turn:turn.cloudflare.com:3478".into()),
        username: Some("u".into()),
        credential: Some("c".into()),
    }];
    let list = turn_credentials_answer(201, "201 Created", Some(cf)).unwrap();
    assert_eq!(list.len(), 2);
    assert_eq!(list[0].urls, vec!["stun:stun.cloudflare.com:3478".to_string()]);
    assert_eq!(list[1].urls, vec!["turn:turn.cloudflare.com:3478".to_string()]);
    assert_eq!(list[1].username.as_deref(), Some("u"));
}

#[test]
fn uploads_listing_is_newest_first_with_defaults() {
    let created = vec![10, 30, 20];
    let p = v1_uploads_page(&created, None, None).unwrap();
    assert_eq!(p.items, vec![1, 2, 0]);
    assert_eq!((p.total, p.limit, p.offset), (3, 20, 0));
    let p = v1_uploads_page(&created, Some(1), Some(1)).unwrap();
    assert_eq!(p.items, vec![2]);
    assert_eq!(p.total, 3);
    let p = v1_uploads_page(&created, Some(500), Some(5)).unwrap();
    assert!(p.items.is_empty());
    assert_eq!(p.limit, 100);
    match v1_uploads_page(&created, Some(-1), None) {
        Err(AppError::Internal(m)) => assert_eq!(m, "Failed to fetch upload history"),
        other => panic!("{:?}", other),
    }
}
