use std::io::{Cursor, Read};

use share_anything::api_error::AppError;
use share_anything::bulk_zip::{build_bulk_zip, build_share_zip, zip_download};
use share_anything::download::{
    consume_served_file, cli_authorize_download, url_issue_plan, v1_download, v1_download_plan, FileShare, V1Download,
};

fn f(id: &str, name: &str, one_time: bool) -> FileShare {
    FileShare {
        id: id.to_string(),
        file_name: name.to_string(),
        file_size: 1,
        file_type: "text/plain".to_string(),
        storage_key: format!("k/{}", id),
        transfer_type: "server".to_string(),
        password_hash: None,
        is_one_time: one_time,
        user_id: None,
        device_id: None,
    }
}

fn entries(bytes: Vec<u8>) -> Vec<(String, Vec<u8>)> {
    let mut archive = zip::ZipArchive::new(Cursor::new(bytes)).unwrap();
    let mut out = Vec::new();
    for i in 0..archive.len() {
        let mut file = archive.by_index(i).unwrap();
        let mut data = Vec::new();
        file.read_to_end(&mut data).unwrap();
        out.push((file.name().to_string(), data));
    }
    out
}

#[test]
fn bulk_zip_holds_each_selected_file_under_its_entry_name() {
    let files = vec![f("a", "report.txt", false), f("b", "dir/report.txt", false), f("c", "..", false)];
    let selected = vec![0, 1, 2];
    let contents = vec![b"one".to_vec(), b"two".to_vec(), Vec::new()];
    let bytes = build_bulk_zip(&files, &selected, &contents).unwrap();
    let got = entries(bytes);
    assert_eq!(
        got,
        vec![
            ("report.txt".to_string(), b"one".to_vec()),
            ("report (1).txt".to_string(), b"two".to_vec()),
            ("file_c".to_string(), Vec::new()),
        ]
    );
}

#[test]
fn bulk_zip_of_a_subset_keeps_the_selection_order() {
    let files = vec![f("a", "a.txt", false), f("b", "b.txt", false), f("c", "c.txt", false)];
    let got = entries(build_bulk_zip(&files, &vec![2, 0], &vec![b"C".to_vec(), b"A".to_vec()]).unwrap());
    assert_eq!(got, vec![("c.txt".to_string(), b"C".to_vec()), ("a.txt".to_string(), b"A".to_vec())]);
}

#[test]
fn v1_whole_share_has_no_file_count_limit() {
    let files: Vec<FileShare> = (0..60).map(|i| f(&format!("id{}", i), &format!("f{}.txt", i), false)).collect();
    match v1_download_plan(&files, None, None, None).unwrap() {
        V1Download::WholeShare(sel) => assert_eq!(sel, (0..60).collect::<Vec<usize>>()),
        other => panic!("{:?}", other),
    }
}

#[test]
fn one_time_url_is_issued_once() {
    let plan = url_issue_plan(true);
    assert!(plan.delete_row_now);
    assert_eq!(plan.delete_object_after_secs, Some(3660));
    let kept = url_issue_plan(false);
    assert!(!kept.delete_row_now);
    assert_eq!(kept.delete_object_after_secs, None);

    let mut rows = vec![f("a", "a.txt", true)];
    let i = cli_authorize_download(&rows, None, None, None, "pw").unwrap();
    consume_served_file(&mut rows, i);
    match cli_authorize_download(&rows, None, None, None, "pw") {
        Err(AppError::NotFound(m)) => assert_eq!(m, "File not found or expired"),
        other => panic!("{:?}", other),
    }

    let mut rows = vec![f("a", "a.txt", false), f("b", "b.txt", true)];
    let i = cli_authorize_download(&rows, Some("b"), None, None, "pw").unwrap();
    consume_served_file(&mut rows, i);
    match cli_authorize_download(&rows, Some("b"), None, None, "pw") {
        Err(AppError::NotFound(m)) => assert_eq!(m, "File not found"),
        other => panic!("{:?}", other),
    }
    assert_eq!(cli_authorize_download(&rows, Some("a"), None, None, "pw").unwrap(), 0);
}

#[test]
fn zip_answer_is_named_after_the_share() {
    let a = zip_download("ABC123", vec![1, 2, 3]);
    assert_eq!(a.content_type, "application/zip");
    assert_eq!(a.content_disposition, "attachment; filename=\"share-ABC123.zip\"");
    assert_eq!(a.body, vec![1, 2, 3]);
}

#[test]
fn a_whole_share_archive_is_stored_and_a_bulk_one_deflated() {
    let files = vec![f("a", "a.txt", false), f("b", "b.txt", false)];
    let contents = vec![b"aaaaaaaaaaaaaaaa".to_vec(), b"bbbb".to_vec()];
    let stored = build_share_zip(&files, &vec![0, 1], &contents).unwrap();
    let mut archive = zip::ZipArchive::new(Cursor::new(stored.clone())).unwrap();
    for i in 0..2 {
        assert_eq!(archive.by_index(i).unwrap().compression(), zip::CompressionMethod::Stored);
    }
    assert_eq!(entries(stored), vec![("a.txt".to_string(), contents[0].clone()), ("b.txt".to_string(), contents[1].clone())]);
    let deflated = build_bulk_zip(&files, &vec![0, 1], &contents).unwrap();
    let mut archive = zip::ZipArchive::new(Cursor::new(deflated)).unwrap();
    assert_eq!(archive.by_index(0).unwrap().compression(), zip::CompressionMethod::Deflated);
    assert_eq!(archive.by_index(0).unwrap().unix_mode().map(|m| m & 0o777), Some(0o755));
}

#[test]
fn v1_download_of_an_expired_share_is_gone() {
    match v1_download(&Vec::new(), true, None, None, None) {
        Err(AppError::Gone(m)) => assert_eq!(m, "Share has expired"),
        other => panic!("{:?}", other),
    }
    match v1_download(&Vec::new(), false, None, None, None) {
        Err(AppError::NotFound(m)) => assert_eq!(m, "File not found or expired"),
        other => panic!("{:?}", other),
    }
    assert!(matches!(v1_download(&vec![f("a", "a.txt", false)], true, None, None, None).unwrap(), V1Download::OneFile(0)));
}
