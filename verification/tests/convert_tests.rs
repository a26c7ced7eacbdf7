use share_anything::convert::{convert_key, convert_status, upload_form, ConvertTask};

fn task(name: &str, form_url: Option<&str>, params: bool, file: Option<&str>) -> ConvertTask {
    ConvertTask {
        name: Some(name.to_string()),
        form_url: form_url.map(|u| u.to_string()),
        has_form_parameters: params,
        first_file_url: file.map(|u| u.to_string()),
    }
}

#[test]
fn empty_or_missing_key_is_not_configured() {
    assert_eq!(convert_key(&None), None);
    assert_eq!(convert_key(&Some(String::new())), None);
    assert_eq!(convert_key(&Some("key".to_string())), Some("key".to_string()));
}

#[test]
fn upload_form_comes_from_the_first_upload_task() {
    let tasks = vec![
        task("convert", None, false, None),
        task("upload", Some("https://upload.example/form"), true, None),
        task("upload", Some("https://other.example"), true, None),
    ];
    let form = upload_form(Some("job-1"), &Some(tasks)).unwrap();
    assert_eq!(form.job_id, "job-1");
    assert_eq!(form.task, 1);
    assert_eq!(form.url, "https://upload.example/form");
}

#[test]
fn upload_form_needs_url_and_parameters() {
    let no_params = vec![task("upload", Some("https://u.example"), false, None)];
    assert!(upload_form(Some("j"), &Some(no_params)).is_none());
    let no_url = vec![task("upload", None, true, None)];
    assert!(upload_form(Some("j"), &Some(no_url)).is_none());
    assert!(upload_form(Some("j"), &None).is_none());
    let unnamed = vec![ConvertTask { name: None, form_url: Some("u".to_string()), has_form_parameters: true, first_file_url: None }];
    assert!(upload_form(Some("j"), &Some(unnamed)).is_none());
    let form = upload_form(None, &Some(vec![task("upload", Some("u"), true, None)])).unwrap();
    assert_eq!(form.job_id, "");
}

#[test]
fn finished_job_reports_the_pdf() {
    let tasks = vec![task("convert", None, false, Some("x")), task("export", None, false, Some("https://f.example/a.pdf"))];
    assert_eq!(
        convert_status(Some("finished"), &Some(tasks)),
        ("finished".to_string(), Some("https://f.example/a.pdf".to_string()))
    );
    assert_eq!(convert_status(Some("finished"), &None), ("finished".to_string(), Some(String::new())));
    let no_file = vec![task("export", None, false, None)];
    assert_eq!(convert_status(Some("finished"), &Some(no_file)), ("finished".to_string(), Some(String::new())));
}

#[test]
fn unfinished_job_reports_its_status() {
    assert_eq!(convert_status(Some("processing"), &None), ("processing".to_string(), None));
    assert_eq!(convert_status(None, &None), ("unknown".to_string(), None));
}
