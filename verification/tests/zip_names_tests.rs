use share_anything::zip_names::{sanitize_zip_entry_name, UsedNames};

#[test]
fn strips_directory_traversal() {
    let mut used = UsedNames::new();
    assert_eq!(
        sanitize_zip_entry_name("../../etc/passwd", "abc", &mut used),
        "passwd"
    );
}

#[test]
fn strips_absolute_unix_path() {
    let mut used = UsedNames::new();
    assert_eq!(
        sanitize_zip_entry_name("/etc/shadow", "abc", &mut used),
        "shadow"
    );
}

#[test]
fn strips_windows_drive_path() {
    let mut used = UsedNames::new();
    assert_eq!(
        sanitize_zip_entry_name(r"C:\Windows\notepad.exe", "abc", &mut used),
        "notepad.exe"
    );
}

#[test]
fn fallback_for_dot_names() {
    let mut used = UsedNames::new();
    assert_eq!(sanitize_zip_entry_name("..", "abc", &mut used), "file_abc");
    assert_eq!(sanitize_zip_entry_name(".", "def", &mut used), "file_def");
    assert_eq!(sanitize_zip_entry_name("", "ghi", &mut used), "file_ghi");
}

#[test]
fn dedupes_collisions() {
    let mut used = UsedNames::new();
    assert_eq!(sanitize_zip_entry_name("photo.png", "a", &mut used), "photo.png");
    assert_eq!(sanitize_zip_entry_name("photo.png", "b", &mut used), "photo (1).png");
    assert_eq!(sanitize_zip_entry_name("photo.png", "c", &mut used), "photo (2).png");
}

#[test]
fn keeps_unicode_basename() {
    let mut used = UsedNames::new();
    assert_eq!(sanitize_zip_entry_name("안녕.txt", "abc", &mut used), "안녕.txt");
}

#[test]
fn dotfile_without_extension_is_numbered_whole() {
    let mut used = UsedNames::new();
    assert_eq!(sanitize_zip_entry_name(".env", "a", &mut used), ".env");
    assert_eq!(sanitize_zip_entry_name(".env", "b", &mut used), ".env (1)");
}

#[test]
fn trims_white_space_around_the_base_name() {
    let mut used = UsedNames::new();
    assert_eq!(sanitize_zip_entry_name("dir/  report.pdf \t", "a", &mut used), "report.pdf");
    assert!(used.contains(&"report.pdf".to_string()));
}

#[test]
fn name_without_dot_gets_number_at_end() {
    let mut used = UsedNames::new();
    assert_eq!(sanitize_zip_entry_name("README", "a", &mut used), "README");
    assert_eq!(sanitize_zip_entry_name("x/README", "b", &mut used), "README (1)");
}
