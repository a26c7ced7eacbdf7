use share_anything::og::{
    file_image_plan, html_escape, is_image_type, is_pdf_type, is_previewable, is_video_type, og_image_plan,
    og_page_html, og_preview, og_urls, thumbnail_s3_key, trim_trailing_slashes, OgImagePlan, OgShareInfo,
};
use share_anything::og_i18n::OgLocale;

fn file(name: &str, file_type: &str, size: i64, has_password: bool, transfer: &str) -> OgShareInfo {
    OgShareInfo {
        has_password,
        transfer_type: transfer.to_string(),
        file_name: name.to_string(),
        file_type: file_type.to_string(),
        file_size: size,
    }
}

#[test]
fn escapes_markup_characters() {
    assert_eq!(html_escape("<a href=\"x\">Tom & 'Jerry'</a>"), "&lt;a href=&quot;x&quot;&gt;Tom &amp; &#x27;Jerry&#x27;&lt;/a&gt;");
    assert_eq!(html_escape("plain"), "plain");
}

#[test]
fn file_types_that_get_a_preview() {
    assert!(is_image_type("image/png"));
    assert!(!is_image_type("image/svg+xml"));
    assert!(is_pdf_type("application/pdf"));
    assert!(is_video_type("video/mp4"));
    assert!(is_previewable("video/webm"));
    assert!(!is_previewable("text/plain"));
}

#[test]
fn thumbnail_keys_sit_under_the_prefix() {
    assert_eq!(thumbnail_s3_key("", "f1"), "og-thumb/f1.jpg");
    assert_eq!(thumbnail_s3_key("shares//", "f1"), "sharesog-thumb/f1.jpg");
    assert_eq!(trim_trailing_slashes("https://a.b/"), "https://a.b");
}

#[test]
fn preview_of_a_single_image() {
    let shares = vec![file("cat.png", "image/png", 1024, false, "server")];
    let p = og_preview(OgLocale::Ko, &shares, None);
    assert_eq!(p.title, "ShareAnything - cat.png");
    assert_eq!(p.description, "파일이 공유되었어요. 링크를 열어 다운로드하세요.");
    assert!(p.use_file_image);
    assert!(og_image_plan(&shares) == OgImagePlan::Original);
}

#[test]
fn preview_of_protected_and_p2p_and_several_files() {
    let protected = vec![file("a.pdf", "application/pdf", 10, true, "server")];
    let p = og_preview(OgLocale::Ko, &protected, None);
    assert_eq!(p.title, "비밀번호가 걸린 파일이 공유되었어요.");
    assert!(!p.use_file_image);
    assert!(og_image_plan(&protected) == OgImagePlan::UseDefault);

    let p2p = vec![file("a.bin", "application/octet-stream", 10, false, "p2p")];
    assert_eq!(og_preview(OgLocale::Ko, &p2p, Some("민수")).title, "민수님이 파일을 공유했어요.");
    assert_eq!(og_preview(OgLocale::Ko, &p2p, None).title, "익명의 사용자가 파일을 공유했어요.");
    assert_eq!(og_preview(OgLocale::En, &p2p, Some("Ann")).title, "Ann shared a file with you.");

    let several = vec![file("a.png", "image/png", 1, false, "server"), file("b.png", "image/png", 1, false, "server")];
    let p = og_preview(OgLocale::Ko, &several, None);
    assert_eq!(p.title, "2개의 파일이 공유되었어요.");
    assert!(og_image_plan(&several) == OgImagePlan::UseDefault);

    let none: Vec<OgShareInfo> = Vec::new();
    assert_eq!(og_preview(OgLocale::Ko, &none, None).title, "유효하지 않은 파일이에요.");
    // With neither a stored locale nor Accept-Language, the preview is in English.
    let fallback = OgLocale::resolve(None, None);
    assert_eq!(og_preview(fallback, &none, None).title, "This file is no longer available.");
    let html = og_page_html(fallback, "t", "d", "i", "u", "r", false);
    assert!(html.contains("<html lang=\"en\">"));
    assert!(html.contains("<meta property=\"og:locale\" content=\"en_US\"/>"));
}

#[test]
fn large_files_get_the_default_image() {
    let big = vec![file("movie.mp4", "video/mp4", 104_857_601, false, "server")];
    assert!(og_image_plan(&big) == OgImagePlan::UseDefault);
    let ok = vec![file("movie.mp4", "video/mp4", 104_857_600, false, "server")];
    assert!(og_image_plan(&ok) == OgImagePlan::VideoThumbnail);
    assert!(file_image_plan("application/pdf") == OgImagePlan::PdfThumbnail);
    assert!(file_image_plan("text/plain") == OgImagePlan::UseDefault);
}

#[test]
fn preview_page_addresses() {
    let (og_url, redirect, image) = og_urls("https://share.example/", "123456");
    assert_eq!(og_url, "https://share.example/download/123456");
    assert_eq!(redirect, "https://share.example/download/123456?r=1");
    assert_eq!(image, "https://share.example/og-image.png");
}

#[test]
fn preview_page_escapes_and_redirects() {
    let html = og_page_html(OgLocale::Ko, "A<b>", "d", "i", "u", "r&x", false);
    assert!(html.contains("<title>A&lt;b&gt;</title>"));
    assert!(html.contains("<meta name=\"twitter:card\" content=\"summary\"/>"));
    assert!(html.contains("content=\"0;url=r&amp;x\""));
    let large = og_page_html(OgLocale::Ja, "t", "d", "i", "u", "r", true);
    assert!(large.contains("content=\"summary_large_image\""));
}

#[test]
fn locales_from_tags_and_headers() {
    assert!(OgLocale::from_tag(" KO_kr ") == Some(OgLocale::Ko));
    assert!(OgLocale::from_tag("zh-Hant") == Some(OgLocale::ZhTw));
    assert!(OgLocale::from_tag("de") == None);
    assert!(OgLocale::from_accept_language("de-DE,ja;q=0.8") == Some(OgLocale::Ja));
    assert!(OgLocale::from_accept_language("zh-HK") == Some(OgLocale::ZhTw));
    assert!(OgLocale::from_accept_language("fr") == None);
    assert!(OgLocale::resolve(Some("ja"), Some("ko")) == OgLocale::Ja);
    assert!(OgLocale::resolve(None, Some("ko-KR,ko;q=0.9")) == OgLocale::Ko);
    assert!(OgLocale::resolve(Some("xx"), None) == OgLocale::En);
}

#[test]
fn localized_copy() {
    assert_eq!(OgLocale::En.og_locale(), "en_US");
    assert_eq!(OgLocale::ZhCn.html_lang(), "zh-Hans");
    assert_eq!(OgLocale::En.multiple(3).0, "3 files were shared with you.");
    assert_eq!(OgLocale::ZhTw.multiple(2).0, "有人分享了 2 個檔案。");
    assert_eq!(OgLocale::En.p2p(Some("Ann")).0, "Ann shared a file with you.");
    assert_eq!(OgLocale::Ko.p2p(None).0, "익명의 사용자가 파일을 공유했어요.");
    assert_eq!(OgLocale::Ja.single("a.txt").0, "ShareAnything - a.txt");
    assert_eq!(OgLocale::En.invalid().0, "This file is no longer available.");
    assert_eq!(OgLocale::En.password().1, "ShareAnything - Open the link to download.");
    assert_eq!(OgLocale::En.open_link_desc(), "ShareAnything - Open the link to download.");
}

#[test]
fn first_recognised_language_wins() {
    assert!(OgLocale::from_accept_language("ja,ko;q=0.9") == Some(OgLocale::Ja));
    assert!(OgLocale::from_accept_language("ja;q=0.1,ko") == Some(OgLocale::Ja));
    assert!(OgLocale::from_accept_language("fr,zh-TW,en") == Some(OgLocale::ZhTw));
}
