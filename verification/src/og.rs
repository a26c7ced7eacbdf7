//! Open Graph link previews of shares: which copy and image a preview shows,
//! and the HTML page that carries the tags and redirects browsers onward.

use vstd::prelude::*;
use crate::og_i18n::{OgLocale, spec_html_lang, spec_invalid, spec_multiple_title, spec_og_locale, spec_open_link_desc, spec_p2p_title, spec_password_title, spec_single_desc};
use crate::text::{decimal_seq, ends_with_seq, push_char, push_decimal, push_str, starts_with, starts_with_seq, to_chars, string_of};

verus! {

/// Largest file (bytes) for which a preview image is made.
pub const MAX_THUMBNAIL_FILE_SIZE: i64 = 104857600;

/// The HTML escape of one character.
pub open spec fn escape_char(c: char) -> Seq<char> {
    if c == '&' {
        "&amp;"@
    } else if c == '<' {
        "&lt;"@
    } else if c == '>' {
        "&gt;"@
    } else if c == '"' {
        "&quot;"@
    } else if c == '\'' {
        "&#x27;"@
    } else {
        seq![c]
    }
}

/// `s` with `&`, `<`, `>`, `"` and `'` replaced by their entities.
pub open spec fn escape_seq(s: Seq<char>) -> Seq<char>
    decreases s.len(),
{
    if s.len() == 0 {
        Seq::empty()
    } else {
        escape_seq(s.drop_last()) + escape_char(s.last())
    }
}

/// Escapes text for an HTML attribute or element.
pub fn html_escape(s: &str) -> (r: String)
    ensures
        r@ == escape_seq(s@),
{
    let v = to_chars(s);
    let mut r = String::new();
    let mut i: usize = 0;
    while i < v.len()
        invariant
            0 <= i <= v.len(),
            v@ == s@,
            r@ == escape_seq(v@.subrange(0, i as int)),
        decreases v.len() - i,
    {
        let c = v[i];
        if c == '&' {
            push_str(&mut r, "&amp;");
        } else if c == '<' {
            push_str(&mut r, "&lt;");
        } else if c == '>' {
            push_str(&mut r, "&gt;");
        } else if c == '"' {
            push_str(&mut r, "&quot;");
        } else if c == '\'' {
            push_str(&mut r, "&#x27;");
        } else {
            push_char(&mut r, c);
            assert(r@ == escape_seq(v@.subrange(0, i as int)) + seq![c]);
        }
        proof {
            let p = v@.subrange(0, i + 1);
            assert(p.drop_last() == v@.subrange(0, i as int));
            assert(p.last() == c);
        }
        i = i + 1;
    }
    assert(v@.subrange(0, v@.len() as int) == v@);
    r
}

pub open spec fn spec_is_image_type(t: Seq<char>) -> bool {
    starts_with_seq(t, "image/"@) && t != "image/svg+xml"@
}

pub open spec fn spec_is_pdf_type(t: Seq<char>) -> bool {
    t == "application/pdf"@
}

pub open spec fn spec_is_video_type(t: Seq<char>) -> bool {
    starts_with_seq(t, "video/"@)
}

pub open spec fn spec_is_previewable(t: Seq<char>) -> bool {
    spec_is_image_type(t) || spec_is_pdf_type(t) || spec_is_video_type(t)
}

/// An image type other than SVG, which is shown as is.
pub fn is_image_type(file_type: &str) -> (r: bool)
    ensures
        r == spec_is_image_type(file_type@),
{
    let v = to_chars(file_type);
    starts_with(&v, "image/") && !crate::text::eq_str(&v, "image/svg+xml")
}

/// A PDF, previewed by its first page.
pub fn is_pdf_type(file_type: &str) -> (r: bool)
    ensures
        r == spec_is_pdf_type(file_type@),
{
    crate::text::eq_str(&to_chars(file_type), "application/pdf")
}

/// A video, previewed by its first frame.
pub fn is_video_type(file_type: &str) -> (r: bool)
    ensures
        r == spec_is_video_type(file_type@),
{
    starts_with(&to_chars(file_type), "video/")
}

/// A type that a preview image can be made of.
pub fn is_previewable(file_type: &str) -> (r: bool)
    ensures
        r == spec_is_previewable(file_type@),
{
    is_image_type(file_type) || is_pdf_type(file_type) || is_video_type(file_type)
}

/// `s` without any trailing `c` (`str::trim_end_matches` with a character).
pub open spec fn trim_end_char(s: Seq<char>, c: char) -> Seq<char>
    decreases s.len(),
{
    if s.len() > 0 && s.last() == c {
        trim_end_char(s.drop_last(), c)
    } else {
        s
    }
}

/// `v[..end]` without any trailing `c`.
fn trimmed_end(v: &Vec<char>, c: char) -> (r: usize)
    ensures
        r <= v.len(),
        v@.subrange(0, r as int) == trim_end_char(v@, c),
{
    let mut e = v.len();
    assert(v@.subrange(0, e as int) == v@);
    while e > 0 && v[e - 1] == c
        invariant
            e <= v.len(),
            trim_end_char(v@, c) == trim_end_char(v@.subrange(0, e as int), c),
        decreases e,
    {
        proof {
            let p = v@.subrange(0, e as int);
            assert(p.drop_last() == v@.subrange(0, e - 1));
        }
        e = e - 1;
    }
    proof {
        let p = v@.subrange(0, e as int);
        if e > 0 {
            assert(p.last() == v@[e - 1]);
        }
    }
    e
}

/// `s` without trailing `/`.
pub fn trim_trailing_slashes(s: &str) -> (r: String)
    ensures
        r@ == trim_end_char(s@, '/'),
{
    let v = to_chars(s);
    let e = trimmed_end(&v, '/');
    string_of(&v, 0, e)
}

/// Storage key of the cached preview image of a file.
pub open spec fn spec_thumbnail_key(prefix: Seq<char>, file_id: Seq<char>) -> Seq<char> {
    if prefix.len() == 0 {
        "og-thumb/"@ + file_id + ".jpg"@
    } else {
        trim_end_char(prefix, '/') + "og-thumb/"@ + file_id + ".jpg"@
    }
}

/// Storage key of the cached preview image of a file.
pub fn thumbnail_s3_key(prefix: &str, file_id: &str) -> (r: String)
    ensures
        r@ == spec_thumbnail_key(prefix@, file_id@),
{
    let mut r = if prefix.is_empty() {
        String::new()
    } else {
        trim_trailing_slashes(prefix)
    };
    push_str(&mut r, "og-thumb/");
    push_str(&mut r, file_id);
    push_str(&mut r, ".jpg");
    r
}


/// What the preview needs to know of one file of a share.
#[derive(Debug)]
pub struct OgShareInfo {
    pub has_password: bool,
    pub transfer_type: String,
    pub file_name: String,
    pub file_type: String,
    pub file_size: i64,
}

/// Title and description of a preview, and whether it shows the file itself.
#[derive(Debug)]
pub struct OgPreview {
    pub title: String,
    pub description: String,
    pub use_file_image: bool,
}

/// Title, description and use of the file image of the preview of a share
/// whose files are `shares` (in share order), written in `locale`;
/// `uploader` is the display name of a P2P share's uploader when known.
pub open spec fn spec_og_preview(locale: OgLocale, shares: Seq<OgShareInfo>, uploader: Option<Seq<char>>) -> (Seq<char>, Seq<char>, bool) {
    if shares.len() == 0 {
        (spec_invalid(locale).0, spec_invalid(locale).1, false)
    } else if shares[0].transfer_type@ == "p2p"@ {
        (spec_p2p_title(locale, uploader), spec_open_link_desc(locale), false)
    } else if shares[0].has_password {
        (spec_password_title(locale), spec_open_link_desc(locale), false)
    } else if shares.len() == 1 {
        (
            "ShareAnything - "@ + shares[0].file_name@,
            spec_single_desc(locale),
            spec_is_previewable(shares[0].file_type@) && shares[0].file_size <= MAX_THUMBNAIL_FILE_SIZE,
        )
    } else {
        (spec_multiple_title(locale, shares.len()), spec_open_link_desc(locale), false)
    }
}

/// The copy of the preview of a share, in the preview's language.
pub fn og_preview(locale: OgLocale, shares: &Vec<OgShareInfo>, uploader: Option<&str>) -> (r: OgPreview)
    ensures
        (r.title@, r.description@, r.use_file_image) == spec_og_preview(locale, shares@, match uploader { Some(n) => Some(n@), None => None }),
{
    if shares.len() == 0 {
        let (title, description) = locale.invalid();
        return OgPreview { title, description, use_file_image: false };
    }
    let first = &shares[0];
    if crate::text::eq_str(&to_chars(first.transfer_type.as_str()), "p2p") {
        let (title, description) = locale.p2p(uploader);
        OgPreview { title, description, use_file_image: false }
    } else if first.has_password {
        let (title, description) = locale.password();
        OgPreview { title, description, use_file_image: false }
    } else if shares.len() == 1 {
        let previewable = is_previewable(first.file_type.as_str()) && first.file_size <= MAX_THUMBNAIL_FILE_SIZE;
        let (title, description) = locale.single(first.file_name.as_str());
        OgPreview { title, description, use_file_image: previewable }
    } else {
        let (title, description) = locale.multiple(shares.len());
        OgPreview { title, description, use_file_image: false }
    }
}

/// Address of the share's download page, of the page that preview pages
/// redirect to, and of the default preview image.
pub open spec fn spec_og_urls(frontend_url: Seq<char>, code: Seq<char>) -> (Seq<char>, Seq<char>, Seq<char>) {
    let base = trim_end_char(frontend_url, '/');
    let og_url = base + "/download/"@ + code;
    (og_url, og_url + "?r=1"@, base + "/og-image.png"@)
}

/// The three addresses of a preview page.
pub fn og_urls(frontend_url: &str, code: &str) -> (r: (String, String, String))
    ensures
        (r.0@, r.1@, r.2@) == spec_og_urls(frontend_url@, code@),
{
    let base = trim_trailing_slashes(frontend_url);
    let mut og_url = base.clone();
    push_str(&mut og_url, "/download/");
    push_str(&mut og_url, code);
    let mut redirect = og_url.clone();
    push_str(&mut redirect, "?r=1");
    let mut image = base;
    push_str(&mut image, "/og-image.png");
    (og_url, redirect, image)
}

/// The preview page: Open Graph and Twitter tags with the escaped values,
/// and an immediate redirect to `redirect_url`.
pub open spec fn spec_og_page(locale: OgLocale, title: Seq<char>, description: Seq<char>, image: Seq<char>, og_url: Seq<char>, redirect_url: Seq<char>, use_file_image: bool) -> Seq<char> {
    let t = escape_seq(title);
    let d = escape_seq(description);
    let i = escape_seq(image);
    let u = escape_seq(og_url);
    let r = escape_seq(redirect_url);
    let c = if use_file_image { "summary_large_image"@ } else { "summary"@ };
    "<!DOCTYPE html>\n<html lang=\""@ + spec_html_lang(locale) + "\">\n<head>\n<meta charset=\"utf-8\"/>\n<meta name=\"viewport\" content=\"width=device-width,initial-scale=1\"/>\n<title>"@ + t + "</title>\n<meta property=\"og:type\" content=\"website\"/>\n<meta property=\"og:site_name\" content=\"ShareAnything\"/>\n<meta property=\"og:locale\" content=\""@ + spec_og_locale(locale) + "\"/>\n<meta property=\"og:title\" content=\""@ + t + "\"/>\n<meta property=\"og:description\" content=\""@ + d + "\"/>\n<meta property=\"og:image\" content=\""@ + i + "\"/>\n<meta property=\"og:url\" content=\""@ + u + "\"/>\n<meta name=\"twitter:card\" content=\""@ + c + "\"/>\n<meta name=\"twitter:title\" content=\""@ + t + "\"/>\n<meta name=\"twitter:description\" content=\""@ + d + "\"/>\n<meta name=\"twitter:image\" content=\""@ + i + "\"/>\n<meta http-equiv=\"refresh\" content=\"0;url="@ + r + "\"/>\n</head>\n<body>\n<script>window.location.replace(\""@ + r + "\");</script>\n</body>\n</html>"@
}

/// The preview page, in the preview's language.
pub fn og_page_html(locale: OgLocale, title: &str, description: &str, image: &str, og_url: &str, redirect_url: &str, use_file_image: bool) -> (r: String)
    ensures
        r@ == spec_og_page(locale, title@, description@, image@, og_url@, redirect_url@, use_file_image),
{
    let title_e = html_escape(title);
    let desc_e = html_escape(description);
    let image_e = html_escape(image);
    let url_e = html_escape(og_url);
    let redirect_e = html_escape(redirect_url);
    let card = if use_file_image { "summary_large_image" } else { "summary" };
    let mut h = String::new();
    push_str(&mut h, "<!DOCTYPE html>\n<html lang=\"");
    push_str(&mut h, locale.html_lang());
    push_str(&mut h, "\">\n<head>\n<meta charset=\"utf-8\"/>\n<meta name=\"viewport\" content=\"width=device-width,initial-scale=1\"/>\n<title>");
    push_str(&mut h, title_e.as_str());
    push_str(&mut h, "</title>\n<meta property=\"og:type\" content=\"website\"/>\n<meta property=\"og:site_name\" content=\"ShareAnything\"/>\n<meta property=\"og:locale\" content=\"");
    push_str(&mut h, locale.og_locale());
    push_str(&mut h, "\"/>\n<meta property=\"og:title\" content=\"");
    push_str(&mut h, title_e.as_str());
    push_str(&mut h, "\"/>\n<meta property=\"og:description\" content=\"");
    push_str(&mut h, desc_e.as_str());
    push_str(&mut h, "\"/>\n<meta property=\"og:image\" content=\"");
    push_str(&mut h, image_e.as_str());
    push_str(&mut h, "\"/>\n<meta property=\"og:url\" content=\"");
    push_str(&mut h, url_e.as_str());
    push_str(&mut h, "\"/>\n<meta name=\"twitter:card\" content=\"");
    push_str(&mut h, card);
    push_str(&mut h, "\"/>\n<meta name=\"twitter:title\" content=\"");
    push_str(&mut h, title_e.as_str());
    push_str(&mut h, "\"/>\n<meta name=\"twitter:description\" content=\"");
    push_str(&mut h, desc_e.as_str());
    push_str(&mut h, "\"/>\n<meta name=\"twitter:image\" content=\"");
    push_str(&mut h, image_e.as_str());
    push_str(&mut h, "\"/>\n<meta http-equiv=\"refresh\" content=\"0;url=");
    push_str(&mut h, redirect_e.as_str());
    push_str(&mut h, "\"/>\n</head>\n<body>\n<script>window.location.replace(\"");
    push_str(&mut h, redirect_e.as_str());
    push_str(&mut h, "\");</script>\n</body>\n</html>");
    h
}

/// Where the preview image of a share comes from.
#[derive(Debug, Clone, Copy, PartialEq, Eq, Structural)]
pub enum OgImagePlan {
    /// The site's default image.
    UseDefault,
    /// The file itself, through a presigned link.
    Original,
    /// A first-frame thumbnail of a video.
    VideoThumbnail,
    /// A first-page thumbnail of a PDF.
    PdfThumbnail,
}

/// The plan of `GET /og/{code}/image`: only a single, unprotected,
/// previewable file not over the size limit gets its own image.
pub open spec fn spec_og_image_plan(shares: Seq<OgShareInfo>) -> OgImagePlan {
    if shares.len() != 1 || shares[0].has_password || !spec_is_previewable(shares[0].file_type@)
        || shares[0].file_size > MAX_THUMBNAIL_FILE_SIZE {
        OgImagePlan::UseDefault
    } else {
        spec_file_image_plan(shares[0].file_type@)
    }
}

/// How the image of one file is made.
pub open spec fn spec_file_image_plan(file_type: Seq<char>) -> OgImagePlan {
    if spec_is_image_type(file_type) {
        OgImagePlan::Original
    } else if spec_is_video_type(file_type) {
        OgImagePlan::VideoThumbnail
    } else if spec_is_pdf_type(file_type) {
        OgImagePlan::PdfThumbnail
    } else {
        OgImagePlan::UseDefault
    }
}

/// How the image of one file is made.
pub fn file_image_plan(file_type: &str) -> (r: OgImagePlan)
    ensures
        r == spec_file_image_plan(file_type@),
{
    if is_image_type(file_type) {
        OgImagePlan::Original
    } else if is_video_type(file_type) {
        OgImagePlan::VideoThumbnail
    } else if is_pdf_type(file_type) {
        OgImagePlan::PdfThumbnail
    } else {
        OgImagePlan::UseDefault
    }
}

/// The plan of `GET /og/{code}/image`.
pub fn og_image_plan(shares: &Vec<OgShareInfo>) -> (r: OgImagePlan)
    ensures
        r == spec_og_image_plan(shares@),
{
    if shares.len() != 1 || shares[0].has_password || !is_previewable(shares[0].file_type.as_str())
        || shares[0].file_size > MAX_THUMBNAIL_FILE_SIZE {
        OgImagePlan::UseDefault
    } else {
        file_image_plan(shares[0].file_type.as_str())
    }
}

/// Law: a preview shows the file itself only for a single, unprotected,
/// non-P2P share of a previewable type within the size limit.
pub proof fn lemma_file_image_only_for_single_open_files(locale: OgLocale, shares: Seq<OgShareInfo>, uploader: Option<Seq<char>>)
    requires
        spec_og_preview(locale, shares, uploader).2,
    ensures
        shares.len() == 1,
        !shares[0].has_password,
        shares[0].transfer_type@ != "p2p"@,
        spec_is_previewable(shares[0].file_type@),
        shares[0].file_size <= MAX_THUMBNAIL_FILE_SIZE,
        spec_og_image_plan(shares) != OgImagePlan::UseDefault,
{
}

/// Law: escaped text holds no raw markup character, so a title or address
/// cannot break out of the attribute it is written into.
pub proof fn lemma_escaped_has_no_markup(s: Seq<char>)
    ensures
        forall|k: int| 0 <= k < escape_seq(s).len() ==> {
            let c = #[trigger] escape_seq(s)[k];
            c != '<' && c != '>' && c != '"' && c != '\''
        },
    decreases s.len(),
{
    reveal_strlit("&amp;");
    reveal_strlit("&lt;");
    reveal_strlit("&gt;");
    reveal_strlit("&quot;");
    reveal_strlit("&#x27;");
    if s.len() > 0 {
        lemma_escaped_has_no_markup(s.drop_last());
        let a = escape_seq(s.drop_last());
        let b = escape_char(s.last());
        assert forall|k: int| 0 <= k < (a + b).len() implies {
            let c = #[trigger] (a + b)[k];
            c != '<' && c != '>' && c != '"' && c != '\''
        } by {
            if k < a.len() {
                assert((a + b)[k] == a[k]);
            } else {
                assert((a + b)[k] == b[k - a.len()]);
            }
        }
    }
}

/// The text an escaped text stands for: each entity that `html_escape`
/// writes read back as its character.
pub open spec fn unescape_seq(t: Seq<char>) -> Seq<char>
    decreases t.len(),
{
    if t.len() == 0 {
        Seq::empty()
    } else if starts_with_seq(t, "&amp;"@) && t.len() >= 5 {
        seq!['&'] + unescape_seq(t.skip(5))
    } else if starts_with_seq(t, "&lt;"@) && t.len() >= 4 {
        seq!['<'] + unescape_seq(t.skip(4))
    } else if starts_with_seq(t, "&gt;"@) && t.len() >= 4 {
        seq!['>'] + unescape_seq(t.skip(4))
    } else if starts_with_seq(t, "&quot;"@) && t.len() >= 6 {
        seq!['"'] + unescape_seq(t.skip(6))
    } else if starts_with_seq(t, "&#x27;"@) && t.len() >= 6 {
        seq!['\''] + unescape_seq(t.skip(6))
    } else {
        seq![t[0]] + unescape_seq(t.skip(1))
    }
}

proof fn lemma_escape_concat(a: Seq<char>, b: Seq<char>)
    ensures
        escape_seq(a + b) == escape_seq(a) + escape_seq(b),
    decreases b.len(),
{
    if b.len() == 0 {
        assert(a + b =~= a);
        assert(escape_seq(a) + escape_seq(b) =~= escape_seq(a));
    } else {
        lemma_escape_concat(a, b.drop_last());
        assert((a + b).drop_last() =~= a + b.drop_last());
        assert((a + b).last() == b.last());
        assert(escape_seq(a) + escape_seq(b) =~= escape_seq(a) + escape_seq(b.drop_last()) + escape_char(b.last()));
    }
}

/// Law: escaping loses nothing: reading an escaped text back gives the
/// text that was escaped.
pub proof fn lemma_unescape_inverts_escape(s: Seq<char>)
    ensures
        unescape_seq(escape_seq(s)) == s,
    decreases s.len(),
{
    reveal_strlit("&amp;");
    reveal_strlit("&lt;");
    reveal_strlit("&gt;");
    reveal_strlit("&quot;");
    reveal_strlit("&#x27;");
    if s.len() > 0 {
        let c = s[0];
        let rest = s.skip(1);
        assert(s =~= seq![c] + rest);
        lemma_escape_concat(seq![c], rest);
        assert(seq![c].drop_last() =~= Seq::<char>::empty());
        assert(seq![c].last() == c);
        assert(escape_seq(Seq::<char>::empty()) == Seq::<char>::empty());
        assert(escape_seq(seq![c]) == escape_seq(seq![c].drop_last()) + escape_char(c));
        assert(Seq::<char>::empty() + escape_char(c) =~= escape_char(c));
        assert(escape_seq(seq![c]) =~= escape_char(c));
        let e = escape_char(c);
        let t = e + escape_seq(rest);
        assert(escape_seq(s) == t);
        lemma_unescape_inverts_escape(rest);
        assert(t.skip(e.len() as int) =~= escape_seq(rest));
        if c == '&' {
            assert(e == "&amp;"@);
            assert(t.subrange(0, 5) =~= "&amp;"@);
            assert(unescape_seq(t) == seq!['&'] + unescape_seq(t.skip(5)));
        } else if c == '<' {
            assert(e == "&lt;"@);
            assert(t[1] == 'l' && t[1] != "&amp;"@[1]);
            assert(t.subrange(0, 4) =~= "&lt;"@);
            assert(!starts_with_seq(t, "&amp;"@));
            assert(unescape_seq(t) == seq!['<'] + unescape_seq(t.skip(4)));
        } else if c == '>' {
            assert(e == "&gt;"@);
            assert(t[1] == 'g' && t[1] != "&amp;"@[1] && t[1] != "&lt;"@[1]);
            assert(t.subrange(0, 4) =~= "&gt;"@);
            assert(!starts_with_seq(t, "&amp;"@) && !starts_with_seq(t, "&lt;"@));
            assert(unescape_seq(t) == seq!['>'] + unescape_seq(t.skip(4)));
        } else if c == '"' {
            assert(e == "&quot;"@);
            assert(t[1] == 'q' && t[1] != "&amp;"@[1] && t[1] != "&lt;"@[1] && t[1] != "&gt;"@[1]);
            assert(t.subrange(0, 6) =~= "&quot;"@);
            assert(!starts_with_seq(t, "&amp;"@) && !starts_with_seq(t, "&lt;"@) && !starts_with_seq(t, "&gt;"@));
            assert(unescape_seq(t) == seq!['"'] + unescape_seq(t.skip(6)));
        } else if c == '\'' {
            assert(e == "&#x27;"@);
            assert(t[1] == '#' && t[1] != "&amp;"@[1] && t[1] != "&lt;"@[1] && t[1] != "&gt;"@[1] && t[1] != "&quot;"@[1]);
            assert(t.subrange(0, 6) =~= "&#x27;"@);
            assert(!starts_with_seq(t, "&amp;"@) && !starts_with_seq(t, "&lt;"@) && !starts_with_seq(t, "&gt;"@)
                && !starts_with_seq(t, "&quot;"@));
            assert(unescape_seq(t) == seq!['\''] + unescape_seq(t.skip(6)));
        } else {
            assert(e == seq![c]);
            assert(t[0] == c && c != '&');
            assert(t.subrange(0, 1)[0] == c);
            assert(!starts_with_seq(t, "&amp;"@) && !starts_with_seq(t, "&lt;"@) && !starts_with_seq(t, "&gt;"@)
                && !starts_with_seq(t, "&quot;"@) && !starts_with_seq(t, "&#x27;"@)) by {
                if t.len() >= 4 {
                    assert(t.subrange(0, 4)[0] == c);
                }
                if t.len() >= 5 {
                    assert(t.subrange(0, 5)[0] == c);
                }
                if t.len() >= 6 {
                    assert(t.subrange(0, 6)[0] == c);
                }
            }
            assert(unescape_seq(t) == seq![c] + unescape_seq(t.skip(1)));
        }
    }
}

/// Law: different texts escape to different texts, so an escaped preview
/// field names exactly one value.
pub proof fn lemma_escape_is_injective(a: Seq<char>, b: Seq<char>)
    requires
        escape_seq(a) == escape_seq(b),
    ensures
        a == b,
{
    lemma_unescape_inverts_escape(a);
    lemma_unescape_inverts_escape(b);
}

} // verus!
