//! Localized Open Graph copy for shared-file link previews.
//!
//! A link preview is fetched by the sharing platform's crawler, not by the
//! person who ends up seeing it, so the viewer's language cannot be detected.
//! The preview is rendered in the uploader's UI language, persisted on the
//! share at upload time; when that is unknown, a best-effort guess is made from
//! the request's `Accept-Language`, and finally English is used.

use vstd::prelude::*;
use crate::text::{before_first, before_first_char, contains_seq, contains_str, decimal_seq, eq_str, index_from, lower_seq, next_index_from, push_decimal, push_str, slice_of, starts_with, starts_with_seq, to_chars, to_lower, trim, trim_seq};

verus! {

/// Preview languages; English is the fallback for anything not translated.
#[derive(Debug, Clone, Copy, PartialEq, Eq, Structural)]
pub enum OgLocale {
    Ko,
    En,
    Ja,
    ZhCn,
    ZhTw,
}

/// `_` replaced by `-`.
pub open spec fn dash_for_underscore(s: Seq<char>) -> Seq<char> {
    Seq::new(s.len(), |i: int| if s[i] == '_' { '-' } else { s[i] })
}

/// A stored tag as compared: trimmed, ASCII-lowercased, `_` made `-`.
pub open spec fn normalize_tag(s: Seq<char>) -> Seq<char> {
    dash_for_underscore(lower_seq(trim_seq(s)))
}

/// The locale a stored tag such as `"ko"` or `"zh-TW"` names.
pub open spec fn spec_from_tag(s: Seq<char>) -> Option<OgLocale> {
    let t = normalize_tag(s);
    if t == "ko"@ || t == "ko-kr"@ {
        Some(OgLocale::Ko)
    } else if t == "en"@ || t == "en-us"@ || t == "en-gb"@ {
        Some(OgLocale::En)
    } else if t == "ja"@ || t == "ja-jp"@ {
        Some(OgLocale::Ja)
    } else if t == "zh-cn"@ || t == "zh-hans"@ || t == "zh-hans-cn"@ || t == "zh-sg"@ || t == "zh"@ {
        Some(OgLocale::ZhCn)
    } else if t == "zh-tw"@ || t == "zh-hant"@ || t == "zh-hant-tw"@ || t == "zh-hk"@ || t == "zh-mo"@ {
        Some(OgLocale::ZhTw)
    } else {
        None
    }
}

/// The language tag of one `Accept-Language` item: before any `;`, trimmed
/// and ASCII-lowercased.
pub open spec fn item_tag(part: Seq<char>) -> Seq<char> {
    lower_seq(trim_seq(before_first(part, ';')))
}

/// The locale one `Accept-Language` item points to, if any.
pub open spec fn spec_item_locale(part: Seq<char>) -> Option<OgLocale> {
    let tag = item_tag(part);
    if tag.len() == 0 {
        None
    } else if spec_from_tag(tag) is Some {
        spec_from_tag(tag)
    } else if starts_with_seq(tag, "ko"@) {
        Some(OgLocale::Ko)
    } else if starts_with_seq(tag, "ja"@) {
        Some(OgLocale::Ja)
    } else if starts_with_seq(tag, "en"@) {
        Some(OgLocale::En)
    } else if starts_with_seq(tag, "zh"@) {
        if contains_seq(tag, "hant"@) || contains_seq(tag, "tw"@) || contains_seq(tag, "hk"@) || contains_seq(tag, "mo"@) {
            Some(OgLocale::ZhTw)
        } else {
            Some(OgLocale::ZhCn)
        }
    } else {
        None
    }
}

/// The first locale that the comma-separated items of `h`, from index
/// `start` on, point to.
pub open spec fn spec_pick_from(h: Seq<char>, start: int) -> Option<OgLocale>
    decreases h.len() - start,
{
    if start < 0 || start > h.len() {
        None
    } else {
        let end = next_index_from(h, ',', start);
        match spec_item_locale(h.subrange(start, end)) {
            Some(l) => Some(l),
            None => if start <= end < h.len() {
                spec_pick_from(h, end + 1)
            } else {
                None
            },
        }
    }
}

/// Best-effort language pick from an `Accept-Language` header value.
pub open spec fn spec_from_accept_language(h: Seq<char>) -> Option<OgLocale> {
    spec_pick_from(h, 0)
}

/// The preview language: the stored locale if known, else the guess from
/// `Accept-Language`, else English.
pub open spec fn spec_resolve(stored: Option<Seq<char>>, accept: Option<Seq<char>>) -> OgLocale {
    let from_stored = match stored {
        Some(s) => spec_from_tag(s),
        None => None,
    };
    let from_header = match accept {
        Some(h) => spec_from_accept_language(h),
        None => None,
    };
    match from_stored {
        Some(l) => l,
        None => match from_header {
            Some(l) => l,
            None => OgLocale::En,
        },
    }
}

pub open spec fn spec_og_locale(l: OgLocale) -> Seq<char> {
    match l {
        OgLocale::Ko => "ko_KR"@,
        OgLocale::En => "en_US"@,
        OgLocale::Ja => "ja_JP"@,
        OgLocale::ZhCn => "zh_CN"@,
        OgLocale::ZhTw => "zh_TW"@,
    }
}

pub open spec fn spec_html_lang(l: OgLocale) -> Seq<char> {
    match l {
        OgLocale::Ko => "ko"@,
        OgLocale::En => "en"@,
        OgLocale::Ja => "ja"@,
        OgLocale::ZhCn => "zh-Hans"@,
        OgLocale::ZhTw => "zh-Hant"@,
    }
}

pub open spec fn spec_open_link_desc(l: OgLocale) -> Seq<char> {
    match l {
        OgLocale::Ko => "ShareAnything - 링크를 열어 다운로드하세요."@,
        OgLocale::En => "ShareAnything - Open the link to download."@,
        OgLocale::Ja => "ShareAnything - リンクを開いてダウンロードしてください。"@,
        OgLocale::ZhCn => "ShareAnything - 打开链接即可下载。"@,
        OgLocale::ZhTw => "ShareAnything - 開啟連結即可下載。"@,
    }
}

pub open spec fn spec_invalid(l: OgLocale) -> (Seq<char>, Seq<char>) {
    match l {
        OgLocale::Ko => ("유효하지 않은 파일이에요."@, "ShareAnything - 간편하고 안전하게 파일을 공유해보세요."@),
        OgLocale::En => ("This file is no longer available."@, "ShareAnything - Share files simply and securely."@),
        OgLocale::Ja => ("無効なファイルです。"@, "ShareAnything - かんたん・安全にファイルを共有しましょう。"@),
        OgLocale::ZhCn => ("文件无效或已失效。"@, "ShareAnything - 简单又安全地分享文件。"@),
        OgLocale::ZhTw => ("檔案無效或已失效。"@, "ShareAnything - 簡單又安全地分享檔案。"@),
    }
}

pub open spec fn spec_p2p_title(l: OgLocale, uploader: Option<Seq<char>>) -> Seq<char> {
    match uploader {
        Some(name) => match l {
            OgLocale::Ko => name + "님이 파일을 공유했어요."@,
            OgLocale::En => name + " shared a file with you."@,
            OgLocale::Ja => name + "さんがファイルを共有しました。"@,
            OgLocale::ZhCn => name + " 分享了一个文件。"@,
            OgLocale::ZhTw => name + " 分享了一個檔案。"@,
        },
        None => match l {
            OgLocale::Ko => "익명의 사용자가 파일을 공유했어요."@,
            OgLocale::En => "Someone shared a file with you."@,
            OgLocale::Ja => "匿名のユーザーがファイルを共有しました。"@,
            OgLocale::ZhCn => "有人分享了一个文件。"@,
            OgLocale::ZhTw => "有人分享了一個檔案。"@,
        },
    }
}

pub open spec fn spec_password_title(l: OgLocale) -> Seq<char> {
    match l {
        OgLocale::Ko => "비밀번호가 걸린 파일이 공유되었어요."@,
        OgLocale::En => "A password-protected file was shared with you."@,
        OgLocale::Ja => "パスワード付きのファイルが共有されました。"@,
        OgLocale::ZhCn => "有人分享了一个受密码保护的文件。"@,
        OgLocale::ZhTw => "有人分享了一個受密碼保護的檔案。"@,
    }
}

pub open spec fn spec_single_desc(l: OgLocale) -> Seq<char> {
    match l {
        OgLocale::Ko => "파일이 공유되었어요. 링크를 열어 다운로드하세요."@,
        OgLocale::En => "A file was shared with you. Open the link to download."@,
        OgLocale::Ja => "ファイルが共有されました。リンクを開いてダウンロードしてください。"@,
        OgLocale::ZhCn => "有人与你分享了文件。打开链接即可下载。"@,
        OgLocale::ZhTw => "有人與你分享了檔案。開啟連結即可下載。"@,
    }
}

pub open spec fn spec_multiple_title(l: OgLocale, count: nat) -> Seq<char> {
    match l {
        OgLocale::Ko => decimal_seq(count) + "개의 파일이 공유되었어요."@,
        OgLocale::En => decimal_seq(count) + " files were shared with you."@,
        OgLocale::Ja => decimal_seq(count) + "個のファイルが共有されました。"@,
        OgLocale::ZhCn => "有人分享了 "@ + decimal_seq(count) + " 个文件。"@,
        OgLocale::ZhTw => "有人分享了 "@ + decimal_seq(count) + " 個檔案。"@,
    }
}

/// `s` with every `_` replaced by `-`.
fn replace_underscores(v: &Vec<char>) -> (r: Vec<char>)
    ensures
        r@ == dash_for_underscore(v@),
{
    let mut r: Vec<char> = Vec::new();
    let mut i: usize = 0;
    while i < v.len()
        invariant
            0 <= i <= v.len(),
            r@.len() == i,
            forall|j: int| 0 <= j < i ==> r@[j] == (if v@[j] == '_' { '-' } else { v@[j] }),
        decreases v.len() - i,
    {
        let c = v[i];
        r.push(if c == '_' { '-' } else { c });
        i = i + 1;
    }
    assert(r@ == dash_for_underscore(v@));
    r
}

/// The locale a tag, given as characters, names.
fn tag_locale(v: &Vec<char>) -> (r: Option<OgLocale>)
    ensures
        r == spec_from_tag(v@),
{
    let t = replace_underscores(&to_lower(&trim(v)));
    if eq_str(&t, "ko") || eq_str(&t, "ko-kr") {
        Some(OgLocale::Ko)
    } else if eq_str(&t, "en") || eq_str(&t, "en-us") || eq_str(&t, "en-gb") {
        Some(OgLocale::En)
    } else if eq_str(&t, "ja") || eq_str(&t, "ja-jp") {
        Some(OgLocale::Ja)
    } else if eq_str(&t, "zh-cn") || eq_str(&t, "zh-hans") || eq_str(&t, "zh-hans-cn") || eq_str(&t, "zh-sg")
        || eq_str(&t, "zh") {
        Some(OgLocale::ZhCn)
    } else if eq_str(&t, "zh-tw") || eq_str(&t, "zh-hant") || eq_str(&t, "zh-hant-tw") || eq_str(&t, "zh-hk")
        || eq_str(&t, "zh-mo") {
        Some(OgLocale::ZhTw)
    } else {
        None
    }
}

/// The locale one `Accept-Language` item points to, if any.
fn item_locale(part: &Vec<char>) -> (r: Option<OgLocale>)
    ensures
        r == spec_item_locale(part@),
{
    let tag = to_lower(&trim(&before_first_char(part, ';')));
    if tag.len() == 0 {
        return None;
    }
    match tag_locale(&tag) {
        Some(l) => return Some(l),
        None => {},
    }
    if starts_with(&tag, "ko") {
        Some(OgLocale::Ko)
    } else if starts_with(&tag, "ja") {
        Some(OgLocale::Ja)
    } else if starts_with(&tag, "en") {
        Some(OgLocale::En)
    } else if starts_with(&tag, "zh") {
        if contains_str(&tag, "hant") || contains_str(&tag, "tw") || contains_str(&tag, "hk") || contains_str(&tag, "mo") {
            Some(OgLocale::ZhTw)
        } else {
            Some(OgLocale::ZhCn)
        }
    } else {
        None
    }
}

impl OgLocale {
    /// Resolve the preview language: the uploader's stored locale if known,
    /// otherwise a best-effort guess from `Accept-Language`, finally English.
    pub fn resolve(stored: Option<&str>, accept_language: Option<&str>) -> (r: Self)
        ensures
            r == spec_resolve(
                match stored { Some(s) => Some(s@), None => None },
                match accept_language { Some(h) => Some(h@), None => None },
            ),
    {
        let from_stored = match stored {
            Some(s) => Self::from_tag(s),
            None => None,
        };
        match from_stored {
            Some(l) => l,
            None => {
                let from_header = match accept_language {
                    Some(h) => Self::from_accept_language(h),
                    None => None,
                };
                match from_header {
                    Some(l) => l,
                    None => OgLocale::En,
                }
            },
        }
    }

    /// Parse a stored locale tag such as `"ko"` or `"zh-TW"`.
    pub fn from_tag(tag: &str) -> (r: Option<Self>)
        ensures
            r == spec_from_tag(tag@),
    {
        tag_locale(&to_chars(tag))
    }

    /// Best-effort language pick from an `Accept-Language` header value: the
    /// first comma-separated item whose tag is recognized.
    pub fn from_accept_language(header: &str) -> (r: Option<Self>)
        ensures
            r == spec_from_accept_language(header@),
    {
        let v = to_chars(header);
        let n = v.len();
        let mut start: usize = 0;
        loop
            invariant
                v@ == header@,
                n == v.len(),
                start <= n,
                spec_pick_from(v@, 0) == spec_pick_from(v@, start as int),
            decreases n - start,
        {
            let end = index_from(&v, ',', start);
            let part = slice_of(&v, start, end);
            match item_locale(&part) {
                Some(l) => return Some(l),
                None => {},
            }
            if end < n {
                start = end + 1;
            } else {
                return None;
            }
        }
    }

    /// `og:locale` value, e.g. `"ko_KR"`.
    pub fn og_locale(self) -> (r: &'static str)
        ensures
            r@ == spec_og_locale(self),
    {
        match self {
            OgLocale::Ko => "ko_KR",
            OgLocale::En => "en_US",
            OgLocale::Ja => "ja_JP",
            OgLocale::ZhCn => "zh_CN",
            OgLocale::ZhTw => "zh_TW",
        }
    }

    /// `<html lang>` attribute value (BCP-47).
    pub fn html_lang(self) -> (r: &'static str)
        ensures
            r@ == spec_html_lang(self),
    {
        match self {
            OgLocale::Ko => "ko",
            OgLocale::En => "en",
            OgLocale::Ja => "ja",
            OgLocale::ZhCn => "zh-Hans",
            OgLocale::ZhTw => "zh-Hant",
        }
    }

    /// Shared "open the link to download" description, used by the P2P,
    /// password-protected, and multi-file previews.
    pub fn open_link_desc(self) -> (r: &'static str)
        ensures
            r@ == spec_open_link_desc(self),
    {
        match self {
            OgLocale::Ko => "ShareAnything - 링크를 열어 다운로드하세요.",
            OgLocale::En => "ShareAnything - Open the link to download.",
            OgLocale::Ja => "ShareAnything - リンクを開いてダウンロードしてください。",
            OgLocale::ZhCn => "ShareAnything - 打开链接即可下载。",
            OgLocale::ZhTw => "ShareAnything - 開啟連結即可下載。",
        }
    }

    /// Title + description for an invalid / expired / missing share.
    pub fn invalid(self) -> (r: (String, String))
        ensures
            (r.0@, r.1@) == spec_invalid(self),
    {
        let (title, desc) = match self {
            OgLocale::Ko => ("유효하지 않은 파일이에요.", "ShareAnything - 간편하고 안전하게 파일을 공유해보세요."),
            OgLocale::En => ("This file is no longer available.", "ShareAnything - Share files simply and securely."),
            OgLocale::Ja => ("無効なファイルです。", "ShareAnything - かんたん・安全にファイルを共有しましょう。"),
            OgLocale::ZhCn => ("文件无效或已失效。", "ShareAnything - 简单又安全地分享文件。"),
            OgLocale::ZhTw => ("檔案無效或已失效。", "ShareAnything - 簡單又安全地分享檔案。"),
        };
        (title.to_string(), desc.to_string())
    }

    /// Title + description for a P2P share; `uploader` is the display name
    /// when known, otherwise an anonymous phrasing is used.
    pub fn p2p(self, uploader: Option<&str>) -> (r: (String, String))
        ensures
            r.0@ == spec_p2p_title(self, match uploader { Some(n) => Some(n@), None => None }),
            r.1@ == spec_open_link_desc(self),
    {
        let title = match uploader {
            Some(name) => {
                let mut t = name.to_string();
                let tail = match self {
                    OgLocale::Ko => "님이 파일을 공유했어요.",
                    OgLocale::En => " shared a file with you.",
                    OgLocale::Ja => "さんがファイルを共有しました。",
                    OgLocale::ZhCn => " 分享了一个文件。",
                    OgLocale::ZhTw => " 分享了一個檔案。",
                };
                push_str(&mut t, tail);
                t
            },
            None => {
                let t = match self {
                    OgLocale::Ko => "익명의 사용자가 파일을 공유했어요.",
                    OgLocale::En => "Someone shared a file with you.",
                    OgLocale::Ja => "匿名のユーザーがファイルを共有しました。",
                    OgLocale::ZhCn => "有人分享了一个文件。",
                    OgLocale::ZhTw => "有人分享了一個檔案。",
                };
                t.to_string()
            },
        };
        (title, self.open_link_desc().to_string())
    }

    /// Title + description for a password-protected share.
    pub fn password(self) -> (r: (String, String))
        ensures
            r.0@ == spec_password_title(self),
            r.1@ == spec_open_link_desc(self),
    {
        let title = match self {
            OgLocale::Ko => "비밀번호가 걸린 파일이 공유되었어요.",
            OgLocale::En => "A password-protected file was shared with you.",
            OgLocale::Ja => "パスワード付きのファイルが共有されました。",
            OgLocale::ZhCn => "有人分享了一个受密码保护的文件。",
            OgLocale::ZhTw => "有人分享了一個受密碼保護的檔案。",
        };
        (title.to_string(), self.open_link_desc().to_string())
    }

    /// Title + description for a single shared file: the title carries the
    /// file name, the description is localized.
    pub fn single(self, file_name: &str) -> (r: (String, String))
        ensures
            r.0@ == "ShareAnything - "@ + file_name@,
            r.1@ == spec_single_desc(self),
    {
        let desc = match self {
            OgLocale::Ko => "파일이 공유되었어요. 링크를 열어 다운로드하세요.",
            OgLocale::En => "A file was shared with you. Open the link to download.",
            OgLocale::Ja => "ファイルが共有されました。リンクを開いてダウンロードしてください。",
            OgLocale::ZhCn => "有人与你分享了文件。打开链接即可下载。",
            OgLocale::ZhTw => "有人與你分享了檔案。開啟連結即可下載。",
        };
        let mut title = "ShareAnything - ".to_string();
        push_str(&mut title, file_name);
        (title, desc.to_string())
    }

    /// Title + description for a multi-file share.
    pub fn multiple(self, count: usize) -> (r: (String, String))
        ensures
            r.0@ == spec_multiple_title(self, count as nat),
            r.1@ == spec_open_link_desc(self),
    {
        let mut title = String::new();
        match self {
            OgLocale::Ko => {
                push_decimal(&mut title, count as u64);
                push_str(&mut title, "개의 파일이 공유되었어요.");
            },
            OgLocale::En => {
                push_decimal(&mut title, count as u64);
                push_str(&mut title, " files were shared with you.");
            },
            OgLocale::Ja => {
                push_decimal(&mut title, count as u64);
                push_str(&mut title, "個のファイルが共有されました。");
            },
            OgLocale::ZhCn => {
                push_str(&mut title, "有人分享了 ");
                push_decimal(&mut title, count as u64);
                push_str(&mut title, " 个文件。");
            },
            OgLocale::ZhTw => {
                push_str(&mut title, "有人分享了 ");
                push_decimal(&mut title, count as u64);
                push_str(&mut title, " 個檔案。");
            },
        }
        (title, self.open_link_desc().to_string())
    }
}

proof fn lemma_comma_after(s: Seq<char>, n: int, i: int)
    requires
        0 <= i <= n < s.len(),
        s[n] == ',',
        forall|k: int| 0 <= k < n ==> s[k] != ',',
    ensures
        next_index_from(s, ',', i) == n,
    decreases n - i,
{
    if i < n {
        lemma_comma_after(s, n, i + 1);
    }
}

proof fn lemma_no_comma(s: Seq<char>, i: int)
    requires
        0 <= i <= s.len(),
        forall|k: int| 0 <= k < s.len() ==> s[k] != ',',
    ensures
        next_index_from(s, ',', i) == s.len(),
    decreases s.len() - i,
{
    if i < s.len() {
        lemma_no_comma(s, i + 1);
    }
}

/// Law: the first recognised item of `Accept-Language` decides the
/// language, whatever items follow it.
pub proof fn lemma_first_recognised_item_wins(a: Seq<char>, b: Seq<char>)
    requires
        forall|k: int| 0 <= k < a.len() ==> a[k] != ',',
        spec_from_accept_language(a) is Some,
    ensures
        spec_from_accept_language(a + seq![','] + b) == spec_from_accept_language(a),
{
    let h = a + seq![','] + b;
    lemma_no_comma(a, 0);
    assert(a.subrange(0, a.len() as int) =~= a);
    assert(h[a.len() as int] == ',');
    assert forall|k: int| 0 <= k < a.len() implies h[k] != ',' by {
        assert(h[k] == a[k]);
    }
    lemma_comma_after(h, a.len() as int, 0);
    assert(h.subrange(0, a.len() as int) =~= a);
}

} // verus!
