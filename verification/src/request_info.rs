//! What the handlers read from request headers and bodies: the client
//! address, the preferred language of e-mails, the platform of the CLI, and
//! whether a sign-in address looks like an e-mail address.

use vstd::prelude::*;
use vstd::utf8::encode_utf8;
use crate::share_password::opt_str;
use crate::text::{
    before_first, before_first_char, contains_str, find_char, first_index, slice_of, starts_with,
    starts_with_seq, string_from, to_chars, trim, trim_seq, contains_seq,
};

verus! {

/// The client address of a sign-in request: the first entry of
/// `X-Forwarded-For`, else `X-Real-IP`, each trimmed, else `unknown`.
pub open spec fn spec_client_ip(forwarded_for: Option<Seq<char>>, real_ip: Option<Seq<char>>) -> Seq<char> {
    match forwarded_for {
        Some(f) => trim_seq(before_first(f, ',')),
        None => match real_ip {
            Some(r) => trim_seq(r),
            None => "unknown"@,
        },
    }
}

/// The client address of a sign-in request, from the values of its
/// `X-Forwarded-For` and `X-Real-IP` headers (those that are valid text).
pub fn extract_client_ip(forwarded_for: Option<&str>, real_ip: Option<&str>) -> (r: String)
    ensures
        r@ == spec_client_ip(opt_str(forwarded_for), opt_str(real_ip)),
{
    match forwarded_for {
        Some(f) => string_from(&trim(&before_first_char(&to_chars(f), ','))),
        None => match real_ip {
            Some(x) => string_from(&trim(&to_chars(x))),
            None => {
                proof { reveal_strlit("unknown"); }
                "unknown".to_string()
            },
        },
    }
}

/// The language of a language tag, among those e-mails are written in;
/// Korean by default.
pub open spec fn language_of(tag: Seq<char>) -> Seq<char> {
    if starts_with_seq(tag, "en"@) {
        "en"@
    } else if starts_with_seq(tag, "ja"@) {
        "ja"@
    } else if starts_with_seq(tag, "zh-TW"@) || starts_with_seq(tag, "zh-Hant"@) {
        "zh-TW"@
    } else if starts_with_seq(tag, "zh"@) {
        "zh-CN"@
    } else {
        "ko"@
    }
}

/// The language of the first entry of `Accept-Language` (its weight cut
/// off); Korean without the header.
pub open spec fn spec_accept_language(header: Option<Seq<char>>) -> Seq<char> {
    match header {
        None => "ko"@,
        Some(v) => language_of(trim_seq(before_first(before_first(v, ','), ';'))),
    }
}

/// The language e-mails to this client are written in.
pub fn extract_accept_language(header: Option<&str>) -> (r: String)
    ensures
        r@ == spec_accept_language(opt_str(header)),
{
    let tag: Vec<char> = match header {
        None => {
            proof { reveal_strlit("ko"); }
            return "ko".to_string();
        },
        Some(v) => trim(&before_first_char(&before_first_char(&to_chars(v), ','), ';')),
    };
    let lang: &str = if starts_with(&tag, "en") {
        "en"
    } else if starts_with(&tag, "ja") {
        "ja"
    } else if starts_with(&tag, "zh-TW") || starts_with(&tag, "zh-Hant") {
        "zh-TW"
    } else if starts_with(&tag, "zh") {
        "zh-CN"
    } else {
        "ko"
    };
    proof {
        reveal_strlit("en");
        reveal_strlit("ja");
        reveal_strlit("zh-TW");
        reveal_strlit("zh-CN");
        reveal_strlit("ko");
    }
    lang.to_string()
}

/// The platform of the CLI, from a `User-Agent` such as
/// `share-cli/1.2 (macOS arm64)`: the trimmed text between the first `(`
/// and the first `)`, if it is not empty.
pub open spec fn spec_cli_platform(ua: Seq<char>) -> Option<Seq<char>> {
    if !starts_with_seq(ua, "share-cli/"@) {
        None
    } else {
        match (first_index(ua, '('), first_index(ua, ')')) {
            (Some(s), Some(e)) => if s >= e {
                None
            } else {
                let info = trim_seq(ua.subrange(s + 1, e));
                if info.len() == 0 { None } else { Some(info) }
            },
            _ => None,
        }
    }
}

/// The platform a CLI request reports in its `User-Agent`.
pub fn extract_cli_platform(user_agent: &str) -> (r: Option<String>)
    ensures
        match r {
            Some(p) => spec_cli_platform(user_agent@) == Some(p@),
            None => spec_cli_platform(user_agent@) is None,
        },
{
    let v = to_chars(user_agent);
    if !starts_with(&v, "share-cli/") {
        return None;
    }
    let start = match find_char(&v, '(') {
        Some(i) => i,
        None => { return None; },
    };
    let end = match find_char(&v, ')') {
        Some(i) => i,
        None => { return None; },
    };
    if start >= end {
        return None;
    }
    let info = trim(&slice_of(&v, start + 1, end));
    if info.len() == 0 {
        None
    } else {
        Some(string_from(&info))
    }
}

/// Whether a sign-in address looks like an e-mail address: exactly one
/// `@`, something before it, and after it a domain with a dot that is more
/// than two bytes long.
pub open spec fn spec_is_valid_email(email: Seq<char>) -> bool {
    match first_index(email, '@') {
        None => false,
        Some(at) => {
            let local = email.subrange(0, at);
            let domain = email.subrange(at + 1, email.len() as int);
            &&& first_index(domain, '@') is None
            &&& local.len() > 0
            &&& contains_seq(domain, "."@)
            &&& encode_utf8(domain).len() > 2
        },
    }
}

/// Whether a sign-in address looks like an e-mail address.
pub fn is_valid_email(email: &str) -> (r: bool)
    ensures
        r == spec_is_valid_email(email@),
{
    let v = to_chars(email);
    let at = match find_char(&v, '@') {
        None => { return false; },
        Some(i) => i,
    };
    let domain = slice_of(&v, at + 1, v.len());
    if find_char(&domain, '@').is_some() {
        return false;
    }
    if at == 0 {
        return false;
    }
    if !contains_str(&domain, ".") {
        return false;
    }
    let d = string_from(&domain);
    d.as_str().as_bytes().len() > 2
}

} // verus!
