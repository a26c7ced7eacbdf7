//! API keys for third-party services: what an application for a key must
//! hold, who may see it, when an administrator may still decide on it, and
//! how a key is issued.

use vstd::prelude::*;
use vstd::utf8::encode_utf8;
use crate::api_error::{AppError, AppErrorView, err_view};
use crate::credentials::{generate_api_key, hash_token, is_generated_token, spec_token_hash};
use crate::download::opt_view;
use crate::scope::Scope;
use crate::text::{before_first, before_first_char, push_str, starts_with, starts_with_seq, string_from, string_of, to_chars, trim, trim_seq};

verus! {

/// Query of the administrators' list of applications.
#[derive(Debug)]
pub struct AdminListQuery {
    pub status: Option<String>,
}

/// Byte length of a text in UTF-8.
pub open spec fn byte_len(s: Seq<char>) -> int {
    encode_utf8(s).len() as int
}

/// What an application for an API key must hold: a service name of 1 to
/// 255 bytes, an `http(s)://` URL of at most 512 bytes, and a purpose of at
/// least 30 bytes, checked in that order.
pub open spec fn spec_validate_application(service_name: Seq<char>, service_url: Seq<char>, purpose: Seq<char>) -> Option<AppErrorView> {
    if byte_len(service_name) == 0 || byte_len(service_name) > 255 {
        Some(AppErrorView::BadRequest("서비스 이름은 1~255자 이내여야 합니다"@))
    } else if !starts_with_seq(service_url, "http://"@) && !starts_with_seq(service_url, "https://"@) {
        Some(AppErrorView::BadRequest("서비스 URL은 http:// 또는 https://로 시작해야 합니다"@))
    } else if byte_len(service_url) > 512 {
        Some(AppErrorView::BadRequest("서비스 URL은 512자 이내여야 합니다"@))
    } else if byte_len(purpose) < 30 {
        Some(AppErrorView::BadRequest("사용 목적은 30자 이상 입력해야 합니다"@))
    } else {
        None
    }
}

/// Checks an application for an API key.
pub fn validate_application(service_name: &str, service_url: &str, purpose: &str) -> (r: Result<(), AppError>)
    ensures
        err_view(r) == spec_validate_application(service_name@, service_url@, purpose@),
{
    let name_len = service_name.as_bytes().len();
    if name_len == 0 || name_len > 255 {
        return Err(AppError::BadRequest("서비스 이름은 1~255자 이내여야 합니다".to_string()));
    }
    let url = to_chars(service_url);
    if !starts_with(&url, "http://") && !starts_with(&url, "https://") {
        return Err(AppError::BadRequest("서비스 URL은 http:// 또는 https://로 시작해야 합니다".to_string()));
    }
    if service_url.as_bytes().len() > 512 {
        return Err(AppError::BadRequest("서비스 URL은 512자 이내여야 합니다".to_string()));
    }
    if purpose.as_bytes().len() < 30 {
        return Err(AppError::BadRequest("사용 목적은 30자 이상 입력해야 합니다".to_string()));
    }
    Ok(())
}

/// The scopes an application asks for; read, upload and delete when it
/// names none.
pub fn application_scopes(requested: Option<Vec<Scope>>) -> (r: Vec<Scope>)
    ensures
        requested matches Some(v) ==> r@ == v@,
        requested is None ==> r@ == seq![Scope::Read, Scope::Upload, Scope::Delete],
{
    match requested {
        Some(v) => v,
        None => vec![Scope::Read, Scope::Upload, Scope::Delete],
    }
}

/// A user may apply once a day.
pub fn check_application_rate(has_recent: bool) -> (r: Result<(), AppError>)
    ensures
        r is Ok <==> !has_recent,
        has_recent ==> err_view(r) == Some(AppErrorView::TooManyRequests("하루에 한 번만 신청할 수 있습니다"@)),
{
    if has_recent {
        return Err(AppError::TooManyRequests("하루에 한 번만 신청할 수 있습니다".to_string()));
    }
    Ok(())
}

/// The address an application is filed from: the `X-Forwarded-For` header
/// if present, else `X-Real-IP`; its first entry, trimmed. Each argument is
/// `None` for an absent header and `Some(None)` for one that is not text.
pub open spec fn spec_application_ip(forwarded_for: Option<Option<Seq<char>>>, real_ip: Option<Option<Seq<char>>>) -> Option<Seq<char>> {
    let chosen = match forwarded_for {
        Some(f) => Some(f),
        None => real_ip,
    };
    match chosen {
        Some(Some(v)) => Some(trim_seq(before_first(v, ','))),
        _ => None,
    }
}

/// The view of a header that may be absent or not text.
pub open spec fn header_view(h: Option<Option<&str>>) -> Option<Option<Seq<char>>> {
    match h {
        Some(Some(v)) => Some(Some(v@)),
        Some(None) => Some(None),
        None => None,
    }
}

/// The address an application is filed from.
pub fn extract_ip(forwarded_for: Option<Option<&str>>, real_ip: Option<Option<&str>>) -> (r: Option<String>)
    ensures
        opt_view(r) == spec_application_ip(header_view(forwarded_for), header_view(real_ip)),
{
    let chosen = match forwarded_for {
        Some(f) => Some(f),
        None => real_ip,
    };
    match chosen {
        Some(Some(v)) => Some(string_from(&trim(&before_first_char(&to_chars(v), ',')))),
        _ => None,
    }
}

/// Message of an application that does not exist or is someone else's.
pub open spec fn application_not_found() -> Seq<char> {
    "신청을 찾을 수 없습니다"@
}

/// A user sees only its own applications; another user's is answered as
/// not found.
pub fn check_application_owner(owner: Option<&str>, user_id: &str) -> (r: Result<(), AppError>)
    ensures
        r is Ok <==> (owner matches Some(o) && o@ == user_id@),
        r is Err ==> err_view(r) == Some(AppErrorView::NotFound(application_not_found())),
{
    match owner {
        Some(o) => {
            let a = o.to_string();
            let b = user_id.to_string();
            if a == b {
                Ok(())
            } else {
                Err(AppError::NotFound("신청을 찾을 수 없습니다".to_string()))
            }
        },
        None => Err(AppError::NotFound("신청을 찾을 수 없습니다".to_string())),
    }
}

/// An administrator decides only on a pending application.
pub fn check_pending(status: &str) -> (r: Result<(), AppError>)
    ensures
        r is Ok <==> status@ == "pending"@,
        r is Err ==> err_view(r) == Some(AppErrorView::Conflict("이미 처리된 신청입니다"@)),
{
    let s = status.to_string();
    let p = "pending".to_string();
    if s == p {
        Ok(())
    } else {
        Err(AppError::Conflict("이미 처리된 신청입니다".to_string()))
    }
}

/// A revocation that changed no row names no key of the user.
pub fn check_revoked_rows(rows: u64) -> (r: Result<(), AppError>)
    ensures
        r is Ok <==> rows > 0,
        r is Err ==> err_view(r) == Some(AppErrorView::NotFound("API Key를 찾을 수 없습니다"@)),
{
    if rows == 0 {
        return Err(AppError::NotFound("API Key를 찾을 수 없습니다".to_string()));
    }
    Ok(())
}

/// A newly issued API key: the key itself (shown once), the prefix kept
/// to recognise it, its stored hash and its name.
pub struct IssuedApiKey {
    pub api_key: String,
    pub key_prefix: String,
    pub key_hash: String,
    pub name: String,
}

/// Issues the API key of an approved application for `service_name`.
pub fn issue_api_key(service_name: &str) -> (r: IssuedApiKey)
    ensures
        is_generated_token(r.api_key@, "sk_"@),
        r.key_prefix@ == r.api_key@.subrange(0, 8),
        r.key_hash@ == spec_token_hash(r.api_key@),
        r.name@ == "API Key for "@ + service_name@,
{
    let api_key = generate_api_key();
    let v = to_chars(api_key.as_str());
    let key_prefix = string_of(&v, 0, 8);
    let key_hash = hash_token(api_key.as_str());
    let mut name = "API Key for ".to_string();
    push_str(&mut name, service_name);
    IssuedApiKey { api_key, key_prefix, key_hash, name }
}

} // verus!
