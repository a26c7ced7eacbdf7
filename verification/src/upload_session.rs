//! Completing a presigned or multipart web upload: the checks on its upload
//! session, how long the resulting share lives, the link it is shared by and
//! who is told about it.

use vstd::prelude::*;
use crate::api_error::{AppError, AppErrorView, err_view};
use crate::download::opt_view;
use crate::text::push_str;
use crate::upload_policy::{ExpirationPeriod, spec_period_from_name, stored_expiration};

verus! {

/// An upload session, as the completion logic reads it.
pub struct UploadSession {
    pub share_code: String,
    pub user_id: Option<String>,
    /// Stored name of the expiration period asked for.
    pub expiration_period: String,
    pub is_quick_access: bool,
    pub completed: bool,
}

/// The checks of an upload session before parts are presigned or the
/// upload is completed: it must exist, match the share code (where the
/// request gives one) and not be completed yet.
pub open spec fn spec_check_session(session: Option<UploadSession>, request_code: Option<Seq<char>>) -> Option<AppErrorView> {
    match session {
        None => Some(AppErrorView::BadRequest("Invalid upload session"@)),
        Some(s) => if request_code matches Some(c) && s.share_code@ != c {
            Some(AppErrorView::BadRequest("Share code does not match"@))
        } else if s.completed {
            Some(AppErrorView::BadRequest("Upload session already completed"@))
        } else {
            None
        },
    }
}

/// Checks an upload session; `request_code` is the share code the request
/// names (`None` for part URLs, which name none).
pub fn check_upload_session_state(session: Option<&UploadSession>, request_code: Option<&str>) -> (r: Result<(), AppError>)
    ensures
        err_view(r) == spec_check_session(
            match session { Some(s) => Some(*s), None => None },
            match request_code { Some(c) => Some(c@), None => None },
        ),
{
    let s = match session {
        None => { return Err(AppError::BadRequest("Invalid upload session".to_string())); },
        Some(s) => s,
    };
    match request_code {
        Some(c) => {
            let code = c.to_string();
            if !(s.share_code == code) {
                return Err(AppError::BadRequest("Share code does not match".to_string()));
            }
        },
        None => {},
    }
    if s.completed {
        return Err(AppError::BadRequest("Upload session already completed".to_string()));
    }
    Ok(())
}

/// How long the completed share lives: the period the session stored, or
/// five minutes when the stored name names none.
pub fn session_expiration(session: &UploadSession) -> (r: ExpirationPeriod)
    ensures
        r == match spec_period_from_name(session.expiration_period@) {
            Some(p) => p,
            None => ExpirationPeriod::FiveMinutes,
        },
{
    stored_expiration(session.expiration_period.as_str(), ExpirationPeriod::FiveMinutes)
}

/// The download page of a share.
pub open spec fn spec_download_url(base_url: Seq<char>, code: Seq<char>) -> Seq<char> {
    base_url + "/download?code="@ + code
}

/// The link a share is handed out by.
pub fn share_download_url(base_url: &str, code: &str) -> (r: String)
    ensures
        r@ == spec_download_url(base_url@, code@),
{
    let mut s = base_url.to_string();
    push_str(&mut s, "/download?code=");
    push_str(&mut s, code);
    s
}

/// Who is told of a completed upload: its signed-in uploader, unless the
/// upload went to Quick Access.
pub fn upload_notice_recipient(session: &UploadSession) -> (r: Option<String>)
    ensures
        opt_view(r) == (if session.is_quick_access { None } else { opt_view(session.user_id) }),
{
    if session.is_quick_access {
        return None;
    }
    match &session.user_id {
        Some(u) => Some(u.clone()),
        None => None,
    }
}

/// Law: a completed session cannot be completed again, and a session is
/// completed only under the share code it was created for.
pub proof fn lemma_session_completes_once(s: UploadSession, code: Seq<char>)
    ensures
        s.completed ==> spec_check_session(Some(s), Some(code)) is Some,
        spec_check_session(Some(s), Some(code)) is None ==> s.share_code@ == code && !s.completed,
{
}

} // verus!
