//! Quick Access: a signed-in user's own files, kept a day, which only that
//! user may preview, download (once), share or delete.

use vstd::prelude::*;
use crate::api_error::{AppError, AppErrorView, err_view};
use crate::download::opt_view;
use crate::share_password::opt_str;

verus! {

/// A stored file, as the Quick Access checks read it.
pub struct QuickAccessFile {
    pub id: String,
    pub user_id: Option<String>,
    pub is_quick_access: bool,
    /// When the file expires, in milliseconds since the epoch.
    pub expires_at: i64,
}

/// The checks before a Quick Access file is touched: the caller must be
/// signed in, the file must exist, be the caller's and be a Quick Access
/// file, and (except for deletion) must not have expired at `now`.
pub open spec fn spec_quick_access(user: Option<Seq<char>>, file: Option<QuickAccessFile>, check_expiry: bool, now: i64) -> Option<AppErrorView> {
    match user {
        None => Some(AppErrorView::Unauthorized("Authentication required"@)),
        Some(u) => match file {
            None => Some(AppErrorView::NotFound("File not found"@)),
            Some(f) => if opt_view(f.user_id) != Some(u) {
                Some(AppErrorView::Forbidden("Access to another user's file is forbidden"@))
            } else if !f.is_quick_access {
                Some(AppErrorView::Forbidden("Not a Quick Access file"@))
            } else if check_expiry && f.expires_at < now {
                Some(AppErrorView::NotFound("File expired"@))
            } else {
                None
            },
        },
    }
}

/// Checks access to a Quick Access file at time `now`.
pub fn check_quick_access(user: Option<&str>, file: Option<&QuickAccessFile>, check_expiry: bool, now: i64) -> (r: Result<(), AppError>)
    ensures
        err_view(r) == spec_quick_access(opt_str(user), match file { Some(f) => Some(*f), None => None }, check_expiry, now),
{
    let u = match user {
        None => { return Err(AppError::Unauthorized("Authentication required".to_string())); },
        Some(u) => u,
    };
    let f = match file {
        None => { return Err(AppError::NotFound("File not found".to_string())); },
        Some(f) => f,
    };
    let owned = match &f.user_id {
        Some(o) => {
            let a = u.to_string();
            *o == a
        },
        None => false,
    };
    if !owned {
        return Err(AppError::Forbidden("Access to another user's file is forbidden".to_string()));
    }
    if !f.is_quick_access {
        return Err(AppError::Forbidden("Not a Quick Access file".to_string()));
    }
    if check_expiry && f.expires_at < now {
        return Err(AppError::NotFound("File expired".to_string()));
    }
    Ok(())
}

/// Minutes a public share of a Quick Access file stays open.
pub const PUBLIC_GRANT_MINUTES: i64 = 30;

/// Seconds a Quick Access preview or download URL stays valid.
pub const QUICK_ACCESS_URL_SECS: u64 = 3600;

/// Law: only its owner reaches a Quick Access file, and only a file marked
/// Quick Access is reached this way.
pub proof fn lemma_only_owner_reaches(user: Option<Seq<char>>, file: Option<QuickAccessFile>, check_expiry: bool, now: i64)
    ensures
        spec_quick_access(user, file, check_expiry, now) is None ==> ({
            &&& user is Some && file is Some
            &&& opt_view(file->0.user_id) == user
            &&& file->0.is_quick_access
            &&& check_expiry ==> file->0.expires_at >= now
        }),
{
}

} // verus!
