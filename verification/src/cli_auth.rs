//! Signing the CLI in through the browser, and personal tokens: the CLI
//! opens a session, the signed-in user completes it, and the CLI polls it
//! until it receives its token, once.

use vstd::prelude::*;
use vstd::utf8::encode_utf8;
use crate::api_error::{AppError, AppErrorView, err_view};
use crate::credentials::{generate_personal_token, hash_token, is_generated_token, spec_token_hash};
use crate::download::opt_view;
use crate::text::{push_str, string_of, to_chars};

verus! {

/// Seconds a CLI sign-in session stays open.
pub const CLI_AUTH_SESSION_SECS: i64 = 600;

/// The browser page that completes a CLI sign-in.
pub fn login_url(frontend_url: &str, session_id: &str) -> (r: String)
    ensures
        r@ == frontend_url@ + "/cli-signin/"@ + session_id@,
{
    let mut s = frontend_url.to_string();
    push_str(&mut s, "/cli-signin/");
    push_str(&mut s, session_id);
    s
}

/// What a polling CLI is told of its sign-in session.
#[derive(Debug, Clone, Copy)]
pub enum CliAuthStatus {
    Pending,
    Completed,
    Expired,
}

/// Name of a status in the response.
pub open spec fn spec_status_name(s: CliAuthStatus) -> Seq<char> {
    match s {
        CliAuthStatus::Pending => "pending"@,
        CliAuthStatus::Completed => "completed"@,
        CliAuthStatus::Expired => "expired"@,
    }
}

impl CliAuthStatus {
    /// Name of the status in the response.
    pub fn as_str(&self) -> (r: &'static str)
        ensures
            r@ == spec_status_name(*self),
    {
        proof {
            reveal_strlit("pending");
            reveal_strlit("completed");
            reveal_strlit("expired");
        }
        match self {
            CliAuthStatus::Pending => "pending",
            CliAuthStatus::Completed => "completed",
            CliAuthStatus::Expired => "expired",
        }
    }
}

/// The status of a session at time `now`: a completed session stays
/// completed; another one past its expiry is expired; else pending.
pub open spec fn spec_cli_auth_status(stored: Seq<char>, expires_at: i64, now: i64) -> CliAuthStatus {
    if expires_at < now && stored != "completed"@ {
        CliAuthStatus::Expired
    } else if stored == "completed"@ {
        CliAuthStatus::Completed
    } else {
        CliAuthStatus::Pending
    }
}

/// The status a polling CLI is told.
pub fn cli_auth_status(stored: &str, expires_at: i64, now: i64) -> (r: CliAuthStatus)
    ensures
        r == spec_cli_auth_status(stored@, expires_at, now),
{
    let s = stored.to_string();
    let c = "completed".to_string();
    let completed = s == c;
    if expires_at < now && !completed {
        CliAuthStatus::Expired
    } else if completed {
        CliAuthStatus::Completed
    } else {
        CliAuthStatus::Pending
    }
}

/// The token a completed session hands out: only the poll whose clearing of
/// the stored token changed a row receives it.
pub fn handed_token(stored_token: Option<String>, cleared_rows: u64) -> (r: Option<String>)
    ensures
        opt_view(r) == spec_handed_token(opt_view(stored_token), cleared_rows as int),
{
    if cleared_rows > 0 {
        stored_token
    } else {
        None
    }
}

/// The checks before a user completes a session at time `now`: it must not
/// have expired and must still be pending.
pub open spec fn spec_check_completable(stored: Seq<char>, expires_at: i64, now: i64) -> Option<AppErrorView> {
    if expires_at < now {
        Some(AppErrorView::BadRequest("CLI auth session has expired"@))
    } else if stored != "pending"@ {
        Some(AppErrorView::BadRequest("CLI auth session has already been processed"@))
    } else {
        None
    }
}

/// Checks that a session may be completed.
pub fn check_completable(stored: &str, expires_at: i64, now: i64) -> (r: Result<(), AppError>)
    ensures
        err_view(r) == spec_check_completable(stored@, expires_at, now),
{
    if expires_at < now {
        return Err(AppError::BadRequest("CLI auth session has expired".to_string()));
    }
    let s = stored.to_string();
    let p = "pending".to_string();
    if !(s == p) {
        return Err(AppError::BadRequest("CLI auth session has already been processed".to_string()));
    }
    Ok(())
}

/// Completing a session that changed no row failed.
pub fn check_completed_rows(rows: u64) -> (r: Result<(), AppError>)
    ensures
        r is Ok <==> rows > 0,
        r is Err ==> err_view(r) == Some(AppErrorView::BadRequest("Failed to complete CLI auth session"@)),
{
    if rows == 0 {
        return Err(AppError::BadRequest("Failed to complete CLI auth session".to_string()));
    }
    Ok(())
}

/// A newly issued personal token: the token (shown once), the prefix kept
/// to recognise it and its stored hash.
pub struct IssuedPersonalToken {
    pub token: String,
    pub prefix: String,
    pub hash: String,
}

/// Issues a personal token.
pub fn issue_personal_token() -> (r: IssuedPersonalToken)
    ensures
        is_generated_token(r.token@, "sa_"@),
        r.prefix@ == r.token@.subrange(0, 8),
        r.hash@ == spec_token_hash(r.token@),
{
    let token = generate_personal_token();
    let v = to_chars(token.as_str());
    let prefix = string_of(&v, 0, 8);
    let hash = hash_token(token.as_str());
    IssuedPersonalToken { token, prefix, hash }
}

/// The name of a new personal token: `CLI Token` unless given, at most 255
/// bytes.
pub open spec fn spec_token_name(name: Option<Seq<char>>) -> Result<Seq<char>, AppErrorView> {
    let n = match name {
        Some(n) => n,
        None => "CLI Token"@,
    };
    if encode_utf8(n).len() > 255 {
        Err(AppErrorView::BadRequest("키 이름은 255자 이하여야 합니다"@))
    } else {
        Ok(n)
    }
}

/// The name of a new personal token.
pub fn personal_token_name(name: Option<String>) -> (r: Result<String, AppError>)
    ensures
        match r {
            Ok(n) => spec_token_name(opt_view(name)) == Ok::<Seq<char>, AppErrorView>(n@),
            Err(e) => spec_token_name(opt_view(name)) == Err::<Seq<char>, AppErrorView>(e@),
        },
{
    let n = match name {
        Some(n) => n,
        None => "CLI Token".to_string(),
    };
    if n.as_str().as_bytes().len() > 255 {
        return Err(AppError::BadRequest("키 이름은 255자 이하여야 합니다".to_string()));
    }
    Ok(n)
}

/// A revocation that changed no row names no token of the user.
pub fn check_token_revoked(rows: u64) -> (r: Result<(), AppError>)
    ensures
        r is Ok <==> rows > 0,
        r is Err ==> err_view(r) == Some(AppErrorView::NotFound("Personal Token을 찾을 수 없습니다"@)),
{
    if rows == 0 {
        return Err(AppError::NotFound("Personal Token을 찾을 수 없습니다".to_string()));
    }
    Ok(())
}

/// Law: a completed session is never reported expired, and a session is
/// completed by a user only while it is pending and unexpired.
pub proof fn lemma_completed_sessions_stay_completed(stored: Seq<char>, expires_at: i64, now: i64)
    ensures
        stored == "completed"@ ==> spec_cli_auth_status(stored, expires_at, now) == CliAuthStatus::Completed,
        spec_check_completable(stored, expires_at, now) is None ==> stored == "pending"@ && expires_at >= now,
{
}

/// What a CLI login session's row holds: its status and the personal
/// token waiting to be handed out.
pub ghost struct SessionRowView {
    pub status: Seq<char>,
    pub token: Option<Seq<char>>,
}

/// The token a poll hands out, from the stored token and the rows its
/// clearing changed.
pub open spec fn spec_handed_token(stored: Option<Seq<char>>, cleared_rows: int) -> Option<Seq<char>> {
    if cleared_rows > 0 {
        stored
    } else {
        None
    }
}

/// One status poll of a session row at time `now`: the status told, the
/// token handed out, and the row after it. A completed session's stored
/// token is cleared by the poll (one row changes while a token is stored,
/// none after), and only the poll that changed the row receives it.
pub open spec fn spec_poll(row: SessionRowView, expires_at: i64, now: i64) -> (CliAuthStatus, Option<Seq<char>>, SessionRowView) {
    let status = spec_cli_auth_status(row.status, expires_at, now);
    if status == CliAuthStatus::Completed {
        let cleared: int = if row.token is Some { 1 } else { 0 };
        (status, spec_handed_token(row.token, cleared), SessionRowView { status: row.status, token: None })
    } else {
        (status, None, row)
    }
}

/// The personal token of a completed session is released exactly once:
/// the first poll is told `completed` and receives it, and every later poll
/// is told `completed` and receives nothing.
pub proof fn lemma_token_released_once(token: Seq<char>, expires_at: i64, now1: i64, now2: i64)
    ensures
        ({
            let row = SessionRowView { status: "completed"@, token: Some(token) };
            let first = spec_poll(row, expires_at, now1);
            let second = spec_poll(first.2, expires_at, now2);
            &&& first.0 == CliAuthStatus::Completed && first.1 == Some(token)
            &&& second.0 == CliAuthStatus::Completed && second.1 is None
            &&& second.2 == first.2
        }),
{
}

} // verus!
