//! Sign-in by e-mail: the address a link is sent to, the six-digit code
//! that confirms it on another device, the decisions when the link or the
//! code comes back, and the sign-in data handed to the client.

use vstd::prelude::*;
use crate::api_error::{AppError, AppErrorView, err_view, res_view};
use crate::credentials::random_below;
use crate::download::opt_view;
use crate::request_info::{is_valid_email, spec_is_valid_email};
use crate::share_password::opt_str;
use crate::text::{digit, digit_char, push_char, string_from, to_chars, trim, trim_seq};

verus! {

/// What `str::to_lowercase` returns: the Unicode lower case of the text.
pub uninterp spec fn unicode_lowercase(s: Seq<char>) -> Seq<char>;

/// Calls `str::to_lowercase`, named by `unicode_lowercase`.
#[verifier::external_body]
fn to_lowercase(s: &str) -> (r: String)
    ensures
        r@ == unicode_lowercase(s@),
{
    s.to_lowercase()
}

/// The address a sign-in link goes to: the one typed, trimmed and in lower
/// case; `400` when that is not an e-mail address.
pub open spec fn spec_sign_in_address(raw: Seq<char>) -> Result<Seq<char>, AppErrorView> {
    let email = unicode_lowercase(trim_seq(raw));
    if spec_is_valid_email(email) {
        Ok(email)
    } else {
        Err(AppErrorView::Http(400, Seq::empty()))
    }
}

/// The address a sign-in link goes to.
pub fn sign_in_address(raw: &str) -> (r: Result<String, AppError>)
    ensures
        match r {
            Ok(e) => spec_sign_in_address(raw@) == Ok::<Seq<char>, AppErrorView>(e@),
            Err(e) => spec_sign_in_address(raw@) == Err::<Seq<char>, AppErrorView>(e@),
        },
{
    let trimmed = string_from(&trim(&to_chars(raw)));
    let email = to_lowercase(trimmed.as_str());
    if !is_valid_email(email.as_str()) {
        return Err(AppError::Http(400, String::new()));
    }
    Ok(email)
}

/// A link was sent to the address a moment ago: `429`.
pub fn check_recent_link(has_recent: bool) -> (r: Result<(), AppError>)
    ensures
        r is Ok <==> !has_recent,
        has_recent ==> err_view(r) == Some(AppErrorView::Http(429, Seq::empty())),
{
    if has_recent {
        return Err(AppError::Http(429, String::new()));
    }
    Ok(())
}

/// `n` written with six digits, zero-padded.
pub open spec fn six_digits(n: nat) -> Seq<char> {
    seq![
        digit_char((n / 100000) % 10),
        digit_char((n / 10000) % 10),
        digit_char((n / 1000) % 10),
        digit_char((n / 100) % 10),
        digit_char((n / 10) % 10),
        digit_char(n % 10),
    ]
}

/// `n` written with six digits, zero-padded (`format!("{:06}", n)`).
pub fn six_digit_code(n: u64) -> (r: String)
    requires
        n < 1000000,
    ensures
        r@ == six_digits(n as nat),
{
    let mut s = String::new();
    push_char(&mut s, digit((n / 100000) % 10));
    push_char(&mut s, digit((n / 10000) % 10));
    push_char(&mut s, digit((n / 1000) % 10));
    push_char(&mut s, digit((n / 100) % 10));
    push_char(&mut s, digit((n / 10) % 10));
    push_char(&mut s, digit(n % 10));
    assert(s@ =~= six_digits(n as nat));
    s
}

/// A new random verification code: six digits.
pub fn new_verification_code() -> (r: String)
    ensures
        exists|n: nat| n < 1000000 && r@ == six_digits(n),
{
    let n = random_below(1000000);
    six_digit_code(n as u64)
}

/// What opening a sign-in link does: the link must still be pending; on
/// the device that asked for it the sign-in completes (`true`), elsewhere
/// the link is only verified and the code is shown (`false`).
pub open spec fn spec_link_outcome(status: Seq<char>, device_id: Option<Seq<char>>, session_device: Seq<char>) -> Result<bool, AppErrorView> {
    if status != "pending"@ {
        Err(AppErrorView::Http(410, Seq::empty()))
    } else {
        Ok(device_id matches Some(d) && d.len() > 0 && d == session_device)
    }
}

/// Decides what opening a sign-in link does.
pub fn link_outcome(status: &str, device_id: Option<&str>, session_device: &str) -> (r: Result<bool, AppError>)
    ensures
        res_view(r) == spec_link_outcome(status@, opt_str(device_id), session_device@),
{
    let s = status.to_string();
    let pending = "pending".to_string();
    if !(s == pending) {
        return Err(AppError::Http(410, String::new()));
    }
    match device_id {
        Some(d) => {
            let a = d.to_string();
            let b = session_device.to_string();
            Ok(!d.is_empty() && a == b)
        },
        None => Ok(false),
    }
}

/// The check of a code typed on another device at time `now`: the session
/// must not have expired (`410`) and the code must match (`401`).
pub open spec fn spec_check_code(expires_at: i64, now: i64, stored: Seq<char>, supplied: Seq<char>) -> Option<AppErrorView> {
    if expires_at < now {
        Some(AppErrorView::Http(410, Seq::empty()))
    } else if stored != supplied {
        Some(AppErrorView::Http(401, Seq::empty()))
    } else {
        None
    }
}

/// Checks a code typed on another device at time `now`.
pub fn check_verification_code(expires_at: i64, now: i64, stored: &str, supplied: &str) -> (r: Result<(), AppError>)
    ensures
        err_view(r) == spec_check_code(expires_at, now, stored@, supplied@),
{
    if expires_at < now {
        return Err(AppError::Http(410, String::new()));
    }
    let a = stored.to_string();
    let b = supplied.to_string();
    if !(a == b) {
        return Err(AppError::Http(401, String::new()));
    }
    Ok(())
}

/// Whether a polled sign-in has completed.
pub fn is_completed(status: &str) -> (r: bool)
    ensures
        r == (status@ == "completed"@),
{
    let s = status.to_string();
    let c = "completed".to_string();
    s == c
}

/// A user, as the sign-in data reads it.
pub struct User {
    pub id: String,
    pub email: String,
    pub name: String,
    pub profile_image: Option<String>,
}

/// The user part of the sign-in data.
pub struct EmailAuthUser {
    pub id: String,
    pub email: String,
    pub name: String,
    pub profile_image: Option<String>,
}

/// What a completed e-mail sign-in hands the client: its token, the user,
/// and the provider the address was already registered with, if any.
pub struct EmailAuthData {
    pub token: String,
    pub user: EmailAuthUser,
    pub existing_provider: Option<String>,
}

/// The sign-in data of `user` with token `jwt`.
pub fn build_email_auth_data(user: &User, jwt: String, existing_provider: Option<String>) -> (r: EmailAuthData)
    ensures
        r.token@ == jwt@,
        r.user.id@ == user.id@,
        r.user.email@ == user.email@,
        r.user.name@ == user.name@,
        opt_view(r.user.profile_image) == opt_view(user.profile_image),
        opt_view(r.existing_provider) == opt_view(existing_provider),
{
    EmailAuthData {
        token: jwt,
        user: EmailAuthUser {
            id: user.id.clone(),
            email: user.email.clone(),
            name: user.name.clone(),
            profile_image: match &user.profile_image {
                Some(p) => Some(p.clone()),
                None => None,
            },
        },
        existing_provider,
    }
}

/// Law: a sign-in link completes the sign-in at most once: once the
/// session is no longer pending, opening the link again is refused.
pub proof fn lemma_link_used_once(status: Seq<char>, device_id: Option<Seq<char>>, session_device: Seq<char>)
    ensures
        status != "pending"@ ==> spec_link_outcome(status, device_id, session_device) is Err,
        spec_link_outcome(status, device_id, session_device) == Ok::<bool, AppErrorView>(true)
            ==> device_id == Some(session_device) && session_device.len() > 0,
{
}

} // verus!
