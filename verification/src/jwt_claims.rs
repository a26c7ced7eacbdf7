//! The claims of the tokens the service signs (user sessions, anonymous
//! session tokens, device-revocation links) and the decisions around them;
//! `jwt_tokens` signs and checks them.

use vstd::prelude::*;
use std::sync::Arc;
use crate::api_error::{AppError, AppErrorView, err_view};
use crate::config::Config;
use crate::share_password::opt_str;
use crate::text::push_str;

verus! {

/// Claims of a signed-in user's token.
#[derive(Debug, Clone)]
pub struct Claims {
    pub sub: String,
    pub email: String,
    pub name: String,
    pub jti: String,
    pub exp: usize,
    pub iat: usize,
}

/// Claims of an anonymous session token.
#[derive(Debug)]
pub struct SessionTokenClaims {
    pub kind: String,
    pub iat: i64,
    pub exp: i64,
}

/// Claims of a device-revocation link.
#[derive(Debug)]
pub struct DeviceRevokeClaims {
    pub sub: String,
    pub jti: String,
    pub device_id: String,
    pub typ: String,
    pub exp: usize,
    pub iat: usize,
}

/// What the session-token exchange needs.
pub struct SessionTokenState {
    pub config: Arc<Config>,
}

/// A session-token request: the Turnstile token of the visitor.
#[derive(Debug)]
pub struct ExchangeRequest {
    pub turnstile_token: String,
}

/// A session token and when it expires (RFC 3339).
#[derive(Debug)]
pub struct ExchangeResponse {
    pub session_token: String,
    pub expires_at: String,
}

/// Query of a device-revocation link.
#[derive(Debug)]
pub struct ConfirmQuery {
    pub token: String,
}

/// Seconds in an hour.
pub const SECS_PER_HOUR: i64 = 3600;

/// Days a device-revocation link stays valid.
pub const DEVICE_REVOKE_EXP_DAYS: i64 = 7;

/// Earliest second a `chrono::DateTime<Utc>` can hold
/// (-262143-01-01T00:00:00Z).
pub const MIN_TIMESTAMP: i64 = -8334601315200;
/// Latest second a `chrono::DateTime<Utc>` can hold
/// (+262142-12-31T23:59:59Z).
pub const MAX_TIMESTAMP: i64 = 8210266876799;

/// Whether an instant, in seconds since the epoch, is one chrono can hold;
/// adding a duration that leaves this range panics.
pub open spec fn representable(t: int) -> bool {
    MIN_TIMESTAMP <= t <= MAX_TIMESTAMP
}

/// Whether chrono can hold an instant.
pub fn representable_instant(t: i64) -> (r: bool)
    ensures
        r == representable(t as int),
{
    MIN_TIMESTAMP <= t && t <= MAX_TIMESTAMP
}

/// The claims of a user's token issued at `now` (seconds since the epoch)
/// for `expiration_hours` hours. Both instants are written as `usize`, as
/// the token format has them (a negative one wraps).
pub fn user_claims(user_id: &str, email: &str, name: &str, jti: &str, now: i64, expiration_hours: i64) -> (r: Claims)
    requires
        representable(now as int),
        representable(now + expiration_hours * 3600),
    ensures
        r.sub@ == user_id@,
        r.email@ == email@,
        r.name@ == name@,
        r.jti@ == jti@,
        r.iat == now as usize,
        r.exp == (now + expiration_hours * 3600) as usize,
{
    let exp: i64 = now + expiration_hours * SECS_PER_HOUR;
    Claims {
        sub: user_id.to_string(),
        email: email.to_string(),
        name: name.to_string(),
        jti: jti.to_string(),
        exp: exp as usize,
        iat: now as usize,
    }
}

/// Claims of a session token issued at `now` for `ttl_seconds`.
pub fn session_claims(now: i64, ttl_seconds: i64) -> (r: SessionTokenClaims)
    requires
        representable(now as int),
        representable(now + ttl_seconds),
    ensures
        r.kind@ == "session"@,
        r.iat == now,
        r.exp == now + ttl_seconds,
{
    SessionTokenClaims { kind: "session".to_string(), iat: now, exp: now + ttl_seconds }
}

/// Claims of a device-revocation link for session `jti` of `user_id` on
/// `device_id`, issued at `now`, valid seven days.
pub fn device_revoke_claims(user_id: &str, jti: &str, device_id: &str, now: i64) -> (r: DeviceRevokeClaims)
    requires
        representable(now as int),
        representable(now + DEVICE_REVOKE_EXP_DAYS * 86400),
    ensures
        r.sub@ == user_id@,
        r.jti@ == jti@,
        r.device_id@ == device_id@,
        r.typ@ == "device_revoke"@,
        r.iat == now as usize,
        r.exp == (now + DEVICE_REVOKE_EXP_DAYS * 86400) as usize,
{
    let exp: i64 = now + DEVICE_REVOKE_EXP_DAYS * 86400;
    DeviceRevokeClaims {
        sub: user_id.to_string(),
        jti: jti.to_string(),
        device_id: device_id.to_string(),
        typ: "device_revoke".to_string(),
        exp: exp as usize,
        iat: now as usize,
    }
}

/// Whether decoded claims are those of a session token.
pub fn is_session_kind(kind: &str) -> (r: bool)
    ensures
        r == (kind@ == "session"@),
{
    let k = kind.to_string();
    let s = "session".to_string();
    k == s
}

/// Whether decoded claims are those of a device-revocation link.
pub fn is_device_revoke_kind(typ: &str) -> (r: bool)
    ensures
        r == (typ@ == "device_revoke"@),
{
    let k = typ.to_string();
    let s = "device_revoke".to_string();
    k == s
}

/// A session-token request must carry a Turnstile token.
pub fn check_exchange_request(req: &ExchangeRequest) -> (r: Result<(), AppError>)
    ensures
        r is Ok <==> req.turnstile_token@.len() > 0,
        r is Err ==> err_view(r) == Some(AppErrorView::BadRequest("turnstile_token is required"@)),
{
    if req.turnstile_token.as_str().is_empty() {
        return Err(AppError::BadRequest("turnstile_token is required".to_string()));
    }
    Ok(())
}

/// Whether to retry a failed Turnstile check with the interactive key:
/// only when the first check failed and that key is configured.
pub fn needs_interactive_retry(primary_ok: bool, interactive_key: &str) -> (r: bool)
    ensures
        r == (!primary_ok && interactive_key@.len() > 0),
{
    !primary_ok && !interactive_key.is_empty()
}

/// The answer of the Turnstile checks: the first check, else the retry
/// (`None` when there was none), decides.
pub fn turnstile_verdict(primary_ok: bool, retry_ok: Option<bool>) -> (r: Result<(), AppError>)
    ensures
        r is Ok <==> (primary_ok || retry_ok == Some(true)),
        r is Err ==> err_view(r) == Some(AppErrorView::Forbidden("Turnstile verification failed"@)),
{
    if primary_ok {
        return Ok(());
    }
    match retry_ok {
        Some(true) => Ok(()),
        _ => Err(AppError::Forbidden("Turnstile verification failed".to_string())),
    }
}

/// What the session-token check does with a request.
#[derive(Debug)]
pub enum SessionStep {
    /// Let it through.
    Pass,
    /// Refuse it: no session token.
    Missing,
    /// Check this session token.
    Check(String),
}

/// The session-token check of anonymous routes: a signed-in request, or one with a valid
/// personal token, passes; otherwise the `X-Session-Token` header (not
/// empty) must be checked.
pub fn session_step(signed_in: bool, personal_token_valid: bool, header: Option<&str>) -> (r: SessionStep)
    ensures
        signed_in || personal_token_valid ==> r is Pass,
        !signed_in && !personal_token_valid ==> match opt_str(header) {
            Some(t) => if t.len() > 0 { r matches SessionStep::Check(c) && c@ == t } else { r is Missing },
            None => r is Missing,
        },
{
    if signed_in || personal_token_valid {
        return SessionStep::Pass;
    }
    match header {
        Some(t) => {
            if t.is_empty() {
                SessionStep::Missing
            } else {
                SessionStep::Check(t.to_string())
            }
        },
        None => SessionStep::Missing,
    }
}

/// Why a session token is refused.
#[derive(Debug)]
pub enum SessionRefusal {
    Required,
    Expired,
    WrongKind,
}

/// Code and message of a refusal, as the JSON body gives them.
pub open spec fn spec_session_refusal(r: SessionRefusal) -> (Seq<char>, Seq<char>) {
    match r {
        SessionRefusal::Required => ("SESSION_TOKEN_REQUIRED"@, "Session token required"@),
        SessionRefusal::Expired => ("SESSION_TOKEN_EXPIRED"@, "Session token invalid or expired"@),
        SessionRefusal::WrongKind => ("SESSION_TOKEN_INVALID"@, "Wrong token kind"@),
    }
}

impl SessionRefusal {
    /// The code of the refusal.
    pub fn code(&self) -> (r: &'static str)
        ensures
            r@ == spec_session_refusal(*self).0,
    {
        proof {
            reveal_strlit("SESSION_TOKEN_REQUIRED");
            reveal_strlit("SESSION_TOKEN_EXPIRED");
            reveal_strlit("SESSION_TOKEN_INVALID");
        }
        match self {
            SessionRefusal::Required => "SESSION_TOKEN_REQUIRED",
            SessionRefusal::Expired => "SESSION_TOKEN_EXPIRED",
            SessionRefusal::WrongKind => "SESSION_TOKEN_INVALID",
        }
    }

    /// The message of the refusal.
    pub fn message(&self) -> (r: &'static str)
        ensures
            r@ == spec_session_refusal(*self).1,
    {
        proof {
            reveal_strlit("Session token required");
            reveal_strlit("Session token invalid or expired");
            reveal_strlit("Wrong token kind");
        }
        match self {
            SessionRefusal::Required => "Session token required",
            SessionRefusal::Expired => "Session token invalid or expired",
            SessionRefusal::WrongKind => "Wrong token kind",
        }
    }
}

/// The answer to a checked session token: `decoded_kind` is the kind of its
/// claims, or `None` when its signature or expiry did not check out.
pub fn session_token_verdict(decoded_kind: Option<&str>) -> (r: Result<(), SessionRefusal>)
    ensures
        decoded_kind is None ==> r matches Err(SessionRefusal::Expired),
        decoded_kind matches Some(k) ==> (if k@ == "session"@ { r is Ok } else { r matches Err(SessionRefusal::WrongKind) }),
{
    match decoded_kind {
        None => Err(SessionRefusal::Expired),
        Some(k) => {
            if is_session_kind(k) {
                Ok(())
            } else {
                Err(SessionRefusal::WrongKind)
            }
        },
    }
}

/// Outcome of a device-revocation link.
#[derive(Debug, Clone, Copy)]
pub enum DeviceRevokeOutcome {
    Invalid,
    Error,
    Revoked,
}

/// Name of an outcome in the result page's query.
pub open spec fn spec_outcome_name(o: DeviceRevokeOutcome) -> Seq<char> {
    match o {
        DeviceRevokeOutcome::Invalid => "invalid"@,
        DeviceRevokeOutcome::Error => "error"@,
        DeviceRevokeOutcome::Revoked => "revoked"@,
    }
}

/// The result page a device-revocation link redirects to.
pub fn device_result_url(frontend_url: &str, outcome: DeviceRevokeOutcome) -> (r: String)
    ensures
        r@ == frontend_url@ + "/auth/device/result?status="@ + spec_outcome_name(outcome),
{
    let mut s = frontend_url.to_string();
    push_str(&mut s, "/auth/device/result?status=");
    let name: &str = match outcome {
        DeviceRevokeOutcome::Invalid => "invalid",
        DeviceRevokeOutcome::Error => "error",
        DeviceRevokeOutcome::Revoked => "revoked",
    };
    proof {
        reveal_strlit("invalid");
        reveal_strlit("error");
        reveal_strlit("revoked");
    }
    push_str(&mut s, name);
    s
}

} // verus!
