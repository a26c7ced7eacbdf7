//! The public `/v1` API: its response shapes, the access policy of its
//! endpoints, and the quota report of `GET /v1/rate-limit`.

use vstd::prelude::*;
use crate::api_error::{missing_token_message, spec_message, PublicApiError};
use crate::rate_limiter::{sat_sub_u64, RateLimitStatus};
use crate::scope::{require_scope, require_token, scope_name, PersonalTokenUser, Scope};

verus! {

/// The OpenAPI document of the web API (its content is generated by the
/// documentation layer).
#[derive(Debug)]
pub struct ApiDoc;

/// Marker of the code samples attached to the OpenAPI document.
pub struct CodeSamples;

/// Marker of the OpenAPI document of the public API.
pub struct PublicApiDoc;

/// Body of `GET /v1/health`.
#[derive(Debug)]
pub struct HealthResponse {
    pub status: String,
}

/// Path parameter `{code}` of the P2P session endpoints.
#[derive(Debug)]
pub struct ShareCodePath {
    pub code: String,
}

/// Query of `GET /v1/shares/{code}/download`.
#[derive(Debug)]
pub struct DownloadQuery {
    pub password: Option<String>,
    pub file_id: Option<String>,
}

/// Body of `GET /v1/me`.
#[derive(Debug)]
pub struct MeResponse {
    pub user_id: String,
    pub email: String,
    pub name: String,
    pub token_id: String,
    pub scopes: Vec<Scope>,
}

/// Successful upload response of the CLI endpoints.
#[derive(Debug)]
pub struct CliUploadResponse {
    pub share_code: String,
    pub files: Vec<String>,
    pub curl_command: String,
    pub expires_at: String,
}

/// Successful upload response of `/v1` (without the `curl_command` field).
#[derive(Debug)]
pub struct V1UploadResponse {
    pub share_code: String,
    pub files: Vec<String>,
    pub expires_at: String,
}

/// One hourly request bucket in `GET /v1/rate-limit`.
#[derive(Debug)]
pub struct ResourceLimit {
    pub limit: u32,
    pub used: u32,
    pub remaining: u32,
    pub reset: u64,
}

/// The three hourly request buckets.
#[derive(Debug)]
pub struct ResourceLimits {
    pub read: ResourceLimit,
    pub upload: ResourceLimit,
    pub download: ResourceLimit,
}

/// Live gauge of open signaling connections.
#[derive(Debug)]
pub struct ConcurrencyGauge {
    pub limit: u32,
    pub active: u32,
    pub available: u32,
}

/// Per-minute signaling connect-attempt limit.
#[derive(Debug)]
pub struct AttemptLimit {
    pub limit: u32,
    pub window_seconds: u32,
    pub used: u32,
    pub remaining: u32,
    pub reset: u64,
}

/// The P2P part of `GET /v1/rate-limit`.
#[derive(Debug)]
pub struct P2pLimits {
    pub concurrent_connections: ConcurrencyGauge,
    pub connect_attempts: AttemptLimit,
}

/// Body of `GET /v1/rate-limit`.
#[derive(Debug)]
pub struct RateLimitResponse {
    pub resources: ResourceLimits,
    pub p2p: P2pLimits,
}

/// Subtracts, staying at zero.
pub open spec fn sat_sub_u32(a: u32, b: u32) -> u32 {
    if a >= b {
        (a - b) as u32
    } else {
        0
    }
}

/// Body of `GET /v1/health`: always `"healthy"` while the service answers.
pub fn health() -> (r: HealthResponse)
    ensures
        r.status@ == "healthy"@,
{
    HealthResponse { status: "healthy".to_string() }
}

/// The v1 upload response made from the CLI one: the same share, files and
/// expiry, without the curl command.
pub fn v1_upload_response_from(c: CliUploadResponse) -> (r: V1UploadResponse)
    ensures
        r.share_code == c.share_code,
        r.files == c.files,
        r.expires_at == c.expires_at,
{
    V1UploadResponse { share_code: c.share_code, files: c.files, expires_at: c.expires_at }
}

/// A request bucket as reported: `used` is what the limit no longer allows.
pub fn resource_limit(status: &RateLimitStatus) -> (r: ResourceLimit)
    ensures
        r.limit == status.limit,
        r.remaining == status.remaining,
        r.used == sat_sub_u32(status.limit, status.remaining),
        r.reset == status.reset_unix,
{
    ResourceLimit {
        limit: status.limit,
        used: status.limit.saturating_sub(status.remaining),
        remaining: status.remaining,
        reset: status.reset_unix,
    }
}

/// Body of `GET /v1/rate-limit`, from the status of the three buckets and
/// the live signaling counters of the key.
pub fn rate_limit_response(
    read: &RateLimitStatus,
    upload: &RateLimitStatus,
    download: &RateLimitStatus,
    active: u32,
    active_limit: u32,
    attempts_used: u32,
    attempts_reset: u64,
    attempt_limit: u32,
) -> (r: RateLimitResponse)
    ensures
        r.resources.read.limit == read.limit && r.resources.read.remaining == read.remaining
            && r.resources.read.used == sat_sub_u32(read.limit, read.remaining) && r.resources.read.reset == read.reset_unix,
        r.resources.upload.limit == upload.limit && r.resources.upload.remaining == upload.remaining
            && r.resources.upload.used == sat_sub_u32(upload.limit, upload.remaining) && r.resources.upload.reset == upload.reset_unix,
        r.resources.download.limit == download.limit && r.resources.download.remaining == download.remaining
            && r.resources.download.used == sat_sub_u32(download.limit, download.remaining) && r.resources.download.reset == download.reset_unix,
        r.p2p.concurrent_connections.limit == active_limit,
        r.p2p.concurrent_connections.active == active,
        r.p2p.concurrent_connections.available == sat_sub_u32(active_limit, active),
        r.p2p.connect_attempts.limit == attempt_limit,
        r.p2p.connect_attempts.window_seconds == 60,
        r.p2p.connect_attempts.used == attempts_used,
        r.p2p.connect_attempts.remaining == sat_sub_u32(attempt_limit, attempts_used),
        r.p2p.connect_attempts.reset == attempts_reset,
{
    RateLimitResponse {
        resources: ResourceLimits {
            read: resource_limit(read),
            upload: resource_limit(upload),
            download: resource_limit(download),
        },
        p2p: P2pLimits {
            concurrent_connections: ConcurrencyGauge {
                limit: active_limit,
                active,
                available: active_limit.saturating_sub(active),
            },
            connect_attempts: AttemptLimit {
                limit: attempt_limit,
                window_seconds: 60,
                used: attempts_used,
                remaining: attempt_limit.saturating_sub(attempts_used),
                reset: attempts_reset,
            },
        },
    }
}

/// An endpoint of the public API that needs a key.
#[derive(Debug, Clone, Copy, PartialEq, Eq, Structural)]
pub enum V1Endpoint {
    GetMe,
    PostUpload,
    PostMultipartInit,
    PostMultipartParts,
    PostMultipartComplete,
    GetShare,
    GetShareDownload,
    ListMyUploads,
    DeleteMyUpload,
    ListShareDownloads,
    ListMyDownloads,
    PostP2pSession,
    GetP2pStatus,
    GetTurnCredentials,
}

/// The scope each endpoint demands.
pub open spec fn spec_required_scope(e: V1Endpoint) -> Scope {
    match e {
        V1Endpoint::GetMe => Scope::Read,
        V1Endpoint::PostUpload => Scope::Upload,
        V1Endpoint::PostMultipartInit => Scope::Upload,
        V1Endpoint::PostMultipartParts => Scope::Upload,
        V1Endpoint::PostMultipartComplete => Scope::Upload,
        V1Endpoint::GetShare => Scope::Read,
        V1Endpoint::GetShareDownload => Scope::Read,
        V1Endpoint::ListMyUploads => Scope::Read,
        V1Endpoint::DeleteMyUpload => Scope::Delete,
        V1Endpoint::ListShareDownloads => Scope::Read,
        V1Endpoint::ListMyDownloads => Scope::Read,
        V1Endpoint::PostP2pSession => Scope::P2pTransfer,
        V1Endpoint::GetP2pStatus => Scope::P2pTransfer,
        V1Endpoint::GetTurnCredentials => Scope::P2pTransfer,
    }
}

impl V1Endpoint {
    /// The scope the endpoint demands.
    pub fn required_scope(&self) -> (r: Scope)
        ensures
            r == spec_required_scope(*self),
    {
        match self {
            V1Endpoint::GetMe => Scope::Read,
            V1Endpoint::PostUpload => Scope::Upload,
            V1Endpoint::PostMultipartInit => Scope::Upload,
            V1Endpoint::PostMultipartParts => Scope::Upload,
            V1Endpoint::PostMultipartComplete => Scope::Upload,
            V1Endpoint::GetShare => Scope::Read,
            V1Endpoint::GetShareDownload => Scope::Read,
            V1Endpoint::ListMyUploads => Scope::Read,
            V1Endpoint::DeleteMyUpload => Scope::Delete,
            V1Endpoint::ListShareDownloads => Scope::Read,
            V1Endpoint::ListMyDownloads => Scope::Read,
            V1Endpoint::PostP2pSession => Scope::P2pTransfer,
            V1Endpoint::GetP2pStatus => Scope::P2pTransfer,
            V1Endpoint::GetTurnCredentials => Scope::P2pTransfer,
        }
    }
}

/// The first check of every keyed endpoint: a key must be present and must
/// grant the endpoint's scope.
pub fn authorize(token: Option<&PersonalTokenUser>, endpoint: V1Endpoint) -> (r: Result<&PersonalTokenUser, PublicApiError>)
    ensures
        r is Ok <==> (token matches Some(u) && u.scopes@.contains(spec_required_scope(endpoint))),
        r matches Ok(u) ==> token == Some(u),
        token is None ==> (r matches Err(PublicApiError::Unauthorized(m)) && m@ == missing_token_message()),
        (token matches Some(u) && !u.scopes@.contains(spec_required_scope(endpoint))) ==>
            (r matches Err(PublicApiError::InsufficientScope(s)) && s@ == scope_name(spec_required_scope(endpoint))),
{
    let user = require_token(token)?;
    require_scope(user, endpoint.required_scope())?;
    Ok(user)
}

/// Status of an account that has been deleted.
pub open spec fn deleted_status() -> Seq<char> {
    "deleted"@
}

/// Whether a looked-up account still answers for its keys: it exists and
/// its status is not `deleted`.
pub open spec fn live_account(account: Option<(String, String, String, String)>) -> bool {
    account matches Some(a) && a.3@ != deleted_status()
}

/// Body of `GET /v1/me` once the key's user has been looked up as
/// `(id, email, name, status)`: the user's id, email and name with the key's
/// id and scopes, or `Unauthorized` when the account no longer exists or has
/// been deleted.
pub fn me_response(user: &PersonalTokenUser, account: Option<(String, String, String, String)>) -> (r: Result<MeResponse, PublicApiError>)
    ensures
        live_account(account) <==> r is Ok,
        !live_account(account) ==> (r matches Err(e) && e is Unauthorized
            && spec_message(e) == "Token is associated with a deleted user"@),
        account matches Some(a) ==> a.3@ == deleted_status() || (r matches Ok(m) && m.user_id == a.0 && m.email == a.1 && m.name == a.2
            && m.token_id@ == user.personal_token_id@ && m.scopes@ == user.scopes@),
{
    let account = match account {
        Some((id, email, name, status)) => {
            let st = crate::text::to_chars(status.as_str());
            if crate::text::eq_str(&st, "deleted") {
                None
            } else {
                Some((id, email, name))
            }
        },
        None => None,
    };
    match account {
        None => Err(PublicApiError::Unauthorized("Token is associated with a deleted user".to_string())),
        Some((id, email, name)) => {
            let mut scopes: Vec<Scope> = Vec::new();
            let mut i: usize = 0;
            while i < user.scopes.len()
                invariant
                    0 <= i <= user.scopes.len(),
                    scopes@ == user.scopes@.subrange(0, i as int),
                decreases user.scopes.len() - i,
            {
                scopes.push(user.scopes[i]);
                i = i + 1;
            }
            assert(user.scopes@.subrange(0, user.scopes@.len() as int) == user.scopes@);
            Ok(MeResponse {
                user_id: id,
                email,
                name,
                token_id: user.personal_token_id.clone(),
                scopes,
            })
        },
    }
}

/// Law: each endpoint demands the scope its handler checks. Reading a
/// share, its download, the key's principal and the upload and download
/// histories needs `read`; uploading (simple or multipart) needs `upload`;
/// deleting an upload needs `delete`; P2P sessions, their status and TURN
/// credentials need `p2p_transfer`.
pub proof fn lemma_scopes_follow_the_handlers(e: V1Endpoint)
    ensures
        (spec_required_scope(e) == Scope::Read) <==> (e == V1Endpoint::GetMe || e == V1Endpoint::GetShare
            || e == V1Endpoint::GetShareDownload || e == V1Endpoint::ListMyUploads
            || e == V1Endpoint::ListShareDownloads || e == V1Endpoint::ListMyDownloads),
        (spec_required_scope(e) == Scope::Upload) <==> (e == V1Endpoint::PostUpload || e == V1Endpoint::PostMultipartInit
            || e == V1Endpoint::PostMultipartParts || e == V1Endpoint::PostMultipartComplete),
        (spec_required_scope(e) == Scope::Delete) <==> e == V1Endpoint::DeleteMyUpload,
        (spec_required_scope(e) == Scope::P2pTransfer) <==> (e == V1Endpoint::PostP2pSession
            || e == V1Endpoint::GetP2pStatus || e == V1Endpoint::GetTurnCredentials),
{
}

} // verus!
