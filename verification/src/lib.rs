//! Verified core of the ShareAnything file-sharing service: access scopes,
//! public API errors, rate limiting, upload and download policies, link
//! previews and the helpers that parse what clients send.

pub mod account;
pub mod api_error;
pub mod api_keys;
pub mod bulk_zip;
pub mod cli_auth;
pub mod config;
pub mod convert;
pub mod credentials;
pub mod download;
pub mod email_auth;
pub mod error_alerts;
pub mod health_probes;
pub mod jwt_claims;
pub mod jwt_tokens;
pub mod og;
pub mod og_i18n;
pub mod peer_table;
pub mod quick_access;
pub mod rate_limiter;
pub mod request_info;
pub mod scope;
pub mod share_codes;
pub mod signaling;
pub mod share_password;
pub mod text;
pub mod turn;
pub mod upload_policy;
pub mod upload_response;
pub mod upload_session;
pub mod v1;
pub mod ws_auth;
pub mod zip_names;
