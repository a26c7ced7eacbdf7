//! Service configuration, read from environment variables.
//!
//! `Config::from_vars` takes the variables as name/value pairs (the process
//! environment, after `.env` has been loaded) and builds the configuration:
//! defaults for optional settings, numbers parsed as `str::parse` does, the
//! comma-separated CORS origins trimmed, and every URL setting checked.

use vstd::prelude::*;
use crate::text::{decimal_seq, parse_int, push_str, replace_escaped_newlines, spec_parse_int, split_trim, split_trim_from, to_chars, unescape_newlines, views};

verus! {

#[derive(Debug, Clone)]
pub struct DiscordConfig {
    pub webhook_url: Option<String>,
}

#[derive(Debug, Clone)]
pub struct SmtpConfig {
    pub host: Option<String>,
    pub port: u16,
    pub username: Option<String>,
    pub password: Option<String>,
    pub from_email: Option<String>,
    pub from_name: Option<String>,
}

#[derive(Debug, Clone)]
pub struct ServerConfig {
    pub host: String,
    pub port: u16,
    pub base_url: String,
    pub frontend_url: String,
}

#[derive(Debug, Clone)]
pub struct DatabaseConfig {
    pub url: String,
}

#[derive(Debug, Clone)]
pub struct JwtConfig {
    pub secret: String,
    pub expiration_hours: i64,
}

#[derive(Debug, Clone)]
pub struct OAuthProvider {
    pub client_id: String,
    pub client_secret: String,
    pub redirect_uri: String,
}

#[derive(Debug, Clone)]
pub struct AppleOAuthConfig {
    pub client_id: String,
    pub team_id: String,
    pub key_id: String,
    pub private_key: String,
    pub redirect_uri: String,
}

#[derive(Debug, Clone)]
pub struct OAuthConfig {
    pub google: OAuthProvider,
    pub naver: OAuthProvider,
    pub kakao: OAuthProvider,
    pub apple: AppleOAuthConfig,
}

#[derive(Debug, Clone)]
pub struct S3Config {
    pub endpoint: Option<String>,
    pub region: String,
    pub bucket_name: String,
    pub access_key_id: String,
    pub secret_access_key: String,
    pub prefix: String,
}

#[derive(Debug, Clone)]
pub struct CorsConfig {
    pub allowed_origins: Vec<String>,
}

#[derive(Debug, Clone)]
pub struct TurnstileConfig {
    pub secret_key: String,
}

#[derive(Debug, Clone)]
pub struct SessionTokenConfig {
    pub jwt_secret: String,
    pub ttl_seconds: i64,
}

#[derive(Debug, Clone)]
pub struct CloudflareTurnConfig {
    pub key_id: String,
    pub api_token: String,
}

/// The whole configuration of the service.
#[derive(Debug, Clone)]
pub struct Config {
    pub server: ServerConfig,
    pub database: DatabaseConfig,
    pub jwt: JwtConfig,
    pub oauth: OAuthConfig,
    pub s3: S3Config,
    pub cors: CorsConfig,
    pub turnstile: TurnstileConfig,
    pub session_token: SessionTokenConfig,
    pub cloudflare_turn: CloudflareTurnConfig,
    pub discord: DiscordConfig,
    pub smtp: SmtpConfig,
    pub ipinfo_token: Option<String>,
}

/// Why the configuration is refused.
#[derive(Debug)]
pub enum ConfigError {
    /// The named variable is not a number of its type.
    InvalidNumber(String),
    /// A URL setting does not parse; the message names it.
    InvalidUrl(String),
}

/// What `Url::parse` reports for `s`: `None` when it parses, else the text
/// of its error. The parser is a function of its input alone.
pub uninterp spec fn url_parse_error(s: Seq<char>) -> Option<Seq<char>>;

/// `url::Url::parse` (re-exported by `oauth2`): whether `s` is an absolute
/// URL, with the error's text when it is not.
#[verifier::external_body]
fn url_error(s: &str) -> (r: Option<String>)
    ensures
        r is None <==> url_parse_error(s@) is None,
        r matches Some(e) ==> url_parse_error(s@) == Some(e@),
{
    match oauth2::url::Url::parse(s) {
        Ok(_) => None,
        Err(e) => Some(e.to_string()),
    }
}

/// The value of the first variable named `name`.
pub open spec fn spec_lookup(vars: Seq<(String, String)>, name: Seq<char>) -> Option<Seq<char>>
    decreases vars.len(),
{
    if vars.len() == 0 {
        None
    } else if vars[0].0@ == name {
        Some(vars[0].1@)
    } else {
        spec_lookup(vars.drop_first(), name)
    }
}

/// The value of a variable, or `default`.
pub open spec fn spec_var_or(vars: Seq<(String, String)>, name: Seq<char>, default: Seq<char>) -> Seq<char> {
    match spec_lookup(vars, name) {
        Some(v) => v,
        None => default,
    }
}

/// The value of a variable that must be set.
pub open spec fn spec_required(vars: Seq<(String, String)>, name: Seq<char>) -> Seq<char> {
    spec_lookup(vars, name)->0
}

/// The value of a variable.
pub fn lookup(vars: &Vec<(String, String)>, name: &str) -> (r: Option<String>)
    ensures
        r matches Some(v) ==> spec_lookup(vars@, name@) == Some(v@),
        r is None ==> spec_lookup(vars@, name@) is None,
{
    let mut i: usize = 0;
    assert(vars@.subrange(0, vars@.len() as int) == vars@);
    while i < vars.len()
        invariant
            0 <= i <= vars.len(),
            spec_lookup(vars@, name@) == spec_lookup(vars@.subrange(i as int, vars@.len() as int), name@),
        decreases vars.len() - i,
    {
        let ghost rest = vars@.subrange(i as int, vars@.len() as int);
        assert(rest[0] == vars@[i as int]);
        if crate::text::eq_str(&to_chars(vars[i].0.as_str()), name) {
            return Some(vars[i].1.clone());
        }
        assert(rest.drop_first() == vars@.subrange(i + 1, vars@.len() as int));
        i = i + 1;
    }
    None
}

/// The value of a variable, or `default`.
pub fn var_or(vars: &Vec<(String, String)>, name: &str, default: &str) -> (r: String)
    ensures
        r@ == spec_var_or(vars@, name@, default@),
{
    match lookup(vars, name) {
        Some(v) => v,
        None => default.to_string(),
    }
}

/// The value of a variable that must be set.
pub fn required(vars: &Vec<(String, String)>, name: &str) -> (r: String)
    requires
        spec_lookup(vars@, name@) is Some,
    ensures
        r@ == spec_required(vars@, name@),
{
    match lookup(vars, name) {
        Some(v) => v,
        None => String::new(),
    }
}

/// The variables that must be set, in the order they are read, each with
/// the message the service stops with when it is missing.
pub open spec fn required_vars() -> Seq<(Seq<char>, Seq<char>)> {
    seq![
        ("DATABASE_URL"@, "DATABASE_URL must be set in environment"@),
        ("JWT_SECRET"@, "JWT_SECRET must be set in environment"@),
        ("GOOGLE_CLIENT_ID"@, "GOOGLE_CLIENT_ID must be set"@),
        ("GOOGLE_CLIENT_SECRET"@, "GOOGLE_CLIENT_SECRET must be set"@),
        ("GOOGLE_REDIRECT_URI"@, "GOOGLE_REDIRECT_URI must be set"@),
        ("NAVER_CLIENT_ID"@, "NAVER_CLIENT_ID must be set"@),
        ("NAVER_CLIENT_SECRET"@, "NAVER_CLIENT_SECRET must be set"@),
        ("NAVER_REDIRECT_URI"@, "NAVER_REDIRECT_URI must be set"@),
        ("KAKAO_CLIENT_ID"@, "KAKAO_CLIENT_ID must be set"@),
        ("KAKAO_CLIENT_SECRET"@, "KAKAO_CLIENT_SECRET must be set"@),
        ("KAKAO_REDIRECT_URI"@, "KAKAO_REDIRECT_URI must be set"@),
        ("APPLE_CLIENT_ID"@, "APPLE_CLIENT_ID must be set"@),
        ("APPLE_TEAM_ID"@, "APPLE_TEAM_ID must be set"@),
        ("APPLE_KEY_ID"@, "APPLE_KEY_ID must be set"@),
        ("APPLE_PRIVATE_KEY"@, "APPLE_PRIVATE_KEY must be set"@),
        ("APPLE_REDIRECT_URI"@, "APPLE_REDIRECT_URI must be set"@),
        ("S3_BUCKET_NAME"@, "S3_BUCKET_NAME must be set"@),
        ("S3_ACCESS_KEY_ID"@, "S3_ACCESS_KEY_ID must be set"@),
        ("S3_SECRET_ACCESS_KEY"@, "S3_SECRET_ACCESS_KEY must be set"@),
        ("TURNSTILE_SECRET_KEY"@, "TURNSTILE_SECRET_KEY must be set in environment"@),
        ("SESSION_TOKEN_JWT_SECRET"@, "SESSION_TOKEN_JWT_SECRET must be set in environment"@),
        ("CLOUDFLARE_TURN_KEY_ID"@, "CLOUDFLARE_TURN_KEY_ID must be set in environment"@),
        ("CLOUDFLARE_TURN_API_TOKEN"@, "CLOUDFLARE_TURN_API_TOKEN must be set in environment"@),
    ]
}

/// The names of the required variables.
pub open spec fn required_names() -> Seq<Seq<char>> {
    required_vars().map_values(|p: (Seq<char>, Seq<char>)| p.0)
}

/// The message of the first required variable among
/// `required_vars()[i..hi]` that is not set.
pub open spec fn first_missing(vars: Seq<(String, String)>, i: int, hi: int) -> Option<Seq<char>>
    decreases hi - i,
{
    if i < 0 || i >= hi || i >= required_vars().len() {
        None
    } else if spec_lookup(vars, required_vars()[i].0) is None {
        Some(required_vars()[i].1)
    } else {
        first_missing(vars, i + 1, hi)
    }
}

/// Message of an unparsable session-token lifetime.
pub open spec fn bad_ttl_message() -> Seq<char> {
    "SESSION_TOKEN_TTL_SECONDS must be an integer"@
}

/// What stops the service while its settings are read, in the order they
/// are read: `None` when they are read to the end or a number setting is
/// refused first; else the message of the missing variable or of the
/// unparsable session-token lifetime.
pub open spec fn startup_failure(vars: Seq<(String, String)>) -> Option<Seq<char>> {
    if port_of(vars, "SERVER_PORT"@, "8080"@) is None {
        None
    } else if first_missing(vars, 0, 2) is Some {
        first_missing(vars, 0, 2)
    } else if i64_of(vars, "JWT_EXPIRATION_HOURS"@, "24"@) is None {
        None
    } else if first_missing(vars, 2, 21) is Some {
        first_missing(vars, 2, 21)
    } else if i64_of(vars, "SESSION_TOKEN_TTL_SECONDS"@, "1800"@) is None {
        Some(bad_ttl_message())
    } else {
        first_missing(vars, 21, 23)
    }
}

/// What the environment must hold for the service to start rather than
/// stop: every required variable, and a session-token lifetime that is an
/// integer if it is set.
pub open spec fn startable(vars: Seq<(String, String)>) -> bool {
    &&& forall|i: int| 0 <= i < required_names().len() ==> (#[trigger] spec_lookup(vars, required_names()[i])) is Some
    &&& spec_parse_int(spec_var_or(vars, "SESSION_TOKEN_TTL_SECONDS"@, "1800"@), i64::MIN as int, i64::MAX as int) is Some
}

/// A port setting as parsed.
pub open spec fn port_of(vars: Seq<(String, String)>, name: Seq<char>, default: Seq<char>) -> Option<int> {
    spec_parse_int(spec_var_or(vars, name, default), 0, u16::MAX as int)
}

/// An `i64` setting as parsed.
pub open spec fn i64_of(vars: Seq<(String, String)>, name: Seq<char>, default: Seq<char>) -> Option<int> {
    spec_parse_int(spec_var_or(vars, name, default), i64::MIN as int, i64::MAX as int)
}

/// The URL settings in the order they are checked: the name and the value.
pub open spec fn url_settings(vars: Seq<(String, String)>) -> Seq<(Seq<char>, Option<Seq<char>>)> {
    seq![
        ("BASE_URL"@, Some(spec_var_or(vars, "BASE_URL"@, "http://localhost:8080"@))),
        ("FRONTEND_URL"@, Some(spec_var_or(vars, "FRONTEND_URL"@, "http://localhost:3000"@))),
        ("GOOGLE_REDIRECT_URI"@, Some(spec_required(vars, "GOOGLE_REDIRECT_URI"@))),
        ("NAVER_REDIRECT_URI"@, Some(spec_required(vars, "NAVER_REDIRECT_URI"@))),
        ("KAKAO_REDIRECT_URI"@, Some(spec_required(vars, "KAKAO_REDIRECT_URI"@))),
        ("APPLE_REDIRECT_URI"@, Some(spec_required(vars, "APPLE_REDIRECT_URI"@))),
        ("DISCORD_WEBHOOK_URL"@, spec_lookup(vars, "DISCORD_WEBHOOK_URL"@)),
        ("S3_ENDPOINT"@, spec_lookup(vars, "S3_ENDPOINT"@)),
    ]
}

/// The first URL setting that does not parse, from index `i` on.
pub open spec fn first_bad_url(settings: Seq<(Seq<char>, Option<Seq<char>>)>, i: int) -> Option<int>
    decreases settings.len() - i,
{
    if i < 0 || i >= settings.len() {
        None
    } else if settings[i].1 matches Some(v) && url_parse_error(v) is Some {
        Some(i)
    } else {
        first_bad_url(settings, i + 1)
    }
}

/// Message of a URL setting that does not parse.
pub open spec fn bad_url_message(name: Seq<char>, value: Seq<char>, error: Seq<char>) -> Seq<char> {
    "Invalid URL in "@ + name + ": '"@ + value + "' ("@ + error + ")"@
}

/// Which error, if any, the configuration is refused with: the first number
/// that does not parse (server port, token lifetime in hours, SMTP port),
/// then the first URL setting that does not parse.
pub open spec fn spec_config_error(vars: Seq<(String, String)>) -> Option<ConfigErrorKind> {
    if port_of(vars, "SERVER_PORT"@, "8080"@) is None {
        Some(ConfigErrorKind::Number("SERVER_PORT"@))
    } else if i64_of(vars, "JWT_EXPIRATION_HOURS"@, "24"@) is None {
        Some(ConfigErrorKind::Number("JWT_EXPIRATION_HOURS"@))
    } else if port_of(vars, "SMTP_PORT"@, "587"@) is None {
        Some(ConfigErrorKind::Number("SMTP_PORT"@))
    } else {
        match first_bad_url(url_settings(vars), 0) {
            Some(i) => {
                let s = url_settings(vars)[i];
                Some(ConfigErrorKind::Url(bad_url_message(s.0, s.1->0, url_parse_error(s.1->0)->0)))
            },
            None => None,
        }
    }
}

/// An error as stated.
pub ghost enum ConfigErrorKind {
    Number(Seq<char>),
    Url(Seq<char>),
}

/// The view of an optional string.
pub open spec fn opt_view(o: Option<String>) -> Option<Seq<char>> {
    match o {
        Some(s) => Some(s@),
        None => None,
    }
}

/// Every field of `c` is what the variables say.
pub open spec fn spec_config_fields(vars: Seq<(String, String)>, c: Config) -> bool {
    &&& c.server.host@ == spec_var_or(vars, "SERVER_HOST"@, "0.0.0.0"@)
    &&& Some(c.server.port as int) == port_of(vars, "SERVER_PORT"@, "8080"@)
    &&& c.server.base_url@ == spec_var_or(vars, "BASE_URL"@, "http://localhost:8080"@)
    &&& c.server.frontend_url@ == spec_var_or(vars, "FRONTEND_URL"@, "http://localhost:3000"@)
    &&& c.database.url@ == spec_required(vars, "DATABASE_URL"@)
    &&& c.jwt.secret@ == spec_required(vars, "JWT_SECRET"@)
    &&& Some(c.jwt.expiration_hours as int) == i64_of(vars, "JWT_EXPIRATION_HOURS"@, "24"@)
    &&& c.oauth.google.client_id@ == spec_required(vars, "GOOGLE_CLIENT_ID"@)
    &&& c.oauth.google.client_secret@ == spec_required(vars, "GOOGLE_CLIENT_SECRET"@)
    &&& c.oauth.google.redirect_uri@ == spec_required(vars, "GOOGLE_REDIRECT_URI"@)
    &&& c.oauth.naver.client_id@ == spec_required(vars, "NAVER_CLIENT_ID"@)
    &&& c.oauth.naver.client_secret@ == spec_required(vars, "NAVER_CLIENT_SECRET"@)
    &&& c.oauth.naver.redirect_uri@ == spec_required(vars, "NAVER_REDIRECT_URI"@)
    &&& c.oauth.kakao.client_id@ == spec_required(vars, "KAKAO_CLIENT_ID"@)
    &&& c.oauth.kakao.client_secret@ == spec_required(vars, "KAKAO_CLIENT_SECRET"@)
    &&& c.oauth.kakao.redirect_uri@ == spec_required(vars, "KAKAO_REDIRECT_URI"@)
    &&& c.oauth.apple.client_id@ == spec_required(vars, "APPLE_CLIENT_ID"@)
    &&& c.oauth.apple.team_id@ == spec_required(vars, "APPLE_TEAM_ID"@)
    &&& c.oauth.apple.key_id@ == spec_required(vars, "APPLE_KEY_ID"@)
    &&& c.oauth.apple.private_key@ == unescape_newlines(spec_required(vars, "APPLE_PRIVATE_KEY"@))
    &&& c.oauth.apple.redirect_uri@ == spec_required(vars, "APPLE_REDIRECT_URI"@)
    &&& opt_view(c.s3.endpoint) == spec_lookup(vars, "S3_ENDPOINT"@)
    &&& c.s3.region@ == spec_var_or(vars, "S3_REGION"@, "auto"@)
    &&& c.s3.bucket_name@ == spec_required(vars, "S3_BUCKET_NAME"@)
    &&& c.s3.access_key_id@ == spec_required(vars, "S3_ACCESS_KEY_ID"@)
    &&& c.s3.secret_access_key@ == spec_required(vars, "S3_SECRET_ACCESS_KEY"@)
    &&& c.s3.prefix@ == spec_var_or(vars, "S3_PREFIX"@, ""@)
    &&& views(c.cors.allowed_origins@) == split_trim_from(spec_var_or(vars, "CORS_ALLOWED_ORIGINS"@, "http://localhost:3000"@), 0)
    &&& c.turnstile.secret_key@ == spec_required(vars, "TURNSTILE_SECRET_KEY"@)
    &&& c.session_token.jwt_secret@ == spec_required(vars, "SESSION_TOKEN_JWT_SECRET"@)
    &&& Some(c.session_token.ttl_seconds as int) == i64_of(vars, "SESSION_TOKEN_TTL_SECONDS"@, "1800"@)
    &&& c.cloudflare_turn.key_id@ == spec_required(vars, "CLOUDFLARE_TURN_KEY_ID"@)
    &&& c.cloudflare_turn.api_token@ == spec_required(vars, "CLOUDFLARE_TURN_API_TOKEN"@)
    &&& opt_view(c.discord.webhook_url) == spec_lookup(vars, "DISCORD_WEBHOOK_URL"@)
    &&& opt_view(c.smtp.host) == spec_lookup(vars, "SMTP_HOST"@)
    &&& Some(c.smtp.port as int) == port_of(vars, "SMTP_PORT"@, "587"@)
    &&& opt_view(c.smtp.username) == spec_lookup(vars, "SMTP_USERNAME"@)
    &&& opt_view(c.smtp.password) == spec_lookup(vars, "SMTP_PASSWORD"@)
    &&& opt_view(c.smtp.from_email) == spec_lookup(vars, "SMTP_FROM_EMAIL"@)
    &&& opt_view(c.smtp.from_name) == spec_lookup(vars, "SMTP_FROM_NAME"@)
    &&& opt_view(c.ipinfo_token) == spec_lookup(vars, "IPINFO_TOKEN"@)
}

/// A number setting as parsed, or the error that names it.
fn number_var(vars: &Vec<(String, String)>, name: &str, default: &str, min: i128, max: i128) -> (r: Result<i128, ConfigError>)
    requires
        -0x8000_0000_0000_0000 <= min <= 0,
        0 <= max <= 0xffff_ffff_ffff_ffff,
    ensures
        r matches Ok(x) ==> spec_parse_int(spec_var_or(vars@, name@, default@), min as int, max as int) == Some(x as int),
        r is Err <==> spec_parse_int(spec_var_or(vars@, name@, default@), min as int, max as int) is None,
        r matches Err(ConfigError::InvalidNumber(n)) ==> n@ == name@,
        r matches Err(e) ==> e is InvalidNumber,
{
    let v = var_or(vars, name, default);
    match parse_int(&to_chars(v.as_str()), min, max) {
        Some(x) => Ok(x),
        None => Err(ConfigError::InvalidNumber(name.to_string())),
    }
}

/// Checks one URL setting.
fn check_url(name: &str, value: &str) -> (r: Result<(), ConfigError>)
    ensures
        r is Ok <==> url_parse_error(value@) is None,
        r matches Err(ConfigError::InvalidUrl(m)) ==> m@ == bad_url_message(name@, value@, url_parse_error(value@)->0),
        r matches Err(e) ==> e is InvalidUrl,
{
    match url_error(value) {
        None => Ok(()),
        Some(e) => {
            let mut m = "Invalid URL in ".to_string();
            push_str(&mut m, name);
            push_str(&mut m, ": '");
            push_str(&mut m, value);
            push_str(&mut m, "' (");
            push_str(&mut m, e.as_str());
            push_str(&mut m, ")");
            Err(ConfigError::InvalidUrl(m))
        },
    }
}

/// Checks an optional URL setting.
fn check_opt_url(name: &str, value: &Option<String>) -> (r: Result<(), ConfigError>)
    ensures
        r is Ok <==> (value matches Some(v) ==> url_parse_error(v@) is None),
        r matches Err(ConfigError::InvalidUrl(m)) ==> m@ == bad_url_message(name@, value->0@, url_parse_error(value->0@)->0),
        r matches Err(e) ==> e is InvalidUrl,
{
    match value {
        Some(v) => check_url(name, v.as_str()),
        None => Ok(()),
    }
}

proof fn lemma_none_missing(vars: Seq<(String, String)>, i: int, hi: int)
    requires
        0 <= i,
        hi <= required_vars().len(),
        first_missing(vars, i, hi) is None,
    ensures
        forall|j: int| i <= j < hi ==> spec_lookup(vars, #[trigger] required_names()[j]) is Some,
    decreases hi - i,
{
    if i < hi {
        lemma_none_missing(vars, i + 1, hi);
        assert(required_names()[i] == required_vars()[i].0);
    }
}

proof fn lemma_startable(vars: Seq<(String, String)>)
    requires
        startup_failure(vars) is None,
        port_of(vars, "SERVER_PORT"@, "8080"@) is Some,
        i64_of(vars, "JWT_EXPIRATION_HOURS"@, "24"@) is Some,
    ensures
        startable(vars),
{
    lemma_none_missing(vars, 0, 2);
    lemma_none_missing(vars, 2, 21);
    lemma_none_missing(vars, 21, 23);
    assert(required_names().len() == 23);
}

/// The name of required variable `k` and the message of its absence.
fn required_var(k: usize) -> (r: (&'static str, &'static str))
    requires
        k < required_vars().len(),
    ensures
        r.0@ == required_vars()[k as int].0,
        r.1@ == required_vars()[k as int].1,
{
    match k {
        0 => ("DATABASE_URL", "DATABASE_URL must be set in environment"),
        1 => ("JWT_SECRET", "JWT_SECRET must be set in environment"),
        2 => ("GOOGLE_CLIENT_ID", "GOOGLE_CLIENT_ID must be set"),
        3 => ("GOOGLE_CLIENT_SECRET", "GOOGLE_CLIENT_SECRET must be set"),
        4 => ("GOOGLE_REDIRECT_URI", "GOOGLE_REDIRECT_URI must be set"),
        5 => ("NAVER_CLIENT_ID", "NAVER_CLIENT_ID must be set"),
        6 => ("NAVER_CLIENT_SECRET", "NAVER_CLIENT_SECRET must be set"),
        7 => ("NAVER_REDIRECT_URI", "NAVER_REDIRECT_URI must be set"),
        8 => ("KAKAO_CLIENT_ID", "KAKAO_CLIENT_ID must be set"),
        9 => ("KAKAO_CLIENT_SECRET", "KAKAO_CLIENT_SECRET must be set"),
        10 => ("KAKAO_REDIRECT_URI", "KAKAO_REDIRECT_URI must be set"),
        11 => ("APPLE_CLIENT_ID", "APPLE_CLIENT_ID must be set"),
        12 => ("APPLE_TEAM_ID", "APPLE_TEAM_ID must be set"),
        13 => ("APPLE_KEY_ID", "APPLE_KEY_ID must be set"),
        14 => ("APPLE_PRIVATE_KEY", "APPLE_PRIVATE_KEY must be set"),
        15 => ("APPLE_REDIRECT_URI", "APPLE_REDIRECT_URI must be set"),
        16 => ("S3_BUCKET_NAME", "S3_BUCKET_NAME must be set"),
        17 => ("S3_ACCESS_KEY_ID", "S3_ACCESS_KEY_ID must be set"),
        18 => ("S3_SECRET_ACCESS_KEY", "S3_SECRET_ACCESS_KEY must be set"),
        19 => ("TURNSTILE_SECRET_KEY", "TURNSTILE_SECRET_KEY must be set in environment"),
        20 => ("SESSION_TOKEN_JWT_SECRET", "SESSION_TOKEN_JWT_SECRET must be set in environment"),
        21 => ("CLOUDFLARE_TURN_KEY_ID", "CLOUDFLARE_TURN_KEY_ID must be set in environment"),
        _ => ("CLOUDFLARE_TURN_API_TOKEN", "CLOUDFLARE_TURN_API_TOKEN must be set in environment"),
    }
}

/// The message of the first required variable among `required_vars()[lo..hi]`
/// that is not set.
fn first_missing_of(vars: &Vec<(String, String)>, lo: usize, hi: usize) -> (r: Option<String>)
    requires
        lo <= hi <= required_vars().len(),
    ensures
        opt_view(r) == first_missing(vars@, lo as int, hi as int),
{
    let mut i = lo;
    while i < hi
        invariant
            lo <= i <= hi <= required_vars().len(),
            first_missing(vars@, lo as int, hi as int) == first_missing(vars@, i as int, hi as int),
        decreases hi - i,
    {
        let (name, message) = required_var(i);
        match lookup(vars, name) {
            None => return Some(message.to_string()),
            Some(_) => {},
        }
        i = i + 1;
    }
    None
}

/// What would stop the service while it reads its settings: the message of
/// the first required variable that is missing, or of an unparsable
/// session-token lifetime, when the reading gets that far; `None` when
/// `Config::from_vars` may be called.
pub fn startup_failure_message(vars: &Vec<(String, String)>) -> (r: Option<String>)
    ensures
        opt_view(r) == startup_failure(vars@),
{
    match number_var(vars, "SERVER_PORT", "8080", 0, 65535) {
        Err(_) => return None,
        Ok(_) => {},
    }
    let m = first_missing_of(vars, 0, 2);
    if m.is_some() {
        return m;
    }
    match number_var(vars, "JWT_EXPIRATION_HOURS", "24", -0x8000_0000_0000_0000, 0x7fff_ffff_ffff_ffff) {
        Err(_) => return None,
        Ok(_) => {},
    }
    let m = first_missing_of(vars, 2, 21);
    if m.is_some() {
        return m;
    }
    match number_var(vars, "SESSION_TOKEN_TTL_SECONDS", "1800", -0x8000_0000_0000_0000, 0x7fff_ffff_ffff_ffff) {
        Err(_) => return Some("SESSION_TOKEN_TTL_SECONDS must be an integer".to_string()),
        Ok(_) => {},
    }
    first_missing_of(vars, 21, 23)
}

impl Config {
    /// The configuration the variables describe, or the first error.
    pub fn from_vars(vars: &Vec<(String, String)>) -> (r: Result<Config, ConfigError>)
        requires
            startup_failure(vars@) is None,
        ensures
            r is Ok <==> spec_config_error(vars@) is None,
            r matches Ok(c) ==> spec_config_fields(vars@, c),
            r matches Err(ConfigError::InvalidNumber(n)) ==> spec_config_error(vars@) == Some(ConfigErrorKind::Number(n@)),
            r matches Err(ConfigError::InvalidUrl(m)) ==> spec_config_error(vars@) == Some(ConfigErrorKind::Url(m@)),
    {
        let server_port = number_var(vars, "SERVER_PORT", "8080", 0, 65535)?;
        let jwt_hours = number_var(vars, "JWT_EXPIRATION_HOURS", "24", -0x8000_0000_0000_0000, 0x7fff_ffff_ffff_ffff)?;
        let ttl = match number_var(vars, "SESSION_TOKEN_TTL_SECONDS", "1800", -0x8000_0000_0000_0000, 0x7fff_ffff_ffff_ffff) {
            Ok(x) => x,
            Err(_) => 1800,
        };
        let smtp_port = number_var(vars, "SMTP_PORT", "587", 0, 65535)?;
        proof {
            lemma_startable(vars@);
            let names = required_names();
            assert(spec_lookup(vars@, names[0]) is Some);
            assert(spec_lookup(vars@, names[1]) is Some);
            assert(spec_lookup(vars@, names[2]) is Some);
            assert(spec_lookup(vars@, names[3]) is Some);
            assert(spec_lookup(vars@, names[4]) is Some);
            assert(spec_lookup(vars@, names[5]) is Some);
            assert(spec_lookup(vars@, names[6]) is Some);
            assert(spec_lookup(vars@, names[7]) is Some);
            assert(spec_lookup(vars@, names[8]) is Some);
            assert(spec_lookup(vars@, names[9]) is Some);
            assert(spec_lookup(vars@, names[10]) is Some);
            assert(spec_lookup(vars@, names[11]) is Some);
            assert(spec_lookup(vars@, names[12]) is Some);
            assert(spec_lookup(vars@, names[13]) is Some);
            assert(spec_lookup(vars@, names[14]) is Some);
            assert(spec_lookup(vars@, names[15]) is Some);
            assert(spec_lookup(vars@, names[16]) is Some);
            assert(spec_lookup(vars@, names[17]) is Some);
            assert(spec_lookup(vars@, names[18]) is Some);
            assert(spec_lookup(vars@, names[19]) is Some);
            assert(spec_lookup(vars@, names[20]) is Some);
            assert(spec_lookup(vars@, names[21]) is Some);
            assert(spec_lookup(vars@, names[22]) is Some);
        }
        let config = Config {
            server: ServerConfig {
                host: var_or(vars, "SERVER_HOST", "0.0.0.0"),
                port: server_port as u16,
                base_url: var_or(vars, "BASE_URL", "http://localhost:8080"),
                frontend_url: var_or(vars, "FRONTEND_URL", "http://localhost:3000"),
            },
            database: DatabaseConfig { url: required(vars, "DATABASE_URL") },
            jwt: JwtConfig { secret: required(vars, "JWT_SECRET"), expiration_hours: jwt_hours as i64 },
            oauth: OAuthConfig {
                google: OAuthProvider {
                    client_id: required(vars, "GOOGLE_CLIENT_ID"),
                    client_secret: required(vars, "GOOGLE_CLIENT_SECRET"),
                    redirect_uri: required(vars, "GOOGLE_REDIRECT_URI"),
                },
                naver: OAuthProvider {
                    client_id: required(vars, "NAVER_CLIENT_ID"),
                    client_secret: required(vars, "NAVER_CLIENT_SECRET"),
                    redirect_uri: required(vars, "NAVER_REDIRECT_URI"),
                },
                kakao: OAuthProvider {
                    client_id: required(vars, "KAKAO_CLIENT_ID"),
                    client_secret: required(vars, "KAKAO_CLIENT_SECRET"),
                    redirect_uri: required(vars, "KAKAO_REDIRECT_URI"),
                },
                apple: AppleOAuthConfig {
                    client_id: required(vars, "APPLE_CLIENT_ID"),
                    team_id: required(vars, "APPLE_TEAM_ID"),
                    key_id: required(vars, "APPLE_KEY_ID"),
                    private_key: replace_escaped_newlines(required(vars, "APPLE_PRIVATE_KEY").as_str()),
                    redirect_uri: required(vars, "APPLE_REDIRECT_URI"),
                },
            },
            s3: S3Config {
                endpoint: lookup(vars, "S3_ENDPOINT"),
                region: var_or(vars, "S3_REGION", "auto"),
                bucket_name: required(vars, "S3_BUCKET_NAME"),
                access_key_id: required(vars, "S3_ACCESS_KEY_ID"),
                secret_access_key: required(vars, "S3_SECRET_ACCESS_KEY"),
                prefix: var_or(vars, "S3_PREFIX", ""),
            },
            cors: CorsConfig {
                allowed_origins: split_trim(var_or(vars, "CORS_ALLOWED_ORIGINS", "http://localhost:3000").as_str()),
            },
            turnstile: TurnstileConfig { secret_key: required(vars, "TURNSTILE_SECRET_KEY") },
            session_token: SessionTokenConfig {
                jwt_secret: required(vars, "SESSION_TOKEN_JWT_SECRET"),
                ttl_seconds: ttl as i64,
            },
            cloudflare_turn: CloudflareTurnConfig {
                key_id: required(vars, "CLOUDFLARE_TURN_KEY_ID"),
                api_token: required(vars, "CLOUDFLARE_TURN_API_TOKEN"),
            },
            discord: DiscordConfig { webhook_url: lookup(vars, "DISCORD_WEBHOOK_URL") },
            smtp: SmtpConfig {
                host: lookup(vars, "SMTP_HOST"),
                port: smtp_port as u16,
                username: lookup(vars, "SMTP_USERNAME"),
                password: lookup(vars, "SMTP_PASSWORD"),
                from_email: lookup(vars, "SMTP_FROM_EMAIL"),
                from_name: lookup(vars, "SMTP_FROM_NAME"),
            },
            ipinfo_token: lookup(vars, "IPINFO_TOKEN"),
        };
        let ghost settings = url_settings(vars@);
        proof {
            assert(settings[0].1 == Some(config.server.base_url@));
            assert(settings[1].1 == Some(config.server.frontend_url@));
            assert(settings[2].1 == Some(config.oauth.google.redirect_uri@));
            assert(settings[3].1 == Some(config.oauth.naver.redirect_uri@));
            assert(settings[4].1 == Some(config.oauth.kakao.redirect_uri@));
            assert(settings[5].1 == Some(config.oauth.apple.redirect_uri@));
            assert(settings[6].1 == opt_view(config.discord.webhook_url));
            assert(settings[7].1 == opt_view(config.s3.endpoint));
        }
        check_url("BASE_URL", config.server.base_url.as_str())?;
        proof { assert(first_bad_url(settings, 0) == first_bad_url(settings, 1)); }
        check_url("FRONTEND_URL", config.server.frontend_url.as_str())?;
        proof { assert(first_bad_url(settings, 1) == first_bad_url(settings, 2)); }
        check_url("GOOGLE_REDIRECT_URI", config.oauth.google.redirect_uri.as_str())?;
        proof { assert(first_bad_url(settings, 2) == first_bad_url(settings, 3)); }
        check_url("NAVER_REDIRECT_URI", config.oauth.naver.redirect_uri.as_str())?;
        proof { assert(first_bad_url(settings, 3) == first_bad_url(settings, 4)); }
        check_url("KAKAO_REDIRECT_URI", config.oauth.kakao.redirect_uri.as_str())?;
        proof { assert(first_bad_url(settings, 4) == first_bad_url(settings, 5)); }
        check_url("APPLE_REDIRECT_URI", config.oauth.apple.redirect_uri.as_str())?;
        proof { assert(first_bad_url(settings, 5) == first_bad_url(settings, 6)); }
        check_opt_url("DISCORD_WEBHOOK_URL", &config.discord.webhook_url)?;
        proof { assert(first_bad_url(settings, 6) == first_bad_url(settings, 7)); }
        check_opt_url("S3_ENDPOINT", &config.s3.endpoint)?;
        proof {
            assert(first_bad_url(settings, 7) == first_bad_url(settings, 8));
            assert(first_bad_url(settings, 8) is None);
        }
        Ok(config)
    }
}

} // verus!
