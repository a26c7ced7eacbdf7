//! Credentials: personal tokens and API keys (their formats, how they are
//! generated and stored as hashes, and when a stored one is refused), the
//! bearer header, the admin password and the Swagger basic credentials.

use vstd::prelude::*;
use vstd::utf8::encode_utf8;
use base64::Engine;
use rand::Rng;
use sha2::Digest;
use crate::api_error::{AppError, AppErrorView, err_view};
use crate::share_password::opt_str;
use crate::text::{push_char, push_str, starts_with, starts_with_seq, string_of, to_chars};

verus! {

/// What `Sha256::digest` returns for `data`.
pub uninterp spec fn sha256_digest(data: Seq<u8>) -> Seq<u8>;

/// Calls `sha2::Sha256::digest`: the SHA-256 digest of `data`, named by
/// `sha256_digest`; the output type holds 32 bytes.
#[verifier::external_body]
fn sha256(data: &[u8]) -> (r: Vec<u8>)
    ensures
        r@ == sha256_digest(data@),
        r@.len() == 32,
{
    sha2::Sha256::digest(data).to_vec()
}

/// A hexadecimal digit, lower case.
pub open spec fn hex_digit(d: int) -> char {
    if d < 10 {
        ('0' as int + d) as char
    } else {
        ('a' as int + d - 10) as char
    }
}

/// Lower-case hexadecimal text of bytes: two digits per byte, high nibble
/// first.
pub open spec fn hex_lower(b: Seq<u8>) -> Seq<char> {
    Seq::new(2 * b.len(), |i: int| if i % 2 == 0 { hex_digit(b[i / 2] as int / 16) } else { hex_digit(b[i / 2] as int % 16) })
}

/// Calls `hex::encode`, which writes each byte as two lower-case hex
/// digits, high nibble first.
#[verifier::external_body]
fn hex_encode(data: &[u8]) -> (r: String)
    ensures
        r@ == hex_lower(data@),
{
    hex::encode(data)
}

/// The stored form of a token: the hex SHA-256 of its UTF-8 bytes.
pub open spec fn spec_token_hash(token: Seq<char>) -> Seq<char> {
    hex_lower(sha256_digest(encode_utf8(token)))
}

/// The stored form of a token or key; only this hash is kept.
pub fn hash_token(token: &str) -> (r: String)
    ensures
        r@ == spec_token_hash(token@),
        r@.len() == 64,
{
    let digest = sha256(token.as_bytes());
    hex_encode(digest.as_slice())
}

/// Calls `rand::Rng::gen_range(0..n)` on the thread's generator: some index
/// below `n`. It panics on an empty range, hence `n > 0`.
#[verifier::external_body]
pub(crate) fn random_below(n: usize) -> (r: usize)
    requires
        n > 0,
    ensures
        r < n,
{
    rand::thread_rng().gen_range(0..n)
}

/// The characters a generated token draws from.
pub open spec fn token_alphabet() -> Seq<char> {
    "abcdefghijklmnopqrstuvwxyzABCDEFGHIJKLMNOPQRSTUVWXYZ0123456789"@
}

/// `prefix` followed by 40 characters of the token alphabet.
pub open spec fn is_generated_token(t: Seq<char>, prefix: Seq<char>) -> bool {
    &&& t.len() == prefix.len() + 40
    &&& t.subrange(0, prefix.len() as int) == prefix
    &&& forall|i: int| prefix.len() <= i < t.len() ==> token_alphabet().contains(#[trigger] t[i])
}

/// A new random token: `prefix` and 40 random letters and digits.
fn generate_token(prefix: &str) -> (r: String)
    ensures
        is_generated_token(r@, prefix@),
{
    let alphabet = to_chars("abcdefghijklmnopqrstuvwxyzABCDEFGHIJKLMNOPQRSTUVWXYZ0123456789");
    proof {
        reveal_strlit("abcdefghijklmnopqrstuvwxyzABCDEFGHIJKLMNOPQRSTUVWXYZ0123456789");
        assert(token_alphabet().len() == 62);
    }
    let mut r = prefix.to_string();
    let mut k: usize = 0;
    while k < 40
        invariant
            0 <= k <= 40,
            alphabet@ == token_alphabet(),
            alphabet@.len() == 62,
            r@.len() == prefix@.len() + k,
            r@.subrange(0, prefix@.len() as int) == prefix@,
            forall|i: int| prefix@.len() <= i < r@.len() ==> token_alphabet().contains(#[trigger] r@[i]),
        decreases 40 - k,
    {
        let ghost before = r@;
        let i = random_below(alphabet.len());
        let c = alphabet[i];
        push_char(&mut r, c);
        proof {
            assert(r@ == before.push(c));
            assert(r@.subrange(0, prefix@.len() as int) =~= before.subrange(0, prefix@.len() as int));
            assert(token_alphabet()[i as int] == c);
            assert forall|j: int| prefix@.len() <= j < r@.len() implies token_alphabet().contains(#[trigger] r@[j]) by {
                if j < before.len() {
                    assert(r@[j] == before[j]);
                }
            }
        }
        k = k + 1;
    }
    r
}

/// A new personal token (`sa_` and 40 letters and digits); it is shown once
/// and stored only as its hash.
pub fn generate_personal_token() -> (r: String)
    ensures
        is_generated_token(r@, "sa_"@),
{
    generate_token("sa_")
}

/// A new API key (`sk_` and 40 letters and digits).
pub fn generate_api_key() -> (r: String)
    ensures
        is_generated_token(r@, "sk_"@),
{
    generate_token("sk_")
}

/// A personal token presented to the CLI endpoints starts with `sa_` or
/// `sk_`.
pub fn check_personal_token_format(token: &str) -> (r: Result<(), AppError>)
    ensures
        r is Ok <==> (starts_with_seq(token@, "sa_"@) || starts_with_seq(token@, "sk_"@)),
        r is Err ==> err_view(r) == Some(AppErrorView::Unauthorized("Invalid token format. Expected 'sa_' or 'sk_' prefix."@)),
{
    let v = to_chars(token);
    if !starts_with(&v, "sa_") && !starts_with(&v, "sk_") {
        return Err(AppError::Unauthorized("Invalid token format. Expected 'sa_' or 'sk_' prefix.".to_string()));
    }
    Ok(())
}

/// A key presented to the public `/v1` API starts with `sak_`.
pub fn check_v1_key_format(token: &str) -> (r: Result<(), AppError>)
    ensures
        r is Ok <==> starts_with_seq(token@, "sak_"@),
        r is Err ==> err_view(r) == Some(AppErrorView::Unauthorized(
            "Invalid token format. Only API keys (sak_ prefix) are accepted on this endpoint."@,
        )),
{
    let v = to_chars(token);
    if !starts_with(&v, "sak_") {
        return Err(AppError::Unauthorized(
            "Invalid token format. Only API keys (sak_ prefix) are accepted on this endpoint.".to_string(),
        ));
    }
    Ok(())
}

/// A key presented in `X-API-Key` to the older CLI endpoints starts with
/// `sa_`.
pub fn is_cli_api_key_format(key: &str) -> (r: bool)
    ensures
        r == starts_with_seq(key@, "sa_"@),
{
    starts_with(&to_chars(key), "sa_")
}

/// The checks of a stored `/v1` API key at time `now` (milliseconds since
/// the epoch): not expired (expiry before `now`), then not revoked.
pub open spec fn spec_api_key_state(expires_at: Option<i64>, revoked: bool, now: i64) -> Option<AppErrorView> {
    if expires_at matches Some(e) && e < now {
        Some(AppErrorView::Unauthorized("API Key has expired"@))
    } else if revoked {
        Some(AppErrorView::Unauthorized("API Key has been revoked"@))
    } else {
        None
    }
}

/// Checks a stored `/v1` API key at time `now`.
pub fn check_api_key_state(expires_at: Option<i64>, revoked: bool, now: i64) -> (r: Result<(), AppError>)
    ensures
        err_view(r) == spec_api_key_state(expires_at, revoked, now),
{
    match expires_at {
        Some(e) => {
            if e < now {
                return Err(AppError::Unauthorized("API Key has expired".to_string()));
            }
        },
        None => {},
    }
    if revoked {
        return Err(AppError::Unauthorized("API Key has been revoked".to_string()));
    }
    Ok(())
}

/// Calls `chrono::Utc::now()`: the current time in milliseconds since the
/// epoch. Nothing is said of the value: it is the clock's.
#[verifier::external_body]
pub(crate) fn now_millis() -> (r: i64) {
    chrono::Utc::now().timestamp_millis()
}

/// Checks a stored `/v1` API key now: whatever the clock says, a revoked
/// key is refused and a key that never expires and is not revoked passes.
pub fn check_api_key_now(expires_at: Option<i64>, revoked: bool) -> (r: Result<(), AppError>)
    ensures
        r is Ok ==> !revoked,
        expires_at is None && !revoked ==> r is Ok,
        exists|now: i64| err_view(r) == spec_api_key_state(expires_at, revoked, now),
{
    let now = now_millis();
    check_api_key_state(expires_at, revoked, now)
}

/// The expiry check of a stored personal token at time `now`.
pub fn check_personal_token_expiry(expires_at: Option<i64>, now: i64) -> (r: Result<(), AppError>)
    ensures
        r is Ok <==> !(expires_at matches Some(e) && e < now),
        r is Err ==> err_view(r) == Some(AppErrorView::Unauthorized("Personal Token has expired."@)),
{
    match expires_at {
        Some(e) => {
            if e < now {
                return Err(AppError::Unauthorized("Personal Token has expired.".to_string()));
            }
        },
        None => {},
    }
    Ok(())
}

/// The token of an `Authorization: Bearer <token>` header.
pub open spec fn spec_bearer_token(header: Option<Seq<char>>) -> Result<Seq<char>, AppErrorView> {
    match header {
        None => Err(AppErrorView::Unauthorized("Authentication required"@)),
        Some(h) => if starts_with_seq(h, "Bearer "@) {
            Ok(h.subrange(7, h.len() as int))
        } else {
            Err(AppErrorView::Unauthorized("Bearer token required"@))
        },
    }
}

/// The token of a required `Authorization` header.
pub fn bearer_token(header: Option<&str>) -> (r: Result<String, AppError>)
    ensures
        match r {
            Ok(t) => spec_bearer_token(opt_str(header)) == Ok::<Seq<char>, AppErrorView>(t@),
            Err(e) => spec_bearer_token(opt_str(header)) == Err::<Seq<char>, AppErrorView>(e@),
        },
{
    match header {
        None => Err(AppError::Unauthorized("Authentication required".to_string())),
        Some(h) => {
            let v = to_chars(h);
            proof { reveal_strlit("Bearer "); }
            if starts_with(&v, "Bearer ") {
                Ok(string_of(&v, 7, v.len()))
            } else {
                Err(AppError::Unauthorized("Bearer token required".to_string()))
            }
        },
    }
}

/// Constant-time comparison: whether two byte strings are equal, looking at
/// every byte of equal-length strings.
fn same_bytes(a: &[u8], b: &[u8]) -> (r: bool)
    ensures
        r == (a@ == b@),
{
    if a.len() != b.len() {
        return false;
    }
    let mut acc: u8 = 0;
    let mut i: usize = 0;
    while i < a.len()
        invariant
            0 <= i <= a.len(),
            a@.len() == b@.len(),
            (acc == 0) == (forall|j: int| 0 <= j < i ==> a@[j] == b@[j]),
        decreases a.len() - i,
    {
        let x = a[i];
        let y = b[i];
        let next = acc | (x ^ y);
        assert((next == 0) == (acc == 0 && x == y)) by (bit_vector)
            requires
                next == acc | (x ^ y),
        ;
        proof {
            if next == 0 {
                assert forall|j: int| 0 <= j < i + 1 implies a@[j] == b@[j] by {
                    if j == i {
                        assert(a@[j] == x && b@[j] == y);
                    }
                }
            }
        }
        acc = next;
        i = i + 1;
    }
    proof {
        if acc == 0 {
            assert(a@ =~= b@);
        }
    }
    acc == 0
}

/// The admin check: an admin password must be configured, and the
/// `X-Admin-Password` header (empty when absent) must equal it byte for
/// byte.
pub open spec fn spec_admin_password(expected: Seq<char>, provided: Option<Seq<char>>) -> Option<AppErrorView> {
    let p = match provided {
        Some(p) => p,
        None => Seq::<char>::empty(),
    };
    if expected.len() == 0 {
        Some(AppErrorView::Unauthorized("Admin password not configured"@))
    } else if encode_utf8(p) != encode_utf8(expected) {
        Some(AppErrorView::Unauthorized("Invalid admin password"@))
    } else {
        None
    }
}

/// Checks the admin password header against the configured one.
pub fn verify_admin_password(expected: &str, provided: Option<&str>) -> (r: Result<(), AppError>)
    ensures
        err_view(r) == spec_admin_password(expected@, opt_str(provided)),
{
    if expected.is_empty() {
        return Err(AppError::Unauthorized("Admin password not configured".to_string()));
    }
    let p: &str = match provided {
        Some(p) => p,
        None => "",
    };
    proof { reveal_strlit(""); }
    if !same_bytes(p.as_bytes(), expected.as_bytes()) {
        return Err(AppError::Unauthorized("Invalid admin password".to_string()));
    }
    Ok(())
}

/// The character of one 6-bit value in the standard base64 alphabet
/// (RFC 4648): `A`-`Z`, `a`-`z`, `0`-`9`, `+`, `/`.
pub open spec fn base64_digit(v: int) -> char {
    if v < 26 {
        ('A' as int + v) as char
    } else if v < 52 {
        ('a' as int + (v - 26)) as char
    } else if v < 62 {
        ('0' as int + (v - 52)) as char
    } else if v == 62 {
        '+'
    } else {
        '/'
    }
}

/// Standard base64 with padding (RFC 4648): each group of three bytes
/// becomes four characters; a last group of one or two bytes is padded
/// with `=`.
pub open spec fn base64_standard(d: Seq<u8>) -> Seq<char>
    decreases d.len(),
{
    if d.len() == 0 {
        Seq::empty()
    } else {
        let a = d[0] as int;
        let b = if d.len() > 1 { d[1] as int } else { 0 };
        let c = if d.len() > 2 { d[2] as int } else { 0 };
        let c1 = base64_digit(a / 4);
        let c2 = base64_digit((a % 4) * 16 + b / 16);
        let c3 = base64_digit((b % 16) * 4 + c / 64);
        let c4 = base64_digit(c % 64);
        if d.len() == 1 {
            seq![c1, c2, '=', '=']
        } else if d.len() == 2 {
            seq![c1, c2, c3, '=']
        } else {
            seq![c1, c2, c3, c4] + base64_standard(d.skip(3))
        }
    }
}

/// Calls the standard (padded) base64 engine's `encode`, which writes
/// `base64_standard` of the bytes.
#[verifier::external_body]
fn base64_encode(data: &[u8]) -> (r: String)
    ensures
        r@ == base64_standard(data@),
{
    base64::engine::general_purpose::STANDARD.encode(data)
}

/// The API documentation pages sit behind basic authentication.
pub fn swagger_protected_path(path: &str) -> (r: bool)
    ensures
        r == (starts_with_seq(path@, "/swagger-ui"@) || starts_with_seq(path@, "/api-docs/"@)),
{
    let v = to_chars(path);
    starts_with(&v, "/swagger-ui") || starts_with(&v, "/api-docs/")
}

/// The basic-auth check of the documentation pages: credentials must be
/// configured, and the header must be `Basic ` and the base64 of
/// `user:password`.
pub open spec fn spec_swagger_authorized(username: Seq<char>, password: Seq<char>, authorization: Option<Seq<char>>) -> bool {
    &&& username.len() > 0
    &&& password.len() > 0
    &&& authorization matches Some(h)
    &&& starts_with_seq(h, "Basic "@)
    &&& h.subrange(6, h.len() as int) == base64_standard(encode_utf8(username + ":"@ + password))
}

/// Whether a request for the documentation pages carries the configured
/// basic credentials.
pub fn swagger_authorized(username: &str, password: &str, authorization: Option<&str>) -> (r: bool)
    ensures
        r == spec_swagger_authorized(username@, password@, opt_str(authorization)),
{
    if username.is_empty() || password.is_empty() {
        return false;
    }
    let mut expected = username.to_string();
    push_str(&mut expected, ":");
    push_str(&mut expected, password);
    let expected_b64 = base64_encode(expected.as_str().as_bytes());
    match authorization {
        None => false,
        Some(h) => {
            let v = to_chars(h);
            proof { reveal_strlit("Basic "); }
            if !starts_with(&v, "Basic ") {
                return false;
            }
            let provided = string_of(&v, 6, v.len());
            provided == expected_b64
        },
    }
}

} // verus!
