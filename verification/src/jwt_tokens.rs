//! Signing and checking the service's tokens: the claims of each kind are
//! written into a JSON object, signed as an HS256 JWT with `jsonwebtoken`,
//! and read back field by field from a token whose signature checks out.

use vstd::prelude::*;
use jsonwebtoken::{decode, encode, DecodingKey, EncodingKey, Header, Validation};
use crate::api_error::{AppError, AppErrorView};
use crate::jwt_claims::{
    Claims, DeviceRevokeClaims, SessionRefusal, SessionTokenClaims, DEVICE_REVOKE_EXP_DAYS, device_revoke_claims,
    representable, session_claims, session_token_verdict, user_claims,
};

verus! {

#[verifier::external_type_specification]
#[verifier::external_body]
#[verifier::reject_recursive_types(K)]
#[verifier::reject_recursive_types(V)]
pub struct ExJsonMap<K, V>(serde_json::Map<K, V>);

#[verifier::external_type_specification]
#[verifier::external_body]
pub struct ExJsonValue(serde_json::Value);

/// A field of a JSON object as the token logic reads it: a string, an
/// integer, or anything else (a float, a boolean, null, an array, an object).
pub ghost enum JsonField {
    Text(Seq<char>),
    Int(int),
    Other,
}

/// The fields of a JSON object, by key.
pub uninterp spec fn json_fields(m: serde_json::Map<String, serde_json::Value>) -> Map<Seq<char>, JsonField>;

/// The HS256 token that `jsonwebtoken::encode` writes, with the default
/// header, for a JSON object with these fields (strings and integers only),
/// signed with the secret's UTF-8 bytes.
pub uninterp spec fn jwt_hs256(fields: Map<Seq<char>, JsonField>, secret: Seq<char>) -> Seq<char>;

/// Whether a token is three dot-separated parts whose header names HS256 and
/// whose signature is the HMAC-SHA256 of the first two parts under the
/// secret's UTF-8 bytes.
pub uninterp spec fn jwt_signed(token: Seq<char>, secret: Seq<char>) -> bool;

/// The fields of a token's claims: its middle part, base64url-decoded and
/// read as a JSON object.
pub uninterp spec fn jwt_claims(token: Seq<char>) -> Map<Seq<char>, JsonField>;

/// A value written into a claims object.
pub enum ClaimValue {
    Text(String),
    Signed(i64),
    Unsigned(u64),
}

/// The field a written value becomes.
pub open spec fn claim_field(v: ClaimValue) -> JsonField {
    match v {
        ClaimValue::Text(s) => JsonField::Text(s@),
        ClaimValue::Signed(i) => JsonField::Int(i as int),
        ClaimValue::Unsigned(u) => JsonField::Int(u as int),
    }
}

/// A field read from a claims object: a string, or a number with what it
/// gives as `i64` and as `u64`.
pub enum ClaimRead {
    Text(String),
    Number(Option<i64>, Option<u64>),
}

/// Whether every field of an object is a string or an integer.
pub open spec fn plain_fields(f: Map<Seq<char>, JsonField>) -> bool {
    forall|k: Seq<char>| #[trigger] f.contains_key(k) ==> !(f[k] is Other)
}

/// An object with no field.
pub open spec fn no_fields() -> Map<Seq<char>, JsonField> {
    Map::empty()
}

/// `serde_json::Map::new`: an object with no field.
#[verifier::external_body]
fn json_object_new() -> (m: serde_json::Map<String, serde_json::Value>)
    ensures
        json_fields(m) == no_fields(),
{
    serde_json::Map::new()
}

/// `serde_json::Map::insert`: the field `key` now holds the value (a string,
/// or an integer number).
#[verifier::external_body]
fn json_insert(m: &mut serde_json::Map<String, serde_json::Value>, key: &str, value: ClaimValue)
    ensures
        json_fields(*final(m)) == json_fields(*old(m)).insert(key@, claim_field(value)),
{
    let v = match value {
        ClaimValue::Text(s) => serde_json::Value::String(s),
        ClaimValue::Signed(i) => serde_json::Value::from(i),
        ClaimValue::Unsigned(u) => serde_json::Value::from(u),
    };
    m.insert(key.to_string(), v);
}

/// `serde_json::Map::get`: a string field as its text, a number field as
/// what `as_i64` and `as_u64` give; nothing for a missing field or another
/// kind of value.
#[verifier::external_body]
fn json_get(m: &serde_json::Map<String, serde_json::Value>, key: &str) -> (r: Option<ClaimRead>)
    ensures
        !json_fields(*m).contains_key(key@) ==> r is None,
        json_fields(*m).contains_key(key@) ==> match json_fields(*m)[key@] {
            JsonField::Text(t) => r matches Some(ClaimRead::Text(s)) && s@ == t,
            JsonField::Int(i) => r == Some(ClaimRead::Number(
                if i64::MIN <= i <= i64::MAX { Some(i as i64) } else { None },
                if 0 <= i <= u64::MAX { Some(i as u64) } else { None },
            )),
            JsonField::Other => r is None || r == Some(ClaimRead::Number(None, None)),
        },
{
    match m.get(key) {
        Some(serde_json::Value::String(s)) => Some(ClaimRead::Text(s.clone())),
        Some(serde_json::Value::Number(n)) => Some(ClaimRead::Number(n.as_i64(), n.as_u64())),
        _ => None,
    }
}

/// `jsonwebtoken::encode` with the default header (HS256) and the secret's
/// bytes as key. It fails only when the key does not suit the header's
/// algorithm (an HMAC secret suits HS256) or the claims do not serialize (an
/// object of strings and integers always does), so here it always gives a
/// token: `jwt_hs256` of the fields, signed with the secret, carrying the
/// fields back.
#[verifier::external_body]
fn jwt_encode(claims: &serde_json::Map<String, serde_json::Value>, secret: &str) -> (r: Option<String>)
    requires
        plain_fields(json_fields(*claims)),
    ensures
        r is Some,
        r matches Some(t) ==> t@ == jwt_hs256(json_fields(*claims), secret@) && jwt_signed(t@, secret@)
            && jwt_claims(t@) == json_fields(*claims),
{
    encode(&Header::default(), claims, &EncodingKey::from_secret(secret.as_bytes())).ok()
}

/// `jsonwebtoken::decode` of a JSON object, with the secret's bytes as key
/// and the default validation (HS256 only, `exp` required and checked
/// against the clock with a minute of leeway). Whether a token has expired
/// depends on the clock, so only what holds of every success is stated: the
/// signature checked out and the object is the token's claims.
#[verifier::external_body]
fn jwt_decode(token: &str, secret: &str) -> (r: Option<serde_json::Map<String, serde_json::Value>>)
    ensures
        r matches Some(m) ==> jwt_signed(token@, secret@) && json_fields(m) == jwt_claims(token@),
{
    match decode::<serde_json::Map<String, serde_json::Value>>(token, &DecodingKey::from_secret(secret.as_bytes()), &Validation::default()) {
        Ok(data) => Some(data.claims),
        Err(_) => None,
    }
}

/// A string field's text.
pub open spec fn text_field(f: Map<Seq<char>, JsonField>, key: Seq<char>) -> Option<Seq<char>> {
    if f.contains_key(key) {
        match f[key] {
            JsonField::Text(t) => Some(t),
            _ => None,
        }
    } else {
        None
    }
}

/// An integer field's value, when it lies in `lo..=hi`.
pub open spec fn int_field(f: Map<Seq<char>, JsonField>, key: Seq<char>, lo: int, hi: int) -> Option<int> {
    if f.contains_key(key) {
        match f[key] {
            JsonField::Int(i) => if lo <= i <= hi { Some(i) } else { None },
            _ => None,
        }
    } else {
        None
    }
}

/// Reads a string field.
fn read_text(m: &serde_json::Map<String, serde_json::Value>, key: &str) -> (r: Option<String>)
    ensures
        match r {
            Some(s) => text_field(json_fields(*m), key@) == Some(s@),
            None => text_field(json_fields(*m), key@) is None,
        },
{
    match json_get(m, key) {
        Some(ClaimRead::Text(s)) => Some(s),
        _ => None,
    }
}

/// Reads an integer field that fits `usize`.
fn read_usize(m: &serde_json::Map<String, serde_json::Value>, key: &str) -> (r: Option<usize>)
    ensures
        match r {
            Some(v) => int_field(json_fields(*m), key@, 0, usize::MAX as int) == Some(v as int),
            None => int_field(json_fields(*m), key@, 0, usize::MAX as int) is None,
        },
{
    match json_get(m, key) {
        Some(ClaimRead::Number(_, Some(u))) => {
            if u <= usize::MAX as u64 {
                Some(u as usize)
            } else {
                None
            }
        },
        _ => None,
    }
}

/// Reads an integer field that fits `i64`.
fn read_i64(m: &serde_json::Map<String, serde_json::Value>, key: &str) -> (r: Option<i64>)
    ensures
        match r {
            Some(v) => int_field(json_fields(*m), key@, i64::MIN as int, i64::MAX as int) == Some(v as int),
            None => int_field(json_fields(*m), key@, i64::MIN as int, i64::MAX as int) is None,
        },
{
    match json_get(m, key) {
        Some(ClaimRead::Number(Some(i), _)) => Some(i),
        _ => None,
    }
}

/// The fields of a user's token.
pub open spec fn user_token_fields(sub: Seq<char>, email: Seq<char>, name: Seq<char>, jti: Seq<char>, exp: int, iat: int) -> Map<Seq<char>, JsonField> {
    map![
        "sub"@ => JsonField::Text(sub),
        "email"@ => JsonField::Text(email),
        "name"@ => JsonField::Text(name),
        "jti"@ => JsonField::Text(jti),
        "exp"@ => JsonField::Int(exp),
        "iat"@ => JsonField::Int(iat),
    ]
}

/// The fields of a user's token with these claims.
pub open spec fn user_fields(c: Claims) -> Map<Seq<char>, JsonField> {
    user_token_fields(c.sub@, c.email@, c.name@, c.jti@, c.exp as int, c.iat as int)
}

/// Whether an object's fields read as these user claims.
pub open spec fn reads_as_user(f: Map<Seq<char>, JsonField>, c: Claims) -> bool {
    &&& text_field(f, "sub"@) == Some(c.sub@)
    &&& text_field(f, "email"@) == Some(c.email@)
    &&& text_field(f, "name"@) == Some(c.name@)
    &&& text_field(f, "jti"@) == Some(c.jti@)
    &&& int_field(f, "exp"@, 0, usize::MAX as int) == Some(c.exp as int)
    &&& int_field(f, "iat"@, 0, usize::MAX as int) == Some(c.iat as int)
}

/// Whether an object holds every field of user claims, each of its type.
pub open spec fn has_user_fields(f: Map<Seq<char>, JsonField>) -> bool {
    &&& text_field(f, "sub"@) is Some
    &&& text_field(f, "email"@) is Some
    &&& text_field(f, "name"@) is Some
    &&& text_field(f, "jti"@) is Some
    &&& int_field(f, "exp"@, 0, usize::MAX as int) is Some
    &&& int_field(f, "iat"@, 0, usize::MAX as int) is Some
}

/// Message of a user token that does not check out.
pub open spec fn invalid_token_message() -> Seq<char> {
    "Invalid authentication token"@
}

/// Signs a user's token issued at `now` (seconds since the epoch), valid
/// `expiration_hours` hours: its claims are those of `user_claims`, it is
/// `jwt_hs256` of them under the secret, and it carries them back.
pub fn create_jwt(user_id: &str, email: &str, name: &str, jti: &str, secret: &str, expiration_hours: i64, now: i64) -> (r: Result<String, AppError>)
    requires
        representable(now as int),
        representable(now + expiration_hours * 3600),
    ensures
        r matches Ok(t) && {
            let f = user_token_fields(user_id@, email@, name@, jti@,
                ((now + expiration_hours * 3600) as usize) as int, (now as usize) as int);
            &&& t@ == jwt_hs256(f, secret@)
            &&& jwt_signed(t@, secret@)
            &&& jwt_claims(t@) == f
        },
{
    let c = user_claims(user_id, email, name, jti, now, expiration_hours);
    let mut m = json_object_new();
    json_insert(&mut m, "sub", ClaimValue::Text(c.sub.clone()));
    json_insert(&mut m, "email", ClaimValue::Text(c.email.clone()));
    json_insert(&mut m, "name", ClaimValue::Text(c.name.clone()));
    json_insert(&mut m, "jti", ClaimValue::Text(c.jti.clone()));
    json_insert(&mut m, "exp", ClaimValue::Unsigned(c.exp as u64));
    json_insert(&mut m, "iat", ClaimValue::Unsigned(c.iat as u64));
    proof {
        reveal_strlit("sub");
        reveal_strlit("email");
        reveal_strlit("name");
        reveal_strlit("jti");
        reveal_strlit("exp");
        reveal_strlit("iat");
        assert(json_fields(m) =~= user_fields(c));
    }
    Ok(jwt_encode(&m, secret).unwrap())
}

/// A user's token carries every claim back: read field by field, the
/// fields it was signed with give the same texts and instants, so reading
/// the claims of a token that `create_jwt` signed never fails.
pub proof fn lemma_user_fields_read_back(sub: Seq<char>, email: Seq<char>, name: Seq<char>, jti: Seq<char>, exp: usize, iat: usize)
    ensures
        ({
            let f = user_token_fields(sub, email, name, jti, exp as int, iat as int);
            &&& text_field(f, "sub"@) == Some(sub)
            &&& text_field(f, "email"@) == Some(email)
            &&& text_field(f, "name"@) == Some(name)
            &&& text_field(f, "jti"@) == Some(jti)
            &&& int_field(f, "exp"@, 0, usize::MAX as int) == Some(exp as int)
            &&& int_field(f, "iat"@, 0, usize::MAX as int) == Some(iat as int)
            &&& has_user_fields(f)
        }),
{
    reveal_strlit("sub");
    reveal_strlit("email");
    reveal_strlit("name");
    reveal_strlit("jti");
    reveal_strlit("exp");
    reveal_strlit("iat");
    assert("sub"@[0] == 's' && "email"@[0] == 'e' && "name"@[0] == 'n' && "jti"@[0] == 'j');
    assert("exp"@[0] == 'e' && "exp"@[1] == 'x' && "email"@[1] == 'm' && "iat"@[0] == 'i');
}

/// Law: whatever the clock decides, claims that `verify_jwt` accepts from a
/// token that `create_jwt` signed are the claims it was signed with.
pub proof fn lemma_verified_claims_are_signed_claims(token: Seq<char>, sub: Seq<char>, email: Seq<char>, name: Seq<char>, jti: Seq<char>, exp: usize, iat: usize, c: Claims)
    requires
        jwt_claims(token) == user_token_fields(sub, email, name, jti, exp as int, iat as int),
        reads_as_user(jwt_claims(token), c),
    ensures
        c.sub@ == sub && c.email@ == email && c.name@ == name && c.jti@ == jti,
        c.exp == exp && c.iat == iat,
{
    lemma_user_fields_read_back(sub, email, name, jti, exp, iat);
}

/// Checks a user's token: its signature under the secret and its expiry,
/// then reads its claims. Whatever the clock says, a token that is returned
/// as valid is signed with the secret and reads as the claims returned.
pub fn verify_jwt(token: &str, secret: &str) -> (r: Result<Claims, AppError>)
    ensures
        r matches Ok(c) ==> jwt_signed(token@, secret@) && reads_as_user(jwt_claims(token@), c),
        r matches Err(e) ==> e@ == AppErrorView::Unauthorized(invalid_token_message()),
{
    let m = match jwt_decode(token, secret) {
        Some(m) => m,
        None => return Err(AppError::Unauthorized("Invalid authentication token".to_string())),
    };
    match claims_from_object(&m) {
        Some(c) => Ok(c),
        None => Err(AppError::Unauthorized("Invalid authentication token".to_string())),
    }
}

/// Reads user claims from a decoded object: every field present and of its
/// type, or nothing.
fn claims_from_object(m: &serde_json::Map<String, serde_json::Value>) -> (r: Option<Claims>)
    ensures
        r matches Some(c) ==> reads_as_user(json_fields(*m), c),
        r is None <==> !has_user_fields(json_fields(*m)),
{
    let sub = read_text(m, "sub");
    let email = read_text(m, "email");
    let name = read_text(m, "name");
    let jti = read_text(m, "jti");
    let exp = read_usize(m, "exp");
    let iat = read_usize(m, "iat");
    match (sub, email, name, jti, exp, iat) {
        (Some(sub), Some(email), Some(name), Some(jti), Some(exp), Some(iat)) => Some(Claims { sub, email, name, jti, exp, iat }),
        _ => None,
    }
}

/// The fields of a session token.
pub open spec fn session_fields(c: SessionTokenClaims) -> Map<Seq<char>, JsonField> {
    map![
        "kind"@ => JsonField::Text(c.kind@),
        "iat"@ => JsonField::Int(c.iat as int),
        "exp"@ => JsonField::Int(c.exp as int),
    ]
}

/// Signs an anonymous session token issued at `now`, valid `ttl_seconds`:
/// `jwt_hs256` of its claims (`kind` "session", `iat`, `exp`).
pub fn issue_session_token(secret: &str, now: i64, ttl_seconds: i64) -> (r: Result<String, AppError>)
    requires
        representable(now as int),
        representable(now + ttl_seconds),
    ensures
        r matches Ok(t) && {
            let f = map!["kind"@ => JsonField::Text("session"@), "iat"@ => JsonField::Int(now as int), "exp"@ => JsonField::Int(now + ttl_seconds)];
            &&& t@ == jwt_hs256(f, secret@)
            &&& jwt_signed(t@, secret@)
            &&& jwt_claims(t@) == f
        },
{
    let c = session_claims(now, ttl_seconds);
    let mut m = json_object_new();
    json_insert(&mut m, "kind", ClaimValue::Text(c.kind.clone()));
    json_insert(&mut m, "iat", ClaimValue::Signed(c.iat));
    json_insert(&mut m, "exp", ClaimValue::Signed(c.exp));
    proof {
        reveal_strlit("kind");
        reveal_strlit("iat");
        reveal_strlit("exp");
        assert(json_fields(m) =~= session_fields(c));
    }
    Ok(jwt_encode(&m, secret).unwrap())
}

/// Whether an object reads as session-token claims: `kind` "session", and
/// `iat` and `exp` integers.
pub open spec fn reads_as_session(f: Map<Seq<char>, JsonField>) -> bool {
    &&& text_field(f, "kind"@) == Some("session"@)
    &&& int_field(f, "iat"@, i64::MIN as int, i64::MAX as int) is Some
    &&& int_field(f, "exp"@, i64::MIN as int, i64::MAX as int) is Some
}

/// A session token reads back as one: the fields it is signed with have
/// the session kind and integer instants.
pub proof fn lemma_session_fields_read_back(iat: i64, exp: i64)
    ensures
        reads_as_session(map!["kind"@ => JsonField::Text("session"@), "iat"@ => JsonField::Int(iat as int), "exp"@ => JsonField::Int(exp as int)]),
{
    reveal_strlit("kind");
    reveal_strlit("iat");
    reveal_strlit("exp");
    assert("kind"@[0] == 'k' && "iat"@[0] == 'i' && "exp"@[0] == 'e');
}

/// Whether a session token holds: not empty, signed with the secret,
/// unexpired, and of the session kind. Expiry depends on the clock, so what
/// is stated is that an empty token never holds and that a token that holds
/// is signed and reads as session claims.
pub fn validate_session_token(token: &str, secret: &str) -> (r: bool)
    ensures
        token@.len() == 0 ==> !r,
        r ==> jwt_signed(token@, secret@) && reads_as_session(jwt_claims(token@)),
{
    if token.len() == 0 {
        return false;
    }
    match jwt_decode(token, secret) {
        Some(m) => session_from_object(&m).is_some(),
        None => false,
    }
}

/// Reads session-token claims of the session kind from a decoded object.
fn session_from_object(m: &serde_json::Map<String, serde_json::Value>) -> (r: Option<SessionTokenClaims>)
    ensures
        r is Some <==> reads_as_session(json_fields(*m)),
{
    let kind = read_text(m, "kind");
    let iat = read_i64(m, "iat");
    let exp = read_i64(m, "exp");
    match (kind, iat, exp) {
        (Some(kind), Some(iat), Some(exp)) => {
            if crate::jwt_claims::is_session_kind(kind.as_str()) {
                Some(SessionTokenClaims { kind, iat, exp })
            } else {
                None
            }
        },
        _ => None,
    }
}

/// Whether an object holds session-token claims of any kind: `kind` a
/// string, `iat` and `exp` integers.
pub open spec fn session_shaped(f: Map<Seq<char>, JsonField>) -> bool {
    &&& text_field(f, "kind"@) is Some
    &&& int_field(f, "iat"@, i64::MIN as int, i64::MAX as int) is Some
    &&& int_field(f, "exp"@, i64::MIN as int, i64::MAX as int) is Some
}

/// The check of the `X-Session-Token` header: a token that is signed with
/// the secret, unexpired and holds session-token claims passes when its kind
/// is "session" and is refused as of the wrong kind otherwise; any other
/// token is refused as invalid or expired. Expiry depends on the clock, so
/// what is stated is what holds of each answer.
pub fn check_session_token(token: &str, secret: &str) -> (r: Result<(), SessionRefusal>)
    ensures
        r is Ok ==> jwt_signed(token@, secret@) && reads_as_session(jwt_claims(token@)),
        r matches Err(SessionRefusal::WrongKind) ==> jwt_signed(token@, secret@)
            && session_shaped(jwt_claims(token@)) && text_field(jwt_claims(token@), "kind"@) != Some("session"@),
        r matches Err(e) ==> e is Expired || e is WrongKind,
{
    let kind: Option<String> = match jwt_decode(token, secret) {
        Some(m) => {
            let kind = read_text(&m, "kind");
            let iat = read_i64(&m, "iat");
            let exp = read_i64(&m, "exp");
            match (kind, iat, exp) {
                (Some(k), Some(_), Some(_)) => Some(k),
                _ => None,
            }
        },
        None => None,
    };
    match kind {
        Some(k) => session_token_verdict(Some(k.as_str())),
        None => session_token_verdict(None),
    }
}

/// The fields of a device-revocation link.
pub open spec fn revoke_token_fields(sub: Seq<char>, jti: Seq<char>, device_id: Seq<char>, typ: Seq<char>, exp: int, iat: int) -> Map<Seq<char>, JsonField> {
    map![
        "sub"@ => JsonField::Text(sub),
        "jti"@ => JsonField::Text(jti),
        "device_id"@ => JsonField::Text(device_id),
        "typ"@ => JsonField::Text(typ),
        "exp"@ => JsonField::Int(exp),
        "iat"@ => JsonField::Int(iat),
    ]
}

/// The fields of a device-revocation link with these claims.
pub open spec fn revoke_fields(c: DeviceRevokeClaims) -> Map<Seq<char>, JsonField> {
    revoke_token_fields(c.sub@, c.jti@, c.device_id@, c.typ@, c.exp as int, c.iat as int)
}

/// Whether an object reads as these device-revocation claims.
pub open spec fn reads_as_revoke(f: Map<Seq<char>, JsonField>, c: DeviceRevokeClaims) -> bool {
    &&& text_field(f, "sub"@) == Some(c.sub@)
    &&& text_field(f, "jti"@) == Some(c.jti@)
    &&& text_field(f, "device_id"@) == Some(c.device_id@)
    &&& text_field(f, "typ"@) == Some(c.typ@)
    &&& int_field(f, "exp"@, 0, usize::MAX as int) == Some(c.exp as int)
    &&& int_field(f, "iat"@, 0, usize::MAX as int) == Some(c.iat as int)
}

/// Signs the link that revokes session `jti` of `user_id` on `device_id`,
/// issued at `now` and valid seven days: `jwt_hs256` of the claims of
/// `device_revoke_claims`.
pub fn issue_device_revoke_token(secret: &str, user_id: &str, jti: &str, device_id: &str, now: i64) -> (r: Result<String, AppError>)
    requires
        representable(now as int),
        representable(now + DEVICE_REVOKE_EXP_DAYS * 86400),
    ensures
        r matches Ok(t) && {
            let f = revoke_token_fields(user_id@, jti@, device_id@, "device_revoke"@,
                ((now + DEVICE_REVOKE_EXP_DAYS * 86400) as usize) as int, (now as usize) as int);
            &&& t@ == jwt_hs256(f, secret@)
            &&& jwt_signed(t@, secret@)
            &&& jwt_claims(t@) == f
        },
{
    let c = device_revoke_claims(user_id, jti, device_id, now);
    let mut m = json_object_new();
    json_insert(&mut m, "sub", ClaimValue::Text(c.sub.clone()));
    json_insert(&mut m, "jti", ClaimValue::Text(c.jti.clone()));
    json_insert(&mut m, "device_id", ClaimValue::Text(c.device_id.clone()));
    json_insert(&mut m, "typ", ClaimValue::Text(c.typ.clone()));
    json_insert(&mut m, "exp", ClaimValue::Unsigned(c.exp as u64));
    json_insert(&mut m, "iat", ClaimValue::Unsigned(c.iat as u64));
    proof {
        reveal_strlit("sub");
        reveal_strlit("jti");
        reveal_strlit("device_id");
        reveal_strlit("typ");
        reveal_strlit("exp");
        reveal_strlit("iat");
        assert(json_fields(m) =~= revoke_fields(c));
    }
    Ok(jwt_encode(&m, secret).unwrap())
}

/// Checks a device-revocation link: signature and expiry, then its claims,
/// which must be of the revocation kind. A link that is returned as valid is
/// signed with the secret and reads as the claims returned, of that kind.
pub fn verify_device_revoke_token(token: &str, secret: &str) -> (r: Option<DeviceRevokeClaims>)
    ensures
        r matches Some(c) ==> jwt_signed(token@, secret@) && reads_as_revoke(jwt_claims(token@), c)
            && c.typ@ == "device_revoke"@,
{
    let m = match jwt_decode(token, secret) {
        Some(m) => m,
        None => return None,
    };
    let sub = read_text(&m, "sub");
    let jti = read_text(&m, "jti");
    let device_id = read_text(&m, "device_id");
    let typ = read_text(&m, "typ");
    let exp = read_usize(&m, "exp");
    let iat = read_usize(&m, "iat");
    match (sub, jti, device_id, typ, exp, iat) {
        (Some(sub), Some(jti), Some(device_id), Some(typ), Some(exp), Some(iat)) => {
            if crate::jwt_claims::is_device_revoke_kind(typ.as_str()) {
                Some(DeviceRevokeClaims { sub, jti, device_id, typ, exp, iat })
            } else {
                None
            }
        },
        _ => None,
    }
}

} // verus!
