//! Passwords of protected shares: hashing the password an uploader sets,
//! and checking the password a downloader supplies against the stored hash.

use vstd::prelude::*;
use crate::api_error::{AppError, AppErrorView, err_view};

verus! {

/// What `bcrypt::verify(password, hash)` returns: whether the password
/// matches the stored hash, or `None` where the hash cannot be read.
pub uninterp spec fn bcrypt_verdict(password: Seq<char>, hash: Seq<char>) -> Option<bool>;

/// Calls `bcrypt::verify`. Its result depends on the two arguments alone
/// (the salt and cost are read from the hash), so it is named by
/// `bcrypt_verdict`; an unreadable hash gives `None`.
#[verifier::external_body]
fn bcrypt_verify(password: &str, hash: &str) -> (r: Option<bool>)
    ensures
        r == bcrypt_verdict(password@, hash@),
{
    bcrypt::verify(password, hash).ok()
}

/// Calls `bcrypt::hash` with the crate's default cost. The salt is random,
/// so nothing is said of the hash itself; what bcrypt's source shows is that
/// `verify` accepts the same password against it. It fails only where the
/// system gives no random salt, and then `None` comes back.
#[verifier::external_body]
fn bcrypt_hash(password: &str) -> (r: Option<String>)
    ensures
        r matches Some(h) ==> bcrypt_verdict(password@, h@) == Some(true),
{
    bcrypt::hash(password, bcrypt::DEFAULT_COST).ok()
}

/// Message of a share password that does not match.
pub open spec fn incorrect_password_message() -> Seq<char> {
    "Incorrect password"@
}

/// The internal error of a password check on the web download paths.
pub open spec fn verification_failed_message() -> Seq<char> {
    "Password verification failed"@
}

/// How the outcome of a password check is answered: a match passes, a
/// mismatch is `401 Incorrect password`, an unreadable hash is an internal
/// error with message `failure`.
pub open spec fn spec_password_verdict(verdict: Option<bool>, failure: Seq<char>) -> Option<AppErrorView> {
    match verdict {
        Some(true) => None,
        Some(false) => Some(AppErrorView::Unauthorized(incorrect_password_message())),
        None => Some(AppErrorView::Internal(failure)),
    }
}

/// Answers the outcome of a password check.
pub fn password_verdict(verdict: Option<bool>, failure: &str) -> (r: Result<(), AppError>)
    ensures
        err_view(r) == spec_password_verdict(verdict, failure@),
{
    match verdict {
        Some(true) => Ok(()),
        Some(false) => Err(AppError::Unauthorized("Incorrect password".to_string())),
        None => Err(AppError::Internal(failure.to_string())),
    }
}

/// The password check of a share download: a share without a password
/// passes; one with a password needs it supplied (else `401` with
/// `missing`), and then it must match the stored hash (an unreadable hash is
/// an internal error with message `failure`).
pub open spec fn spec_check_share_password(hash: Option<Seq<char>>, supplied: Option<Seq<char>>, missing: Seq<char>, failure: Seq<char>) -> Option<AppErrorView> {
    match hash {
        None => None,
        Some(h) => match supplied {
            None => Some(AppErrorView::Unauthorized(missing)),
            Some(p) => spec_password_verdict(bcrypt_verdict(p, h), failure),
        },
    }
}

/// The view of an optional text.
pub open spec fn opt_str(o: Option<&str>) -> Option<Seq<char>> {
    match o {
        Some(s) => Some(s@),
        None => None,
    }
}

/// Checks the password supplied for a share against its stored hash.
pub fn check_share_password(hash: Option<&str>, supplied: Option<&str>, missing: &str, failure: &str) -> (r: Result<(), AppError>)
    ensures
        err_view(r) == spec_check_share_password(opt_str(hash), opt_str(supplied), missing@, failure@),
{
    match hash {
        None => Ok(()),
        Some(h) => match supplied {
            None => Err(AppError::Unauthorized(missing.to_string())),
            Some(p) => password_verdict(bcrypt_verify(p, h), failure),
        },
    }
}

/// Whether a downloader joining a P2P share may proceed: a share without a
/// password admits anyone; otherwise the supplied password (empty when
/// none) must match, and an unreadable hash counts as a mismatch.
pub open spec fn spec_p2p_password_ok(hash: Option<Seq<char>>, supplied: Option<Seq<char>>) -> bool {
    match hash {
        None => true,
        Some(h) => {
            let p = match supplied {
                Some(p) => p,
                None => Seq::<char>::empty(),
            };
            bcrypt_verdict(p, h) == Some(true)
        },
    }
}

/// The password check of a P2P join.
pub fn p2p_password_ok(hash: Option<&str>, supplied: Option<&str>) -> (r: bool)
    ensures
        r == spec_p2p_password_ok(opt_str(hash), opt_str(supplied)),
{
    match hash {
        None => true,
        Some(h) => {
            let p: &str = match supplied {
                Some(p) => p,
                None => "",
            };
            proof {
                reveal_strlit("");
                assert(opt_str(supplied) is None ==> p@ == Seq::<char>::empty());
                assert(opt_str(supplied) matches Some(q) ==> p@ == q);
            }
            match bcrypt_verify(p, h) {
                Some(b) => b,
                None => false,
            }
        },
    }
}

/// Hashes the password an uploader sets on a share; no password, no hash.
pub fn hash_share_password(password: Option<&str>) -> (r: Result<Option<String>, AppError>)
    ensures
        password is None ==> r matches Ok(None),
        password matches Some(p) ==> match r {
            Ok(Some(h)) => bcrypt_verdict(p@, h@) == Some(true),
            Ok(None) => false,
            Err(e) => e@ == AppErrorView::Internal("Failed to hash password"@),
        },
{
    match password {
        None => Ok(None),
        Some(p) => match bcrypt_hash(p) {
            Some(h) => Ok(Some(h)),
            None => Err(AppError::Internal("Failed to hash password".to_string())),
        },
    }
}

/// Law: the password an uploader set is accepted when a downloader supplies
/// it, over HTTP and over P2P signaling alike.
pub proof fn lemma_set_password_is_accepted(password: Seq<char>, hash: Seq<char>, missing: Seq<char>, failure: Seq<char>)
    requires
        bcrypt_verdict(password, hash) == Some(true),
    ensures
        spec_check_share_password(Some(hash), Some(password), missing, failure) is None,
        spec_p2p_password_ok(Some(hash), Some(password)),
{
}

/// Law: a protected share is never downloaded without a password, and a
/// password that does not match is answered `401 Incorrect password`.
pub proof fn lemma_protected_share_needs_its_password(hash: Seq<char>, supplied: Option<Seq<char>>, missing: Seq<char>, failure: Seq<char>)
    ensures
        supplied is None ==> spec_check_share_password(Some(hash), supplied, missing, failure) == Some(AppErrorView::Unauthorized(missing)),
        supplied matches Some(p) ==> (bcrypt_verdict(p, hash) == Some(false)
            ==> spec_check_share_password(Some(hash), supplied, missing, failure) == Some(AppErrorView::Unauthorized(incorrect_password_message()))),
        supplied matches Some(p) ==> (spec_check_share_password(Some(hash), supplied, missing, failure) is None
            ==> bcrypt_verdict(p, hash) == Some(true)),
{
}

} // verus!
