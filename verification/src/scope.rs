//! Scopes carried by API keys and personal tokens, and the checks that the
//! public API runs against them.

use vstd::prelude::*;
use crate::api_error::{missing_token_message, PublicApiError};

verus! {

/// A permission granted to an API key.
#[derive(Debug, Clone, Copy, PartialEq, Eq, Structural)]
pub enum Scope {
    Read,
    Upload,
    Delete,
    P2pTransfer,
}

/// Wire name of a scope.
pub open spec fn scope_name(s: Scope) -> Seq<char> {
    match s {
        Scope::Read => seq!['r', 'e', 'a', 'd'],
        Scope::Upload => seq!['u', 'p', 'l', 'o', 'a', 'd'],
        Scope::Delete => seq!['d', 'e', 'l', 'e', 't', 'e'],
        Scope::P2pTransfer => seq!['p', '2', 'p', '_', 't', 'r', 'a', 'n', 's', 'f', 'e', 'r'],
    }
}

impl Scope {
    /// The wire name of the scope, as used in error messages and stored lists.
    pub fn as_str(&self) -> (r: &'static str)
        ensures
            r@ == scope_name(*self),
    {
        match self {
            Scope::Read => {
                let s = "read";
                proof {
                    reveal_strlit("read");
                }
                s
            },
            Scope::Upload => {
                let s = "upload";
                proof {
                    reveal_strlit("upload");
                }
                s
            },
            Scope::Delete => {
                let s = "delete";
                proof {
                    reveal_strlit("delete");
                }
                s
            },
            Scope::P2pTransfer => {
                let s = "p2p_transfer";
                proof {
                    reveal_strlit("p2p_transfer");
                }
                s
            },
        }
    }
}


/// The scope a stored name names.
pub open spec fn spec_parse_scope(s: Seq<char>) -> Option<Scope> {
    if s == scope_name(Scope::Read) {
        Some(Scope::Read)
    } else if s == scope_name(Scope::Upload) {
        Some(Scope::Upload)
    } else if s == scope_name(Scope::Delete) {
        Some(Scope::Delete)
    } else if s == scope_name(Scope::P2pTransfer) {
        Some(Scope::P2pTransfer)
    } else {
        None
    }
}

impl Scope {
    /// The scope a stored name names, if any.
    pub fn parse(s: &str) -> (r: Option<Scope>)
        ensures
            r == spec_parse_scope(s@),
    {
        let v = crate::text::to_chars(s);
        if crate::text::eq_str(&v, Scope::Read.as_str()) {
            Some(Scope::Read)
        } else if crate::text::eq_str(&v, Scope::Upload.as_str()) {
            Some(Scope::Upload)
        } else if crate::text::eq_str(&v, Scope::Delete.as_str()) {
            Some(Scope::Delete)
        } else if crate::text::eq_str(&v, Scope::P2pTransfer.as_str()) {
            Some(Scope::P2pTransfer)
        } else {
            None
        }
    }
}

/// Law: every scope is read back from its stored name.
pub proof fn lemma_scope_name_round_trip(s: Scope)
    ensures
        spec_parse_scope(scope_name(s)) == Some(s),
{
}

/// The identity attached to a request authenticated by an API key or a
/// personal token, with the scopes that the key grants.
#[derive(Debug, Clone)]
pub struct PersonalTokenUser {
    pub user_id: String,
    pub personal_token_id: String,
    pub scopes: Vec<Scope>,
}

/// The identity attached to a request authenticated by a legacy API key.
#[derive(Debug, Clone)]
pub struct ApiKeyUser {
    pub user_id: String,
    pub api_key_id: String,
}

/// Whether `scope` occurs in `scopes`.
pub fn contains_scope(scopes: &Vec<Scope>, scope: Scope) -> (r: bool)
    ensures
        r == scopes@.contains(scope),
{
    let mut i: usize = 0;
    while i < scopes.len()
        invariant
            0 <= i <= scopes.len(),
            forall|j: int| 0 <= j < i ==> scopes@[j] != scope,
        decreases scopes.len() - i,
    {
        if scopes[i] == scope {
            proof {
                assert(scopes@[i as int] == scope);
            }
            return true;
        }
        i = i + 1;
    }
    false
}

/// The request must be authenticated by a token: its identity, or
/// `Unauthorized` with the message that tells the client which header to set.
pub fn require_token(token: Option<&PersonalTokenUser>) -> (r: Result<&PersonalTokenUser, PublicApiError>)
    ensures
        token is Some ==> r == Ok::<&PersonalTokenUser, PublicApiError>(token->0),
        token is None ==> (r matches Err(PublicApiError::Unauthorized(m)) && m@ == missing_token_message()),
{
    match token {
        Some(u) => Ok(u),
        None => {
            let m = "Missing or invalid Personal Token. Set the 'X-Personal-Token' header.";
            Err(PublicApiError::Unauthorized(m.to_string()))
        },
    }
}

/// The request's key must grant `scope`; otherwise `InsufficientScope` names it.
pub fn require_scope(user: &PersonalTokenUser, scope: Scope) -> (r: Result<(), PublicApiError>)
    ensures
        user.scopes@.contains(scope) <==> r is Ok,
        !user.scopes@.contains(scope) ==> (r matches Err(PublicApiError::InsufficientScope(s))
            && s@ == scope_name(scope)),
{
    if contains_scope(&user.scopes, scope) {
        Ok(())
    } else {
        Err(PublicApiError::InsufficientScope(scope.as_str()))
    }
}

} // verus!
