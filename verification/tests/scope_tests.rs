use share_anything::api_error::PublicApiError;
use share_anything::scope::{require_scope, require_token, PersonalTokenUser, Scope};

fn user(scopes: Vec<Scope>) -> PersonalTokenUser {
    PersonalTokenUser {
        user_id: "u1".into(),
        personal_token_id: "t1".into(),
        scopes,
    }
}

#[test]
fn allows_when_scope_present() {
    let u = user(vec![Scope::Read, Scope::Upload]);
    assert!(require_scope(&u, Scope::Read).is_ok());
}

#[test]
fn rejects_when_scope_missing() {
    let u = user(vec![Scope::Read]);
    let err = require_scope(&u, Scope::Delete).unwrap_err();
    assert!(matches!(err, PublicApiError::InsufficientScope("delete")));
}

#[test]
fn p2p_scope_has_its_own_name() {
    let u = user(vec![]);
    let err = require_scope(&u, Scope::P2pTransfer).unwrap_err();
    assert!(matches!(err, PublicApiError::InsufficientScope("p2p_transfer")));
    assert_eq!(err.message(), "This endpoint requires the 'p2p_transfer' scope.");
}

#[test]
fn missing_token_is_unauthorized() {
    match require_token(None) {
        Err(PublicApiError::Unauthorized(m)) => {
            assert_eq!(m, "Missing or invalid Personal Token. Set the 'X-Personal-Token' header.")
        }
        _ => panic!("expected unauthorized"),
    }
    let u = user(vec![Scope::Read]);
    assert_eq!(require_token(Some(&u)).unwrap().user_id, "u1");
}
