use share_anything::api_error::PublicApiError;
use share_anything::scope::Scope;
use share_anything::ws_auth::{authorize_ws_key, authorize_ws_key_at, ws_api_key};

fn values(v: &[&str]) -> Vec<Option<String>> {
    v.iter().map(|s| Some(s.to_string())).collect()
}

fn unauthorized(r: Result<String, PublicApiError>) -> String {
    match r {
        Err(PublicApiError::Unauthorized(m)) => m,
        other => panic!("expected unauthorized, got {:?}", other),
    }
}

#[test]
fn key_travels_as_a_subprotocol() {
    assert_eq!(ws_api_key(&values(&["share-anything.v1, api-key.sak_abc"])).unwrap(), "sak_abc");
    assert_eq!(ws_api_key(&values(&["api-key.sak_1", "share-anything.v1", " api-key.sak_2 "])).unwrap(), "sak_2");
}

#[test]
fn missing_or_malformed_subprotocols() {
    assert_eq!(unauthorized(ws_api_key(&values(&["api-key.sak_abc"]))), "Missing 'share-anything.v1' subprotocol on WebSocket upgrade.");
    assert_eq!(
        unauthorized(ws_api_key(&values(&["share-anything.v1"]))),
        "Missing 'api-key.<sak_...>' subprotocol on WebSocket upgrade."
    );
    assert_eq!(
        unauthorized(ws_api_key(&values(&["share-anything.v1,api-key.sa_abc"]))),
        "Invalid token format. Only API keys (sak_ prefix) are accepted."
    );
    assert_eq!(unauthorized(ws_api_key(&vec![Some("share-anything.v1".to_string()), None])), "Invalid Sec-WebSocket-Protocol header");
    assert!(ws_api_key(&Vec::new()).is_err());
}

#[test]
fn stored_key_needs_p2p_scope() {
    assert!(authorize_ws_key(None, false, &vec![Scope::P2pTransfer]).is_ok());
    match authorize_ws_key(None, false, &vec![Scope::Read]) {
        Err(PublicApiError::InsufficientScope(s)) => assert_eq!(s, "p2p_transfer"),
        other => panic!("{:?}", other),
    }
    match authorize_ws_key(None, true, &vec![Scope::P2pTransfer]) {
        Err(PublicApiError::Unauthorized(m)) => assert_eq!(m, "API Key has been revoked"),
        other => panic!("{:?}", other),
    }
    match authorize_ws_key(Some(0), false, &vec![Scope::P2pTransfer]) {
        Err(PublicApiError::Unauthorized(m)) => assert_eq!(m, "API Key has expired"),
        other => panic!("{:?}", other),
    }
}

#[test]
fn stored_key_checks_at_a_given_time() {
    let p2p = vec![Scope::P2pTransfer];
    assert!(authorize_ws_key_at(Some(2_000), false, &p2p, 1_000).is_ok());
    match authorize_ws_key_at(Some(2_000), false, &p2p, 3_000) {
        Err(PublicApiError::Unauthorized(m)) => assert_eq!(m, "API Key has expired"),
        other => panic!("{:?}", other),
    }
    match authorize_ws_key_at(Some(2_000), true, &p2p, 3_000) {
        Err(PublicApiError::Unauthorized(m)) => assert_eq!(m, "API Key has expired"),
        other => panic!("{:?}", other),
    }
    match authorize_ws_key_at(Some(2_000), true, &p2p, 1_000) {
        Err(PublicApiError::Unauthorized(m)) => assert_eq!(m, "API Key has been revoked"),
        other => panic!("{:?}", other),
    }
    match authorize_ws_key_at(None, false, &vec![Scope::Read], 1_000) {
        Err(PublicApiError::InsufficientScope(s)) => assert_eq!(s, "p2p_transfer"),
        other => panic!("{:?}", other),
    }
}
