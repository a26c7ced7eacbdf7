use share_anything::turn::{ice_servers_from, turn_credentials_url, turn_relay_count, CloudflareIceServer, StringOrVec};

#[test]
fn urls_as_a_list() {
    assert_eq!(StringOrVec::Single("turn:a".to_string()).into_vec(), vec!["turn:a".to_string()]);
    assert_eq!(
        StringOrVec::Multiple(vec!["a".to_string(), "b".to_string()]).into_vec(),
        vec!["a".to_string(), "b".to_string()]
    );
}

#[test]
fn stun_first_then_cloudflare_servers() {
    let cf = vec![
        CloudflareIceServer {
            urls: StringOrVec::Multiple(vec!["turn:turn.cloudflare.com:3478?transport=udp".to_string(), "turns:turn.cloudflare.com:5349".to_string()]),
            username: Some("user".to_string()),
            credential: Some("cred".to_string()),
        },
        CloudflareIceServer { urls: StringOrVec::Single("stun:stun.cloudflare.com:3478".to_string()), username: None, credential: None },
    ];
    let servers = ice_servers_from(cf);
    assert_eq!(servers.len(), 3);
    assert_eq!(servers[0].urls, vec!["stun:stun.cloudflare.com:3478".to_string()]);
    assert_eq!(servers[1].username.as_deref(), Some("user"));
    assert_eq!(servers[1].urls.len(), 2);
    assert_eq!(turn_relay_count(&servers), 1);
}

#[test]
fn credentials_endpoint() {
    assert_eq!(
        turn_credentials_url("key123"),
        "https://rtc.live.cloudflare.com/v1/turn/keys/key123/credentials/generate-ice-servers"
    );
}
