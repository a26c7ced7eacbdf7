use share_anything::download::FileShare;
use share_anything::peer_table::PeerTable;
use share_anything::share_password::hash_share_password;
use share_anything::signaling::{
    code_to_look_up, message_label, P2pStatus, P2pStatusQuery, PeerRole, SignalAction, SignalingHub, SignalingMessage,
};

fn share(transfer: &str, password_hash: Option<String>) -> Option<FileShare> {
    Some(FileShare {
        id: "f1".to_string(),
        file_name: "a.bin".to_string(),
        file_size: 10,
        file_type: "application/octet-stream".to_string(),
        storage_key: String::new(),
        transfer_type: transfer.to_string(),
        password_hash,
        is_one_time: true,
        user_id: None,
        device_id: None,
    })
}

fn ready(hub: &mut SignalingHub, code: &str, peer: &str) {
    let msg = SignalingMessage::UploaderReady { share_code: code.to_string(), peer_id: String::new(), device_info: Some("Mac".to_string()) };
    hub.handle_message(peer, msg, &share("p2p", None)).unwrap();
}

fn join(code: &str, password: Option<&str>) -> SignalingMessage {
    SignalingMessage::DownloaderJoin {
        share_code: code.to_string(),
        peer_id: String::new(),
        file_name: Some("a.bin".to_string()),
        device_info: Some("Phone".to_string()),
        password: password.map(|p| p.to_string()),
    }
}

fn sent_to(a: &SignalAction) -> &str {
    match a {
        SignalAction::Send { to, .. } => to.as_str(),
        _ => panic!("not a send"),
    }
}

#[test]
fn peer_table_maps_keys_to_values() {
    let mut t = PeerTable::new();
    t.insert("a".to_string(), "1".to_string());
    t.insert("b".to_string(), "2".to_string());
    t.insert("a".to_string(), "3".to_string());
    assert_eq!(t.get("a"), Some("3".to_string()));
    assert_eq!(t.get("c"), None);
    assert!(t.remove("a"));
    assert!(!t.remove("a"));
    t.insert("c".to_string(), "2".to_string());
    let mut keys = t.keys_with_value("2");
    keys.sort();
    assert_eq!(keys, vec!["b".to_string(), "c".to_string()]);
}

#[test]
fn uploader_ready_registers_the_uploader() {
    let mut hub = SignalingHub::new();
    let acts = hub
        .handle_message("up-1", SignalingMessage::UploaderReady { share_code: "111111".to_string(), peer_id: String::new(), device_info: None }, &share("p2p", None))
        .unwrap();
    assert_eq!(hub.find_uploader("111111"), Some("up-1".to_string()));
    match &acts[0] {
        SignalAction::SetP2pStatus { share_code, status, uploader_peer, required } => {
            assert_eq!(share_code, "111111");
            assert_eq!(status.as_str(), "waiting");
            assert_eq!(uploader_peer.as_deref(), Some("up-1"));
            assert!(*required);
        }
        _ => panic!("expected a status update"),
    }
}

#[test]
fn uploader_ready_needs_an_existing_p2p_share() {
    let mut hub = SignalingHub::new();
    let msg = || SignalingMessage::UploaderReady { share_code: "2".to_string(), peer_id: String::new(), device_info: None };
    assert_eq!(hub.handle_message("u", msg(), &None).unwrap_err(), "Share code not found");
    assert_eq!(hub.handle_message("u", msg(), &share("server", None)).unwrap_err(), "This share is not configured for P2P transfer");
    assert_eq!(hub.find_uploader("2"), None);
}

#[test]
fn join_matches_the_two_peers() {
    let mut hub = SignalingHub::new();
    ready(&mut hub, "333333", "up");
    let acts = hub.handle_message("down", join("333333", None), &share("p2p", None)).unwrap();
    assert_eq!(hub.find_downloader("333333"), Some("down".to_string()));
    assert_eq!(acts.len(), 3);
    match &acts[0] {
        SignalAction::Send { to, message: SignalingMessage::PeerMatched { peer_id, role, device_info, .. }, required } => {
            assert_eq!(to, "up");
            assert_eq!(peer_id, "down");
            assert!(matches!(role, PeerRole::Downloader));
            assert_eq!(device_info.as_deref(), Some("Phone"));
            assert!(*required);
        }
        _ => panic!("expected peer_matched to the uploader"),
    }
    match &acts[1] {
        SignalAction::Send { to, message: SignalingMessage::PeerMatched { peer_id, role, device_info, .. }, .. } => {
            assert_eq!(to, "down");
            assert_eq!(peer_id, "up");
            assert!(matches!(role, PeerRole::Uploader));
            assert_eq!(device_info.as_deref(), Some("Mac"));
        }
        _ => panic!("expected peer_matched to the downloader"),
    }
    assert!(matches!(&acts[2], SignalAction::SetP2pStatus { status: P2pStatus::Connected, .. }));
}

#[test]
fn join_without_an_uploader_is_refused() {
    let mut hub = SignalingHub::new();
    assert_eq!(hub.handle_message("down", join("444444", None), &share("p2p", None)).unwrap_err(), "Uploader is not online");
    assert_eq!(hub.find_downloader("444444"), None);
}

#[test]
fn join_of_a_protected_share_needs_its_password() {
    let hash = hash_share_password(Some("hunter2")).unwrap();
    let mut hub = SignalingHub::new();
    ready(&mut hub, "555555", "up");
    let wrong = hub.handle_message("down", join("555555", Some("nope")), &share("p2p", hash.clone())).unwrap_err();
    assert_eq!(wrong, "Incorrect password for this share");
    let missing = hub.handle_message("down", join("555555", None), &share("p2p", hash.clone())).unwrap_err();
    assert_eq!(missing, "Incorrect password for this share");
    assert_eq!(hub.find_downloader("555555"), None);
    assert!(hub.handle_message("down", join("555555", Some("hunter2")), &share("p2p", hash)).is_ok());
}

#[test]
fn handshake_messages_reach_the_other_side() {
    let mut hub = SignalingHub::new();
    ready(&mut hub, "666666", "up");
    hub.handle_message("down", join("666666", None), &share("p2p", None)).unwrap();

    let offer = SignalingMessage::Offer { share_code: "666666".to_string(), sdp: "o".to_string(), peer_id: String::new() };
    let acts = hub.handle_message("up", offer, &None).unwrap();
    assert_eq!(sent_to(&acts[0]), "down");
    match &acts[0] {
        SignalAction::Send { message: SignalingMessage::Offer { peer_id, sdp, .. }, .. } => {
            assert_eq!(peer_id, "up");
            assert_eq!(sdp, "o");
        }
        _ => panic!("expected an offer"),
    }

    let answer = SignalingMessage::Answer { share_code: "666666".to_string(), sdp: "a".to_string(), peer_id: String::new() };
    assert_eq!(sent_to(&hub.handle_message("down", answer, &None).unwrap()[0]), "up");

    let ice = |from: &str| SignalingMessage::IceCandidate {
        share_code: "666666".to_string(),
        candidate: "c".to_string(),
        sdp_mid: None,
        sdp_m_line_index: Some(0),
        peer_id: from.to_string(),
    };
    assert_eq!(sent_to(&hub.handle_message("up", ice("up"), &None).unwrap()[0]), "down");
    assert_eq!(sent_to(&hub.handle_message("down", ice("down"), &None).unwrap()[0]), "up");

    let req = SignalingMessage::FileRequest { share_code: "666666".to_string(), file_name: "b.bin".to_string() };
    assert_eq!(sent_to(&hub.handle_message("down", req, &None).unwrap()[0]), "up");
}

#[test]
fn relays_without_a_counterpart_fail() {
    let mut hub = SignalingHub::new();
    let offer = SignalingMessage::Offer { share_code: "7".to_string(), sdp: "o".to_string(), peer_id: String::new() };
    assert_eq!(hub.handle_message("up", offer, &None).unwrap_err(), "Downloader is not online");
    let answer = SignalingMessage::Answer { share_code: "7".to_string(), sdp: "a".to_string(), peer_id: String::new() };
    assert_eq!(hub.handle_message("down", answer, &None).unwrap_err(), "Uploader is not online");
}

#[test]
fn ping_is_answered_with_pong_and_others_are_ignored() {
    let mut hub = SignalingHub::new();
    let acts = hub.handle_message("p", SignalingMessage::Ping, &None).unwrap();
    assert!(matches!(&acts[0], SignalAction::Send { to, message: SignalingMessage::Pong, required: true } if to == "p"));
    assert!(hub.handle_message("p", SignalingMessage::Pong, &None).unwrap().is_empty());
}

#[test]
fn transfer_complete_is_recorded_and_told_to_the_uploader() {
    let mut hub = SignalingHub::new();
    ready(&mut hub, "888888", "up");
    let acts = hub.handle_message("down", SignalingMessage::TransferComplete { share_code: "888888".to_string() }, &None).unwrap();
    assert_eq!(acts.len(), 2);
    assert!(matches!(&acts[0], SignalAction::Send { required: false, .. }));
    assert!(matches!(&acts[1], SignalAction::CompleteTransfer { share_code } if share_code == "888888"));
}

#[test]
fn disconnect_forgets_the_peer_everywhere() {
    let mut hub = SignalingHub::new();
    ready(&mut hub, "900001", "up");
    hub.handle_message("down", join("900001", None), &share("p2p", None)).unwrap();
    ready(&mut hub, "900002", "other-up");
    hub.handle_message("down", join("900002", None), &share("p2p", None)).unwrap();

    let acts = hub.cleanup_peer("down");
    assert_eq!(hub.find_downloader("900001"), None);
    assert_eq!(hub.find_downloader("900002"), None);
    assert_eq!(hub.find_uploader("900001"), Some("up".to_string()));
    let offline = acts
        .iter()
        .filter(|a| matches!(a, SignalAction::Send { message: SignalingMessage::DownloaderOffline { .. }, .. }))
        .count();
    assert_eq!(offline, 2);

    let acts = hub.cleanup_peer("up");
    assert_eq!(hub.find_uploader("900001"), None);
    assert!(acts.iter().any(|a| matches!(a, SignalAction::SetP2pStatus { status: P2pStatus::Failed, .. })));
}

#[test]
fn labels_and_lookups() {
    assert_eq!(message_label(&SignalingMessage::Ping), "ping");
    assert_eq!(message_label(&SignalingMessage::Pong), "other");
    assert_eq!(message_label(&join("1", None)), "downloader_join");
    assert_eq!(code_to_look_up(&join("123", None)), Some("123".to_string()));
    assert_eq!(code_to_look_up(&SignalingMessage::Ping), None);
    let mut hub = SignalingHub::new();
    ready(&mut hub, "777777", "up");
    let st = hub.uploader_status(P2pStatusQuery { code: "777777".to_string() });
    assert!(st.uploader_online);
    assert_eq!(st.share_code, "777777");
    assert!(!hub.uploader_status(P2pStatusQuery { code: "1".to_string() }).uploader_online);
}
