//! P2P signaling: which peer uploads and which downloads each share, how
//! the messages of a WebRTC handshake are routed between them, and what a
//! disconnect undoes.
//!
//! The hub decides; the caller performs what it decides (sends over the
//! WebSocket connections, updates the database) in the order given, and
//! stops at the first failing action marked `required`.

use vstd::prelude::*;
use crate::download::{FileShare, opt_view};
use crate::peer_table::PeerTable;
use crate::share_password::{opt_str, p2p_password_ok, spec_p2p_password_ok};

verus! {

/// Side of a peer in a transfer.
#[derive(Clone, Copy, Debug)]
pub enum PeerRole {
    Uploader,
    Downloader,
}

/// A signaling message, in either direction.
#[derive(Debug)]
pub enum SignalingMessage {
    UploaderReady { share_code: String, peer_id: String, device_info: Option<String> },
    DownloaderJoin {
        share_code: String,
        peer_id: String,
        file_name: Option<String>,
        device_info: Option<String>,
        password: Option<String>,
    },
    Offer { share_code: String, sdp: String, peer_id: String },
    Answer { share_code: String, sdp: String, peer_id: String },
    IceCandidate {
        share_code: String,
        candidate: String,
        sdp_mid: Option<String>,
        sdp_m_line_index: Option<u16>,
        peer_id: String,
    },
    DownloaderArrived { share_code: String, peer_id: String, device_info: Option<String> },
    TransferComplete { share_code: String },
    UploaderCancelled { share_code: String },
    FileRequest { share_code: String, file_name: String },
    PeerMatched { peer_id: String, role: PeerRole, file_name: Option<String>, device_info: Option<String> },
    DownloaderOffline { share_code: String },
    Ping,
    Pong,
    Error { message: String },
}

/// What a signaling message says.
pub ghost enum MessageView {
    UploaderReady { share_code: Seq<char>, peer_id: Seq<char>, device_info: Option<Seq<char>> },
    DownloaderJoin {
        share_code: Seq<char>,
        peer_id: Seq<char>,
        file_name: Option<Seq<char>>,
        device_info: Option<Seq<char>>,
        password: Option<Seq<char>>,
    },
    Offer { share_code: Seq<char>, sdp: Seq<char>, peer_id: Seq<char> },
    Answer { share_code: Seq<char>, sdp: Seq<char>, peer_id: Seq<char> },
    IceCandidate {
        share_code: Seq<char>,
        candidate: Seq<char>,
        sdp_mid: Option<Seq<char>>,
        sdp_m_line_index: Option<u16>,
        peer_id: Seq<char>,
    },
    DownloaderArrived { share_code: Seq<char>, peer_id: Seq<char>, device_info: Option<Seq<char>> },
    TransferComplete { share_code: Seq<char> },
    UploaderCancelled { share_code: Seq<char> },
    FileRequest { share_code: Seq<char>, file_name: Seq<char> },
    PeerMatched { peer_id: Seq<char>, role: PeerRole, file_name: Option<Seq<char>>, device_info: Option<Seq<char>> },
    DownloaderOffline { share_code: Seq<char> },
    Ping,
    Pong,
    Error { message: Seq<char> },
}

impl View for SignalingMessage {
    type V = MessageView;

    open spec fn view(&self) -> MessageView {
        match self {
            SignalingMessage::UploaderReady { share_code, peer_id, device_info } =>
                MessageView::UploaderReady { share_code: share_code@, peer_id: peer_id@, device_info: opt_view(*device_info) },
            SignalingMessage::DownloaderJoin { share_code, peer_id, file_name, device_info, password } =>
                MessageView::DownloaderJoin {
                    share_code: share_code@,
                    peer_id: peer_id@,
                    file_name: opt_view(*file_name),
                    device_info: opt_view(*device_info),
                    password: opt_view(*password),
                },
            SignalingMessage::Offer { share_code, sdp, peer_id } =>
                MessageView::Offer { share_code: share_code@, sdp: sdp@, peer_id: peer_id@ },
            SignalingMessage::Answer { share_code, sdp, peer_id } =>
                MessageView::Answer { share_code: share_code@, sdp: sdp@, peer_id: peer_id@ },
            SignalingMessage::IceCandidate { share_code, candidate, sdp_mid, sdp_m_line_index, peer_id } =>
                MessageView::IceCandidate {
                    share_code: share_code@,
                    candidate: candidate@,
                    sdp_mid: opt_view(*sdp_mid),
                    sdp_m_line_index: *sdp_m_line_index,
                    peer_id: peer_id@,
                },
            SignalingMessage::DownloaderArrived { share_code, peer_id, device_info } =>
                MessageView::DownloaderArrived { share_code: share_code@, peer_id: peer_id@, device_info: opt_view(*device_info) },
            SignalingMessage::TransferComplete { share_code } => MessageView::TransferComplete { share_code: share_code@ },
            SignalingMessage::UploaderCancelled { share_code } => MessageView::UploaderCancelled { share_code: share_code@ },
            SignalingMessage::FileRequest { share_code, file_name } =>
                MessageView::FileRequest { share_code: share_code@, file_name: file_name@ },
            SignalingMessage::PeerMatched { peer_id, role, file_name, device_info } =>
                MessageView::PeerMatched {
                    peer_id: peer_id@,
                    role: *role,
                    file_name: opt_view(*file_name),
                    device_info: opt_view(*device_info),
                },
            SignalingMessage::DownloaderOffline { share_code } => MessageView::DownloaderOffline { share_code: share_code@ },
            SignalingMessage::Ping => MessageView::Ping,
            SignalingMessage::Pong => MessageView::Pong,
            SignalingMessage::Error { message } => MessageView::Error { message: message@ },
        }
    }
}

/// The label of a message kind, as logged.
pub open spec fn spec_message_label(m: MessageView) -> Seq<char> {
    match m {
        MessageView::UploaderReady { .. } => "uploader_ready"@,
        MessageView::DownloaderJoin { .. } => "downloader_join"@,
        MessageView::Offer { .. } => "offer"@,
        MessageView::Answer { .. } => "answer"@,
        MessageView::IceCandidate { .. } => "ice_candidate"@,
        MessageView::DownloaderArrived { .. } => "downloader_arrived"@,
        MessageView::TransferComplete { .. } => "transfer_complete"@,
        MessageView::UploaderCancelled { .. } => "uploader_cancelled"@,
        MessageView::FileRequest { .. } => "file_request"@,
        MessageView::Ping => "ping"@,
        _ => "other"@,
    }
}

/// The label of a message kind, as logged.
pub fn message_label(msg: &SignalingMessage) -> (r: &'static str)
    ensures
        r@ == spec_message_label(msg@),
{
    proof {
        reveal_strlit("uploader_ready");
        reveal_strlit("downloader_join");
        reveal_strlit("offer");
        reveal_strlit("answer");
        reveal_strlit("ice_candidate");
        reveal_strlit("downloader_arrived");
        reveal_strlit("transfer_complete");
        reveal_strlit("uploader_cancelled");
        reveal_strlit("file_request");
        reveal_strlit("ping");
        reveal_strlit("other");
    }
    match msg {
        SignalingMessage::UploaderReady { .. } => "uploader_ready",
        SignalingMessage::DownloaderJoin { .. } => "downloader_join",
        SignalingMessage::Offer { .. } => "offer",
        SignalingMessage::Answer { .. } => "answer",
        SignalingMessage::IceCandidate { .. } => "ice_candidate",
        SignalingMessage::DownloaderArrived { .. } => "downloader_arrived",
        SignalingMessage::TransferComplete { .. } => "transfer_complete",
        SignalingMessage::UploaderCancelled { .. } => "uploader_cancelled",
        SignalingMessage::FileRequest { .. } => "file_request",
        SignalingMessage::Ping => "ping",
        _ => "other",
    }
}

/// P2P state of a share, as stored.
#[derive(Clone, Copy, Debug)]
pub enum P2pStatus {
    Waiting,
    Connected,
    Failed,
}

/// Stored name of a P2P state.
pub open spec fn spec_p2p_status_name(s: P2pStatus) -> Seq<char> {
    match s {
        P2pStatus::Waiting => "waiting"@,
        P2pStatus::Connected => "connected"@,
        P2pStatus::Failed => "failed"@,
    }
}

impl P2pStatus {
    /// Stored name of the state.
    pub fn as_str(&self) -> (r: &'static str)
        ensures
            r@ == spec_p2p_status_name(*self),
    {
        proof {
            reveal_strlit("waiting");
            reveal_strlit("connected");
            reveal_strlit("failed");
        }
        match self {
            P2pStatus::Waiting => "waiting",
            P2pStatus::Connected => "connected",
            P2pStatus::Failed => "failed",
        }
    }
}

/// Something the caller performs for the hub.
#[derive(Debug)]
pub enum SignalAction {
    /// Send `message` to peer `to`.
    Send { to: String, message: SignalingMessage, required: bool },
    /// Store the P2P state of a share (and its uploader's peer id, if given).
    SetP2pStatus { share_code: String, status: P2pStatus, uploader_peer: Option<String>, required: bool },
    /// Record that a P2P transfer completed.
    CompleteTransfer { share_code: String },
}

/// What an action says.
pub ghost enum ActionView {
    Send { to: Seq<char>, message: MessageView, required: bool },
    SetP2pStatus { share_code: Seq<char>, status: P2pStatus, uploader_peer: Option<Seq<char>>, required: bool },
    CompleteTransfer { share_code: Seq<char> },
}

impl View for SignalAction {
    type V = ActionView;

    open spec fn view(&self) -> ActionView {
        match self {
            SignalAction::Send { to, message, required } => ActionView::Send { to: to@, message: message@, required: *required },
            SignalAction::SetP2pStatus { share_code, status, uploader_peer, required } =>
                ActionView::SetP2pStatus { share_code: share_code@, status: *status, uploader_peer: opt_view(*uploader_peer), required: *required },
            SignalAction::CompleteTransfer { share_code } => ActionView::CompleteTransfer { share_code: share_code@ },
        }
    }
}

/// The views of a list of actions.
pub open spec fn action_views(v: Seq<SignalAction>) -> Seq<ActionView> {
    Seq::new(v.len(), |i: int| v[i]@)
}

/// Who is where: for each share code its uploader's peer id and device
/// description, its downloader's peer id, and for each downloader that has
/// opened a share page, the share code.
pub ghost struct HubView {
    pub uploaders: Map<Seq<char>, Seq<char>>,
    pub devices: Map<Seq<char>, Seq<char>>,
    pub downloaders: Map<Seq<char>, Seq<char>>,
    pub arrived: Map<Seq<char>, Seq<char>>,
}

/// The value of a key, if any.
pub open spec fn lookup(m: Map<Seq<char>, Seq<char>>, k: Seq<char>) -> Option<Seq<char>> {
    if m.dom().contains(k) {
        Some(m[k])
    } else {
        None
    }
}

/// Sets or clears a key.
pub open spec fn set_opt(m: Map<Seq<char>, Seq<char>>, k: Seq<char>, v: Option<Seq<char>>) -> Map<Seq<char>, Seq<char>> {
    match v {
        Some(x) => m.insert(k, x),
        None => m.remove(k),
    }
}

/// The state of the P2P signaling of all shares.
pub struct SignalingHub {
    uploaders: PeerTable,
    uploader_devices: PeerTable,
    downloaders: PeerTable,
    arrived: PeerTable,
}

impl View for SignalingHub {
    type V = HubView;

    closed spec fn view(&self) -> HubView {
        HubView {
            uploaders: self.uploaders@,
            devices: self.uploader_devices@,
            downloaders: self.downloaders@,
            arrived: self.arrived@,
        }
    }
}

/// A hub with `uploaders` replaced.
pub open spec fn with_uploaders(h: HubView, u: Map<Seq<char>, Seq<char>>, d: Map<Seq<char>, Seq<char>>) -> HubView {
    HubView { uploaders: u, devices: d, downloaders: h.downloaders, arrived: h.arrived }
}

/// A hub with `downloaders` replaced.
pub open spec fn with_downloaders(h: HubView, d: Map<Seq<char>, Seq<char>>) -> HubView {
    HubView { uploaders: h.uploaders, devices: h.devices, downloaders: d, arrived: h.arrived }
}

/// A hub with `arrived` replaced.
pub open spec fn with_arrived(h: HubView, a: Map<Seq<char>, Seq<char>>) -> HubView {
    HubView { uploaders: h.uploaders, devices: h.devices, downloaders: h.downloaders, arrived: a }
}

impl SignalingHub {
    /// No peer anywhere.
    pub fn new() -> (r: Self)
        ensures
            r@.uploaders == Map::<Seq<char>, Seq<char>>::empty(),
            r@.devices == Map::<Seq<char>, Seq<char>>::empty(),
            r@.downloaders == Map::<Seq<char>, Seq<char>>::empty(),
            r@.arrived == Map::<Seq<char>, Seq<char>>::empty(),
    {
        SignalingHub {
            uploaders: PeerTable::new(),
            uploader_devices: PeerTable::new(),
            downloaders: PeerTable::new(),
            arrived: PeerTable::new(),
        }
    }

    /// The uploader of a share.
    pub fn find_uploader(&self, share_code: &str) -> (r: Option<String>)
        ensures
            opt_view(r) == lookup(self@.uploaders, share_code@),
    {
        self.uploaders.get(share_code)
    }

    /// The uploader of a share and its device description.
    pub fn find_uploader_with_device(&self, share_code: &str) -> (r: Option<(String, Option<String>)>)
        ensures
            r is Some <==> self@.uploaders.dom().contains(share_code@),
            r matches Some((p, d)) ==> p@ == self@.uploaders[share_code@] && opt_view(d) == lookup(self@.devices, share_code@),
    {
        match self.uploaders.get(share_code) {
            Some(p) => Some((p, self.uploader_devices.get(share_code))),
            None => None,
        }
    }

    /// The downloader of a share.
    pub fn find_downloader(&self, share_code: &str) -> (r: Option<String>)
        ensures
            opt_view(r) == lookup(self@.downloaders, share_code@),
    {
        self.downloaders.get(share_code)
    }

    /// Makes `peer_id` the uploader of a share.
    pub fn register_uploader_with_device(&mut self, share_code: String, peer_id: String, device_info: Option<String>)
        ensures
            final(self)@ == with_uploaders(old(self)@, old(self)@.uploaders.insert(share_code@, peer_id@), set_opt(old(self)@.devices, share_code@, opt_view(device_info))),
    {
        match device_info {
            Some(d) => self.uploader_devices.insert(share_code.clone(), d),
            None => {
                self.uploader_devices.remove(share_code.as_str());
            },
        }
        self.uploaders.insert(share_code, peer_id);
    }

    /// Makes `peer_id` the downloader of a share.
    pub fn register_downloader(&mut self, share_code: String, peer_id: String)
        ensures
            final(self)@ == with_downloaders(old(self)@, old(self)@.downloaders.insert(share_code@, peer_id@)),
    {
        self.downloaders.insert(share_code, peer_id);
    }

    /// Records that `peer_id` opened the page of a share.
    pub fn register_arrived_downloader(&mut self, peer_id: String, share_code: String)
        ensures
            final(self)@ == with_arrived(old(self)@, old(self)@.arrived.insert(peer_id@, share_code@)),
    {
        self.arrived.insert(peer_id, share_code);
    }

    /// Forgets the uploader of a share.
    pub fn remove_uploader(&mut self, share_code: &str)
        ensures
            final(self)@ == with_uploaders(old(self)@, old(self)@.uploaders.remove(share_code@), old(self)@.devices.remove(share_code@)),
    {
        self.uploaders.remove(share_code);
        self.uploader_devices.remove(share_code);
    }

    /// Forgets the downloader of a share.
    pub fn remove_downloader(&mut self, share_code: &str)
        ensures
            final(self)@ == with_downloaders(old(self)@, old(self)@.downloaders.remove(share_code@)),
    {
        self.downloaders.remove(share_code);
    }

    /// Forgets the downloader of a share if it is `peer_id`; true when it was.
    pub fn remove_downloader_if_matches(&mut self, share_code: &str, peer_id: &str) -> (r: bool)
        ensures
            r == (lookup(old(self)@.downloaders, share_code@) == Some(peer_id@)),
            r ==> final(self)@ == with_downloaders(old(self)@, old(self)@.downloaders.remove(share_code@)),
            !r ==> final(self)@ == old(self)@,
    {
        match self.downloaders.get(share_code) {
            Some(p) => {
                let q = peer_id.to_string();
                if p == q {
                    self.downloaders.remove(share_code);
                    true
                } else {
                    false
                }
            },
            None => false,
        }
    }

    /// Forgets that `peer_id` opened a share page; the share code it had.
    pub fn remove_arrived_downloader(&mut self, peer_id: &str) -> (r: Option<String>)
        ensures
            opt_view(r) == lookup(old(self)@.arrived, peer_id@),
            final(self)@ == with_arrived(old(self)@, old(self)@.arrived.remove(peer_id@)),
    {
        let r = self.arrived.get(peer_id);
        self.arrived.remove(peer_id);
        r
    }
}

/// What the database says of a share: its transfer type and password hash.
pub open spec fn share_view(s: Option<FileShare>) -> Option<(Seq<char>, Option<Seq<char>>)> {
    match s {
        Some(f) => Some((f.transfer_type@, opt_view(f.password_hash))),
        None => None,
    }
}

/// The share code a message needs looked up in the database before the hub
/// can handle it.
pub open spec fn spec_code_to_look_up(m: MessageView) -> Option<Seq<char>> {
    match m {
        MessageView::UploaderReady { share_code, .. } => Some(share_code),
        MessageView::DownloaderJoin { share_code, .. } => Some(share_code),
        _ => None,
    }
}

/// The share code a message needs looked up in the database.
pub fn code_to_look_up(msg: &SignalingMessage) -> (r: Option<String>)
    ensures
        opt_view(r) == spec_code_to_look_up(msg@),
{
    match msg {
        SignalingMessage::UploaderReady { share_code, .. } => Some(share_code.clone()),
        SignalingMessage::DownloaderJoin { share_code, .. } => Some(share_code.clone()),
        _ => None,
    }
}

/// A required send.
pub open spec fn send(to: Seq<char>, m: MessageView) -> ActionView {
    ActionView::Send { to, message: m, required: true }
}

/// How the hub handles message `m` from peer `from`, given what the
/// database says of the share a join or an uploader's readiness names: the
/// hub afterwards and the actions, or the error answered to the sender
/// (the hub then unchanged).
pub open spec fn spec_handle_message(h: HubView, from: Seq<char>, m: MessageView, share: Option<(Seq<char>, Option<Seq<char>>)>) -> Result<(HubView, Seq<ActionView>), Seq<char>> {
    match m {
        MessageView::UploaderReady { share_code, device_info, .. } => match share {
            None => Err("Share code not found"@),
            Some((transfer_type, _)) => if transfer_type != "p2p"@ {
                Err("This share is not configured for P2P transfer"@)
            } else {
                Ok((
                    with_uploaders(h, h.uploaders.insert(share_code, from), set_opt(h.devices, share_code, device_info)),
                    seq![ActionView::SetP2pStatus { share_code, status: P2pStatus::Waiting, uploader_peer: Some(from), required: true }],
                ))
            },
        },
        MessageView::DownloaderJoin { share_code, file_name, device_info, password, .. } => match share {
            None => Err("Share code not found"@),
            Some((_, hash)) => if !spec_p2p_password_ok(hash, password) {
                Err("Incorrect password for this share"@)
            } else {
                match lookup(h.uploaders, share_code) {
                    None => Err("Uploader is not online"@),
                    Some(up) => Ok((
                        with_downloaders(h, h.downloaders.insert(share_code, from)),
                        seq![
                            send(up, MessageView::PeerMatched { peer_id: from, role: PeerRole::Downloader, file_name, device_info }),
                            send(from, MessageView::PeerMatched { peer_id: up, role: PeerRole::Uploader, file_name, device_info: lookup(h.devices, share_code) }),
                            ActionView::SetP2pStatus { share_code, status: P2pStatus::Connected, uploader_peer: None, required: true },
                        ],
                    )),
                }
            },
        },
        MessageView::Offer { share_code, sdp, .. } => match lookup(h.downloaders, share_code) {
            None => Err("Downloader is not online"@),
            Some(down) => Ok((h, seq![send(down, MessageView::Offer { share_code, sdp, peer_id: from })])),
        },
        MessageView::Answer { share_code, sdp, .. } => match lookup(h.uploaders, share_code) {
            None => Err("Uploader is not online"@),
            Some(up) => Ok((h, seq![send(up, MessageView::Answer { share_code, sdp, peer_id: from })])),
        },
        MessageView::IceCandidate { share_code, candidate, sdp_mid, sdp_m_line_index, .. } => match lookup(h.uploaders, share_code) {
            None => Err("Uploader is not online"@),
            Some(up) => {
                let fwd = MessageView::IceCandidate { share_code, candidate, sdp_mid, sdp_m_line_index, peer_id: from };
                if from == up {
                    match lookup(h.downloaders, share_code) {
                        None => Err("Downloader is not online"@),
                        Some(down) => Ok((h, seq![send(down, fwd)])),
                    }
                } else {
                    Ok((h, seq![send(up, fwd)]))
                }
            },
        },
        MessageView::DownloaderArrived { share_code, device_info, .. } => match lookup(h.uploaders, share_code) {
            None => Err("Uploader is not online"@),
            Some(up) => Ok((
                with_arrived(h, h.arrived.insert(from, share_code)),
                seq![send(up, MessageView::DownloaderArrived { share_code, peer_id: from, device_info })],
            )),
        },
        MessageView::TransferComplete { share_code } => {
            let done = ActionView::CompleteTransfer { share_code };
            match lookup(h.uploaders, share_code) {
                Some(up) => Ok((h, seq![
                    ActionView::Send { to: up, message: MessageView::TransferComplete { share_code }, required: false },
                    done,
                ])),
                None => Ok((h, seq![done])),
            }
        },
        MessageView::UploaderCancelled { share_code } => match lookup(h.downloaders, share_code) {
            Some(down) => Ok((h, seq![ActionView::Send { to: down, message: MessageView::UploaderCancelled { share_code }, required: false }])),
            None => Ok((h, Seq::empty())),
        },
        MessageView::FileRequest { share_code, file_name } => match lookup(h.uploaders, share_code) {
            None => Err("Uploader is not online"@),
            Some(up) => Ok((h, seq![send(up, MessageView::FileRequest { share_code, file_name })])),
        },
        MessageView::Ping => Ok((h, seq![send(from, MessageView::Pong)])),
        _ => Ok((h, Seq::empty())),
    }
}

/// The actions of a handled message (none for an error).
pub open spec fn handled_actions(r: Result<(HubView, Seq<ActionView>), Seq<char>>) -> Seq<ActionView> {
    match r {
        Ok((_, a)) => a,
        Err(_) => Seq::empty(),
    }
}

/// An optional string, cloned.
fn clone_opt(o: &Option<String>) -> (r: Option<String>)
    ensures
        opt_view(r) == opt_view(*o),
{
    match o {
        Some(s) => Some(s.clone()),
        None => None,
    }
}

/// A required send.
fn send_action(to: String, message: SignalingMessage) -> (r: SignalAction)
    ensures
        r@ == send(to@, message@),
{
    SignalAction::Send { to, message, required: true }
}

impl SignalingHub {
    /// Handles message `msg` from peer `from`; `share` is what the database
    /// holds for the share code that `code_to_look_up` names (`None` when
    /// there is no such share, or when the message names none).
    pub fn handle_message(&mut self, from: &str, msg: SignalingMessage, share: &Option<FileShare>) -> (r: Result<Vec<SignalAction>, String>)
        ensures
            r matches Ok(acts) ==> spec_handle_message(old(self)@, from@, msg@, share_view(*share))
                == Ok::<(HubView, Seq<ActionView>), Seq<char>>((final(self)@, action_views(acts@))),
            r matches Err(e) ==> spec_handle_message(old(self)@, from@, msg@, share_view(*share))
                == Err::<(HubView, Seq<ActionView>), Seq<char>>(e@)
                && final(self)@ == old(self)@,
    {
        let ghost h = self@;
        let ghost m = msg@;
        let from_s = from.to_string();
        match msg {
            SignalingMessage::UploaderReady { share_code, peer_id: _, device_info } => {
                let f = match share {
                    None => { return Err("Share code not found".to_string()); },
                    Some(f) => f,
                };
                if !(f.transfer_type == "p2p".to_string()) {
                    return Err("This share is not configured for P2P transfer".to_string());
                }
                self.register_uploader_with_device(share_code.clone(), from_s.clone(), device_info);
                let mut acts: Vec<SignalAction> = Vec::new();
                acts.push(SignalAction::SetP2pStatus {
                    share_code,
                    status: P2pStatus::Waiting,
                    uploader_peer: Some(from_s),
                    required: true,
                });
                proof { assert(action_views(acts@) =~= handled_actions(spec_handle_message(h, from@, m, share_view(*share)))); }
                Ok(acts)
            },
            SignalingMessage::DownloaderJoin { share_code, peer_id: _, file_name, device_info, password } => {
                let f = match share {
                    None => { return Err("Share code not found".to_string()); },
                    Some(f) => f,
                };
                let hash: Option<&str> = match &f.password_hash {
                    Some(x) => Some(x.as_str()),
                    None => None,
                };
                let supplied: Option<&str> = match &password {
                    Some(x) => Some(x.as_str()),
                    None => None,
                };
                proof {
                    assert(opt_str(hash) == opt_view(f.password_hash));
                    assert(opt_str(supplied) == opt_view(password));
                }
                if !p2p_password_ok(hash, supplied) {
                    return Err("Incorrect password for this share".to_string());
                }
                let (up, up_device) = match self.find_uploader_with_device(share_code.as_str()) {
                    None => { return Err("Uploader is not online".to_string()); },
                    Some(x) => x,
                };
                self.register_downloader(share_code.clone(), from_s.clone());
                let mut acts: Vec<SignalAction> = Vec::new();
                acts.push(send_action(up.clone(), SignalingMessage::PeerMatched {
                    peer_id: from_s.clone(),
                    role: PeerRole::Downloader,
                    file_name: clone_opt(&file_name),
                    device_info,
                }));
                acts.push(send_action(from_s, SignalingMessage::PeerMatched {
                    peer_id: up,
                    role: PeerRole::Uploader,
                    file_name,
                    device_info: up_device,
                }));
                acts.push(SignalAction::SetP2pStatus {
                    share_code,
                    status: P2pStatus::Connected,
                    uploader_peer: None,
                    required: true,
                });
                proof { assert(action_views(acts@) =~= handled_actions(spec_handle_message(h, from@, m, share_view(*share)))); }
                Ok(acts)
            },
            SignalingMessage::Offer { share_code, sdp, peer_id: _ } => {
                let down = match self.find_downloader(share_code.as_str()) {
                    None => { return Err("Downloader is not online".to_string()); },
                    Some(d) => d,
                };
                let mut acts: Vec<SignalAction> = Vec::new();
                acts.push(send_action(down, SignalingMessage::Offer { share_code, sdp, peer_id: from_s }));
                proof { assert(action_views(acts@) =~= handled_actions(spec_handle_message(h, from@, m, share_view(*share)))); }
                Ok(acts)
            },
            SignalingMessage::Answer { share_code, sdp, peer_id: _ } => {
                let up = match self.find_uploader(share_code.as_str()) {
                    None => { return Err("Uploader is not online".to_string()); },
                    Some(u) => u,
                };
                let mut acts: Vec<SignalAction> = Vec::new();
                acts.push(send_action(up, SignalingMessage::Answer { share_code, sdp, peer_id: from_s }));
                proof { assert(action_views(acts@) =~= handled_actions(spec_handle_message(h, from@, m, share_view(*share)))); }
                Ok(acts)
            },
            SignalingMessage::IceCandidate { share_code, candidate, sdp_mid, sdp_m_line_index, peer_id: _ } => {
                let up = match self.find_uploader(share_code.as_str()) {
                    None => { return Err("Uploader is not online".to_string()); },
                    Some(u) => u,
                };
                let target = if from_s == up {
                    match self.find_downloader(share_code.as_str()) {
                        None => { return Err("Downloader is not online".to_string()); },
                        Some(d) => d,
                    }
                } else {
                    up
                };
                let mut acts: Vec<SignalAction> = Vec::new();
                acts.push(send_action(target, SignalingMessage::IceCandidate {
                    share_code,
                    candidate,
                    sdp_mid,
                    sdp_m_line_index,
                    peer_id: from_s,
                }));
                proof { assert(action_views(acts@) =~= handled_actions(spec_handle_message(h, from@, m, share_view(*share)))); }
                Ok(acts)
            },
            SignalingMessage::DownloaderArrived { share_code, peer_id: _, device_info } => {
                let up = match self.find_uploader(share_code.as_str()) {
                    None => { return Err("Uploader is not online".to_string()); },
                    Some(u) => u,
                };
                self.register_arrived_downloader(from_s.clone(), share_code.clone());
                let mut acts: Vec<SignalAction> = Vec::new();
                acts.push(send_action(up, SignalingMessage::DownloaderArrived { share_code, peer_id: from_s, device_info }));
                proof { assert(action_views(acts@) =~= handled_actions(spec_handle_message(h, from@, m, share_view(*share)))); }
                Ok(acts)
            },
            SignalingMessage::TransferComplete { share_code } => {
                let mut acts: Vec<SignalAction> = Vec::new();
                match self.find_uploader(share_code.as_str()) {
                    Some(up) => {
                        acts.push(SignalAction::Send {
                            to: up,
                            message: SignalingMessage::TransferComplete { share_code: share_code.clone() },
                            required: false,
                        });
                    },
                    None => {},
                }
                acts.push(SignalAction::CompleteTransfer { share_code });
                proof { assert(action_views(acts@) =~= handled_actions(spec_handle_message(h, from@, m, share_view(*share)))); }
                Ok(acts)
            },
            SignalingMessage::UploaderCancelled { share_code } => {
                let mut acts: Vec<SignalAction> = Vec::new();
                match self.find_downloader(share_code.as_str()) {
                    Some(down) => {
                        acts.push(SignalAction::Send {
                            to: down,
                            message: SignalingMessage::UploaderCancelled { share_code },
                            required: false,
                        });
                    },
                    None => {},
                }
                proof { assert(action_views(acts@) =~= handled_actions(spec_handle_message(h, from@, m, share_view(*share)))); }
                Ok(acts)
            },
            SignalingMessage::FileRequest { share_code, file_name } => {
                let up = match self.find_uploader(share_code.as_str()) {
                    None => { return Err("Uploader is not online".to_string()); },
                    Some(u) => u,
                };
                let mut acts: Vec<SignalAction> = Vec::new();
                acts.push(send_action(up, SignalingMessage::FileRequest { share_code, file_name }));
                proof { assert(action_views(acts@) =~= handled_actions(spec_handle_message(h, from@, m, share_view(*share)))); }
                Ok(acts)
            },
            SignalingMessage::Ping => {
                let mut acts: Vec<SignalAction> = Vec::new();
                acts.push(send_action(from_s, SignalingMessage::Pong));
                proof { assert(action_views(acts@) =~= handled_actions(spec_handle_message(h, from@, m, share_view(*share)))); }
                Ok(acts)
            },
            _ => {
                let acts: Vec<SignalAction> = Vec::new();
                proof { assert(action_views(acts@) =~= handled_actions(spec_handle_message(h, from@, m, share_view(*share)))); }
                Ok(acts)
            },
        }
    }
}

/// The share codes whose entry in `m` is `peer`.
pub open spec fn codes_of(m: Map<Seq<char>, Seq<char>>, peer: Seq<char>) -> Set<Seq<char>> {
    Set::new(|c: Seq<char>| m.dom().contains(c) && m[c] == peer)
}

/// The uploader table once a disconnected peer's uploads are dropped.
pub open spec fn cleaned_uploaders(h: HubView, peer: Seq<char>) -> Map<Seq<char>, Seq<char>> {
    h.uploaders.remove_keys(codes_of(h.uploaders, peer))
}

/// The downloader table once the shares a disconnected peer uploaded are
/// dropped, before its own downloads are.
pub open spec fn downloaders_after_uploads(h: HubView, peer: Seq<char>) -> Map<Seq<char>, Seq<char>> {
    h.downloaders.remove_keys(codes_of(h.uploaders, peer))
}

/// The hub once a peer has disconnected: the shares it uploaded lose their
/// uploader and downloader, the shares it downloaded lose their downloader,
/// and its opened share page is forgotten.
pub open spec fn spec_cleanup_hub(h: HubView, peer: Seq<char>) -> HubView {
    let up = codes_of(h.uploaders, peer);
    let d1 = downloaders_after_uploads(h, peer);
    HubView {
        uploaders: h.uploaders.remove_keys(up),
        devices: h.devices.remove_keys(up),
        downloaders: d1.remove_keys(codes_of(d1, peer)),
        arrived: h.arrived.remove(peer),
    }
}

/// A share the peer uploaded is marked failed.
pub open spec fn failed_action(c: Seq<char>) -> ActionView {
    ActionView::SetP2pStatus { share_code: c, status: P2pStatus::Failed, uploader_peer: None, required: false }
}

/// A share the peer downloaded waits for a downloader again.
pub open spec fn waiting_action(c: Seq<char>) -> ActionView {
    ActionView::SetP2pStatus { share_code: c, status: P2pStatus::Waiting, uploader_peer: None, required: false }
}

/// The uploader of a share learns that its downloader left.
pub open spec fn offline_action(to: Seq<char>, c: Seq<char>) -> ActionView {
    ActionView::Send { to, message: MessageView::DownloaderOffline { share_code: c }, required: false }
}

/// Whether `a` is one of the actions of a disconnect of `peer`: a failed
/// mark for each share it uploaded; for each share it downloaded, a waiting
/// mark and (if the share still has an uploader) a notice to the uploader;
/// and a notice to the uploader of the share page it had open, if that
/// share is left with an uploader and no downloader.
pub open spec fn cleanup_action(h: HubView, peer: Seq<char>, a: ActionView) -> bool {
    let up = codes_of(h.uploaders, peer);
    let u1 = cleaned_uploaders(h, peer);
    let d1 = downloaders_after_uploads(h, peer);
    let down = codes_of(d1, peer);
    let after = spec_cleanup_hub(h, peer);
    ||| exists|c: Seq<char>| up.contains(c) && a == #[trigger] failed_action(c)
    ||| exists|c: Seq<char>| down.contains(c) && a == #[trigger] waiting_action(c)
    ||| exists|c: Seq<char>| down.contains(c) && u1.dom().contains(c) && a == #[trigger] offline_action(u1[c], c)
    ||| (h.arrived.dom().contains(peer) && !after.downloaders.dom().contains(h.arrived[peer])
        && u1.dom().contains(h.arrived[peer]) && a == offline_action(u1[h.arrived[peer]], h.arrived[peer]))
}

/// The codes of a list, as a set.
pub open spec fn code_set(v: Seq<String>, n: int) -> Set<Seq<char>> {
    Set::new(|c: Seq<char>| exists|j: int| 0 <= j < n && (#[trigger] v[j])@ == c)
}

/// One action of a list says `a`.
pub open spec fn has_action(acts: Seq<SignalAction>, a: ActionView) -> bool {
    exists|k: int| 0 <= k < acts.len() && (#[trigger] acts[k])@ == a
}

impl SignalingHub {
    /// Forgets a disconnected peer; returns what the caller does next
    /// (none of it required).
    pub fn cleanup_peer(&mut self, peer_id: &str) -> (r: Vec<SignalAction>)
        ensures
            final(self)@ == spec_cleanup_hub(old(self)@, peer_id@),
            forall|k: int| 0 <= k < r@.len() ==> cleanup_action(old(self)@, peer_id@, (#[trigger] r@[k])@),
            forall|a: ActionView| cleanup_action(old(self)@, peer_id@, a) ==> has_action(r@, a),
    {
        let ghost h = self@;
        let ghost peer = peer_id@;
        let ghost up = codes_of(h.uploaders, peer);
        let mut acts: Vec<SignalAction> = Vec::new();
        let up_codes = self.uploaders.keys_with_value(peer_id);
        proof {
            assert(code_set(up_codes@, up_codes@.len() as int) =~= up);
            let none = code_set(up_codes@, 0);
            assert(none =~= Set::<Seq<char>>::empty());
            assert(h.uploaders.remove_keys(none) =~= h.uploaders);
            assert(h.devices.remove_keys(none) =~= h.devices);
            assert(h.downloaders.remove_keys(none) =~= h.downloaders);
        }
        let mut i: usize = 0;
        while i < up_codes.len()
            invariant
                0 <= i <= up_codes.len(),
                peer == peer_id@,
                h.uploaders == old(self)@.uploaders,
                up == codes_of(h.uploaders, peer),
                code_set(up_codes@, up_codes@.len() as int) == up,
                forall|a: int, b: int| 0 <= a < b < up_codes@.len() ==> up_codes@[a]@ != up_codes@[b]@,
                self@ == (HubView {
                    uploaders: h.uploaders.remove_keys(code_set(up_codes@, i as int)),
                    devices: h.devices.remove_keys(code_set(up_codes@, i as int)),
                    downloaders: h.downloaders.remove_keys(code_set(up_codes@, i as int)),
                    arrived: h.arrived,
                }),
                acts@.len() == i,
                forall|k: int| 0 <= k < i ==> (#[trigger] acts@[k])@ == failed_action(up_codes@[k]@),
            decreases up_codes.len() - i,
        {
            let c = &up_codes[i];
            self.remove_uploader(c.as_str());
            self.remove_downloader(c.as_str());
            acts.push(SignalAction::SetP2pStatus {
                share_code: c.clone(),
                status: P2pStatus::Failed,
                uploader_peer: None,
                required: false,
            });
            proof {
                let before = code_set(up_codes@, i as int);
                let after = code_set(up_codes@, i as int + 1);
                assert(after =~= before.insert(up_codes@[i as int]@));
                assert(h.uploaders.remove_keys(before).remove(up_codes@[i as int]@) =~= h.uploaders.remove_keys(after));
                assert(h.devices.remove_keys(before).remove(up_codes@[i as int]@) =~= h.devices.remove_keys(after));
                assert(h.downloaders.remove_keys(before).remove(up_codes@[i as int]@) =~= h.downloaders.remove_keys(after));
            }
            i = i + 1;
        }
        let ghost u1 = cleaned_uploaders(h, peer);
        let ghost d1 = downloaders_after_uploads(h, peer);
        let ghost down = codes_of(d1, peer);
        let ghost n1 = acts@.len();
        proof {
            assert(self@.uploaders == u1);
            assert(self@.downloaders == d1);
        }
        let down_codes = self.downloaders.keys_with_value(peer_id);
        proof {
            assert(code_set(down_codes@, down_codes@.len() as int) =~= down);
            let none = code_set(down_codes@, 0);
            assert(none =~= Set::<Seq<char>>::empty());
            assert(d1.remove_keys(none) =~= d1);
        }
        let mut j: usize = 0;
        while j < down_codes.len()
            invariant
                0 <= j <= down_codes.len(),
                peer == peer_id@,
                u1 == cleaned_uploaders(h, peer),
                d1 == downloaders_after_uploads(h, peer),
                down == codes_of(d1, peer),
                code_set(down_codes@, down_codes@.len() as int) == down,
                forall|a: int, b: int| 0 <= a < b < down_codes@.len() ==> down_codes@[a]@ != down_codes@[b]@,
                self@ == (HubView {
                    uploaders: u1,
                    devices: h.devices.remove_keys(up),
                    downloaders: d1.remove_keys(code_set(down_codes@, j as int)),
                    arrived: h.arrived,
                }),
                n1 == up_codes@.len(),
                acts@.len() >= n1,
                forall|k: int| 0 <= k < n1 ==> (#[trigger] acts@[k])@ == failed_action(up_codes@[k]@),
                forall|k: int| n1 <= k < acts@.len() ==> {
                    ||| exists|c: Seq<char>| down.contains(c) && (#[trigger] acts@[k])@ == #[trigger] waiting_action(c)
                    ||| exists|c: Seq<char>| down.contains(c) && u1.dom().contains(c) && (#[trigger] acts@[k])@ == #[trigger] offline_action(u1[c], c)
                },
                forall|q: int| 0 <= q < j ==> has_action(acts@, #[trigger] waiting_action(down_codes@[q]@)),
                forall|q: int| 0 <= q < j && u1.dom().contains(down_codes@[q]@) ==> has_action(acts@, #[trigger] offline_action(u1[down_codes@[q]@], down_codes@[q]@)),
            decreases down_codes.len() - j,
        {
            let c = &down_codes[j];
            let ghost cv = down_codes@[j as int]@;
            proof {
                assert(down.contains(cv)) by {
                    assert(code_set(down_codes@, down_codes@.len() as int).contains(cv));
                }
                assert(!code_set(down_codes@, j as int).contains(cv)) by {
                    if code_set(down_codes@, j as int).contains(cv) {
                        let q = choose|q: int| 0 <= q < j && (#[trigger] down_codes@[q])@ == cv;
                        assert(down_codes@[q]@ != down_codes@[j as int]@);
                    }
                }
            }
            let ghost acts_before = acts@;
            let removed = self.remove_downloader_if_matches(c.as_str(), peer_id);
            if removed {
                match self.find_uploader(c.as_str()) {
                    Some(up_peer) => {
                        acts.push(SignalAction::Send {
                            to: up_peer,
                            message: SignalingMessage::DownloaderOffline { share_code: c.clone() },
                            required: false,
                        });
                        proof {
                            assert(acts@[acts@.len() - 1]@ == offline_action(u1[cv], cv));
                        }
                    },
                    None => {},
                }
                let ghost acts_mid = acts@;
                acts.push(SignalAction::SetP2pStatus {
                    share_code: c.clone(),
                    status: P2pStatus::Waiting,
                    uploader_peer: None,
                    required: false,
                });
                proof {
                    assert(acts@[acts@.len() - 1]@ == waiting_action(cv));
                    assert(code_set(down_codes@, j as int + 1) =~= code_set(down_codes@, j as int).insert(cv));
                    assert(d1.remove_keys(code_set(down_codes@, j as int)).remove(cv) =~= d1.remove_keys(code_set(down_codes@, j as int + 1)));
                    assert forall|k: int| 0 <= k < acts_before.len() implies acts@[k] == acts_before[k] by {
                        assert(acts@[k] == acts_mid[k]);
                    }
                    assert forall|k: int| n1 <= k < acts@.len() implies {
                        ||| exists|c2: Seq<char>| down.contains(c2) && (#[trigger] acts@[k])@ == #[trigger] waiting_action(c2)
                        ||| exists|c2: Seq<char>| down.contains(c2) && u1.dom().contains(c2) && (#[trigger] acts@[k])@ == #[trigger] offline_action(u1[c2], c2)
                    } by {
                        if k < acts_before.len() {
                            assert(acts@[k] == acts_before[k]);
                        } else if k == acts@.len() - 1 {
                            assert(acts@[k]@ == waiting_action(cv));
                        } else {
                            assert(acts@[k]@ == offline_action(u1[cv], cv));
                        }
                    }
                    assert forall|q: int| 0 <= q < j + 1 implies has_action(acts@, #[trigger] waiting_action(down_codes@[q]@)) by {
                        if q < j {
                            let k = choose|k: int| 0 <= k < acts_before.len() && (#[trigger] acts_before[k])@ == waiting_action(down_codes@[q]@);
                            assert(acts@[k] == acts_before[k]);
                        } else {
                            assert(acts@[acts@.len() - 1]@ == waiting_action(down_codes@[q]@));
                        }
                    }
                    assert forall|q: int| 0 <= q < j + 1 && u1.dom().contains(down_codes@[q]@) implies has_action(acts@, #[trigger] offline_action(u1[down_codes@[q]@], down_codes@[q]@)) by {
                        if q < j {
                            let k = choose|k: int| 0 <= k < acts_before.len() && (#[trigger] acts_before[k])@ == offline_action(u1[down_codes@[q]@], down_codes@[q]@);
                            assert(acts@[k] == acts_before[k]);
                        } else {
                            assert(acts@[acts@.len() - 2]@ == offline_action(u1[cv], cv));
                        }
                    }
                    assert forall|k: int| 0 <= k < n1 implies (#[trigger] acts@[k])@ == failed_action(up_codes@[k]@) by {
                        assert(acts@[k] == acts_before[k]);
                    }
                }
            } else {
                proof {
                    assert(false);
                }
            }
            j = j + 1;
        }
        let ghost after = spec_cleanup_hub(h, peer);
        let ghost n2 = acts@.len();
        let ghost acts2 = acts@;
        proof {
            assert(self@.downloaders == after.downloaders);
        }
        let arrived_code = self.remove_arrived_downloader(peer_id);
        match arrived_code {
            Some(code) => {
                if self.find_downloader(code.as_str()).is_none() {
                    match self.find_uploader(code.as_str()) {
                        Some(up_peer) => {
                            acts.push(SignalAction::Send {
                                to: up_peer,
                                message: SignalingMessage::DownloaderOffline { share_code: code },
                                required: false,
                            });
                        },
                        None => {},
                    }
                }
            },
            None => {},
        }
        proof {
            assert(self@ == after);
            assert forall|k: int| 0 <= k < acts@.len() implies cleanup_action(h, peer, (#[trigger] acts@[k])@) by {
                if k < n1 {
                    let c = up_codes@[k]@;
                    assert(code_set(up_codes@, up_codes@.len() as int).contains(c));
                    assert(acts@[k] == acts2[k]);
                    assert(acts@[k]@ == failed_action(c));
                } else if k < n2 {
                    assert(acts@[k] == acts2[k]);
                } else {
                }
            }
            assert forall|a: ActionView| cleanup_action(h, peer, a) implies has_action(acts@, a) by {
                if exists|c: Seq<char>| up.contains(c) && a == #[trigger] failed_action(c) {
                    let c = choose|c: Seq<char>| up.contains(c) && a == #[trigger] failed_action(c);
                    assert(code_set(up_codes@, up_codes@.len() as int).contains(c));
                    let q = choose|q: int| 0 <= q < up_codes@.len() && (#[trigger] up_codes@[q])@ == c;
                    assert(acts@[q] == acts2[q]);
                    assert(acts@[q]@ == a);
                } else if exists|c: Seq<char>| down.contains(c) && a == #[trigger] waiting_action(c) {
                    let c = choose|c: Seq<char>| down.contains(c) && a == #[trigger] waiting_action(c);
                    assert(code_set(down_codes@, down_codes@.len() as int).contains(c));
                    let q = choose|q: int| 0 <= q < down_codes@.len() && (#[trigger] down_codes@[q])@ == c;
                    assert(has_action(acts2, waiting_action(down_codes@[q]@)));
                    let k = choose|k: int| 0 <= k < acts2.len() && (#[trigger] acts2[k])@ == waiting_action(down_codes@[q]@);
                    assert(acts@[k] == acts2[k]);
                } else if exists|c: Seq<char>| down.contains(c) && u1.dom().contains(c) && a == #[trigger] offline_action(u1[c], c) {
                    let c = choose|c: Seq<char>| down.contains(c) && u1.dom().contains(c) && a == #[trigger] offline_action(u1[c], c);
                    assert(code_set(down_codes@, down_codes@.len() as int).contains(c));
                    let q = choose|q: int| 0 <= q < down_codes@.len() && (#[trigger] down_codes@[q])@ == c;
                    assert(has_action(acts2, offline_action(u1[down_codes@[q]@], down_codes@[q]@)));
                    let k = choose|k: int| 0 <= k < acts2.len() && (#[trigger] acts2[k])@ == offline_action(u1[down_codes@[q]@], down_codes@[q]@);
                    assert(acts@[k] == acts2[k]);
                } else {
                    assert(acts@[acts@.len() - 1]@ == a);
                }
            }
        }
        acts
    }
}

/// Law: once a peer has disconnected, it is nobody's uploader or
/// downloader and has no share page open.
pub proof fn lemma_disconnect_forgets_peer(h: HubView, peer: Seq<char>, c: Seq<char>)
    ensures
        lookup(spec_cleanup_hub(h, peer).uploaders, c) != Some(peer),
        lookup(spec_cleanup_hub(h, peer).downloaders, c) != Some(peer),
        !spec_cleanup_hub(h, peer).arrived.dom().contains(peer),
{
}

/// Law: a disconnect touches no other peer's registration: every share
/// whose uploader or downloader is someone else keeps it, unless the
/// disconnected peer uploaded that share.
pub proof fn lemma_disconnect_keeps_others(h: HubView, peer: Seq<char>, c: Seq<char>)
    ensures
        lookup(h.uploaders, c) matches Some(u) ==> (u != peer ==> lookup(spec_cleanup_hub(h, peer).uploaders, c) == Some(u)),
        lookup(h.downloaders, c) matches Some(d) ==> (d != peer && lookup(h.uploaders, c) != Some(peer)
            ==> lookup(spec_cleanup_hub(h, peer).downloaders, c) == Some(d)),
{
}

/// Law: the handshake messages go to the other side of the share: an offer
/// to its downloader, an answer or a file request to its uploader, an ICE
/// candidate from the uploader to the downloader and from anyone else to
/// the uploader; each carries the sender's id, and the hub is unchanged.
pub proof fn lemma_relay_reaches_other_side(h: HubView, from: Seq<char>, m: MessageView)
    ensures
        m matches MessageView::Offer { share_code, sdp, .. } ==> (h.downloaders.dom().contains(share_code) ==>
            spec_handle_message(h, from, m, None) == Ok::<(HubView, Seq<ActionView>), Seq<char>>((h, seq![send(h.downloaders[share_code], MessageView::Offer { share_code, sdp, peer_id: from })]))),
        m matches MessageView::Answer { share_code, sdp, .. } ==> (h.uploaders.dom().contains(share_code) ==>
            spec_handle_message(h, from, m, None) == Ok::<(HubView, Seq<ActionView>), Seq<char>>((h, seq![send(h.uploaders[share_code], MessageView::Answer { share_code, sdp, peer_id: from })]))),
        m matches MessageView::FileRequest { share_code, file_name } ==> (h.uploaders.dom().contains(share_code) ==>
            spec_handle_message(h, from, m, None) == Ok::<(HubView, Seq<ActionView>), Seq<char>>((h, seq![send(h.uploaders[share_code], MessageView::FileRequest { share_code, file_name })]))),
        m matches MessageView::IceCandidate { share_code, candidate, sdp_mid, sdp_m_line_index, .. } ==> (h.uploaders.dom().contains(share_code) ==> {
            let fwd = MessageView::IceCandidate { share_code, candidate, sdp_mid, sdp_m_line_index, peer_id: from };
            &&& from != h.uploaders[share_code] ==> spec_handle_message(h, from, m, None)
                == Ok::<(HubView, Seq<ActionView>), Seq<char>>((h, seq![send(h.uploaders[share_code], fwd)]))
            &&& from == h.uploaders[share_code] && h.downloaders.dom().contains(share_code) ==> spec_handle_message(h, from, m, None)
                == Ok::<(HubView, Seq<ActionView>), Seq<char>>((h, seq![send(h.downloaders[share_code], fwd)]))
        }),
{
}

/// Law: a downloader that joins is matched with the share's registered
/// uploader, becomes the share's downloader, and both sides learn the
/// other's id; a join of a share without an uploader online is refused and
/// changes nothing.
pub proof fn lemma_join_matches_registered_uploader(h: HubView, from: Seq<char>, m: MessageView, share: (Seq<char>, Option<Seq<char>>))
    requires
        m is DownloaderJoin,
        spec_p2p_password_ok(share.1, m->DownloaderJoin_password),
    ensures
        !h.uploaders.dom().contains(m->DownloaderJoin_share_code)
            ==> spec_handle_message(h, from, m, Some(share)) == Err::<(HubView, Seq<ActionView>), Seq<char>>("Uploader is not online"@),
        h.uploaders.dom().contains(m->DownloaderJoin_share_code) ==> ({
            let code = m->DownloaderJoin_share_code;
            let up = h.uploaders[code];
            let r = spec_handle_message(h, from, m, Some(share));
            &&& r is Ok
            &&& r->Ok_0.0.downloaders == h.downloaders.insert(code, from)
            &&& r->Ok_0.0.uploaders == h.uploaders
            &&& r->Ok_0.1[0] matches ActionView::Send { to, message: MessageView::PeerMatched { peer_id, role: PeerRole::Downloader, .. }, .. }
                && to == up && peer_id == from
            &&& r->Ok_0.1[1] matches ActionView::Send { to, message: MessageView::PeerMatched { peer_id, role: PeerRole::Uploader, .. }, .. }
                && to == from && peer_id == up
        }),
{
}

/// Law: an uploader that is ready is registered for its share only when
/// the share exists and is a P2P share.
pub proof fn lemma_uploader_ready_needs_p2p_share(h: HubView, from: Seq<char>, m: MessageView, share: Option<(Seq<char>, Option<Seq<char>>)>)
    requires
        m is UploaderReady,
    ensures
        spec_handle_message(h, from, m, share) is Ok <==> (share matches Some((t, _)) && t == "p2p"@),
        spec_handle_message(h, from, m, share) matches Ok((h2, _)) ==> h2.uploaders == h.uploaders.insert(m->UploaderReady_share_code, from),
{
}

/// Law: a join of a password-protected share with a missing or wrong
/// password is refused with `Incorrect password for this share`; the hub is
/// unchanged and the downloader is never relayed to the uploader.
pub proof fn lemma_wrong_password_never_relayed(h: HubView, from: Seq<char>, m: MessageView, transfer_type: Seq<char>, hash: Seq<char>)
    requires
        m is DownloaderJoin,
        !spec_p2p_password_ok(Some(hash), m->DownloaderJoin_password),
    ensures
        spec_handle_message(h, from, m, Some((transfer_type, Some(hash))))
            == Err::<(HubView, Seq<ActionView>), Seq<char>>("Incorrect password for this share"@),
{
}

/// Query of the P2P status of a share.
#[derive(Debug)]
pub struct P2pStatusQuery {
    pub code: String,
}

/// Whether the uploader of a share is connected.
#[derive(Debug)]
pub struct P2pStatusResponse {
    pub share_code: String,
    pub uploader_online: bool,
}

impl SignalingHub {
    /// Whether the uploader of the share `query` names is connected.
    pub fn uploader_status(&self, query: P2pStatusQuery) -> (r: P2pStatusResponse)
        ensures
            r.share_code@ == query.code@,
            r.uploader_online == self@.uploaders.dom().contains(query.code@),
    {
        let online = self.find_uploader(query.code.as_str()).is_some();
        P2pStatusResponse { share_code: query.code, uploader_online: online }
    }
}

/// Law: an uploader's cancellation is passed on to the share's downloader
/// and no one else: with a downloader registered for the code, exactly one
/// message goes out, to that downloader, carrying the cancellation of the
/// same code; with none, nothing goes out. The hub is left as it was.
pub proof fn lemma_cancellation_reaches_downloader(h: HubView, from: Seq<char>, code: Seq<char>, share: Option<(Seq<char>, Option<Seq<char>>)>)
    ensures
        h.downloaders.dom().contains(code) ==> spec_handle_message(h, from, MessageView::UploaderCancelled { share_code: code }, share)
            == Ok::<(HubView, Seq<ActionView>), Seq<char>>((h, seq![ActionView::Send {
                to: h.downloaders[code],
                message: MessageView::UploaderCancelled { share_code: code },
                required: false,
            }])),
        !h.downloaders.dom().contains(code) ==> spec_handle_message(h, from, MessageView::UploaderCancelled { share_code: code }, share)
            == Ok::<(HubView, Seq<ActionView>), Seq<char>>((h, Seq::empty())),
{
}

/// Law: the end of a transfer reaches the uploader and the store, an
/// arrival reaches the uploader, and a ping is answered to its sender. A
/// downloader's arrival is told to the share's uploader with the
/// downloader's id and recorded against the downloader; a completion is
/// passed to the uploader (when one is registered) and always marks the
/// transfer complete; a ping gets a pong back to the peer that sent it.
pub proof fn lemma_arrival_completion_and_ping(h: HubView, from: Seq<char>, code: Seq<char>, device_info: Option<Seq<char>>, peer_id: Seq<char>, share: Option<(Seq<char>, Option<Seq<char>>)>)
    ensures
        h.uploaders.dom().contains(code) ==> ({
            let r = spec_handle_message(h, from, MessageView::DownloaderArrived { share_code: code, peer_id, device_info }, share);
            &&& r is Ok
            &&& r->Ok_0.0.arrived == h.arrived.insert(from, code)
            &&& r->Ok_0.0.uploaders == h.uploaders && r->Ok_0.0.downloaders == h.downloaders
            &&& r->Ok_0.1 == seq![ActionView::Send {
                to: h.uploaders[code],
                message: MessageView::DownloaderArrived { share_code: code, peer_id: from, device_info },
                required: true,
            }]
        }),
        h.uploaders.dom().contains(code) ==> spec_handle_message(h, from, MessageView::TransferComplete { share_code: code }, share)
            == Ok::<(HubView, Seq<ActionView>), Seq<char>>((h, seq![
                ActionView::Send { to: h.uploaders[code], message: MessageView::TransferComplete { share_code: code }, required: false },
                ActionView::CompleteTransfer { share_code: code },
            ])),
        !h.uploaders.dom().contains(code) ==> spec_handle_message(h, from, MessageView::TransferComplete { share_code: code }, share)
            == Ok::<(HubView, Seq<ActionView>), Seq<char>>((h, seq![ActionView::CompleteTransfer { share_code: code }])),
        spec_handle_message(h, from, MessageView::Ping, share)
            == Ok::<(HubView, Seq<ActionView>), Seq<char>>((h, seq![ActionView::Send { to: from, message: MessageView::Pong, required: true }])),
{
}

} // verus!
