//! ICE servers handed to P2P peers: the public STUN server first, then the
//! TURN relays that Cloudflare issues credentials for.

use vstd::prelude::*;
use std::sync::Arc;
use crate::api_error::{AppError, AppErrorView};
use crate::config::Config;
use crate::download::opt_view;
use crate::text::{push_str, starts_with_seq, starts_with, to_chars, views};

verus! {

/// What the TURN credentials handler needs.
pub struct TurnState {
    pub config: Arc<Config>,
}

/// The `urls` of an ICE server as Cloudflare sends them: one URL or a list.
#[derive(Debug)]
pub enum StringOrVec {
    Single(String),
    Multiple(Vec<String>),
}

/// The URLs, as a list.
pub open spec fn spec_urls(u: StringOrVec) -> Seq<Seq<char>> {
    match u {
        StringOrVec::Single(s) => seq![s@],
        StringOrVec::Multiple(v) => views(v@),
    }
}

impl StringOrVec {
    /// The URLs, as a list.
    pub fn into_vec(self) -> (r: Vec<String>)
        ensures
            views(r@) == spec_urls(self),
    {
        match self {
            StringOrVec::Single(s) => {
                let r = vec![s];
                assert(views(r@) =~= seq![r@[0]@]);
                r
            },
            StringOrVec::Multiple(v) => v,
        }
    }
}

/// An ICE server as Cloudflare returns it.
#[derive(Debug)]
pub struct CloudflareIceServer {
    pub urls: StringOrVec,
    pub username: Option<String>,
    pub credential: Option<String>,
}

/// An ICE server as handed to a peer.
#[derive(Debug)]
pub struct IceServer {
    pub urls: Vec<String>,
    pub username: Option<String>,
    pub credential: Option<String>,
}

/// The public STUN server every peer gets first.
pub open spec fn stun_url() -> Seq<char> {
    "stun:stun.cloudflare.com:3478"@
}

/// Lifetime asked for TURN credentials: one day, in seconds.
pub const TURN_CREDENTIALS_TTL_SECS: u64 = 86400;

/// Whether the `i`-th handed-out server is what `cf` says: the STUN server
/// at index 0, then Cloudflare's servers in order.
pub open spec fn ice_server_ok(r: Seq<IceServer>, cf: Seq<CloudflareIceServer>, i: int) -> bool {
    if i == 0 {
        views(r[0].urls@) == seq![stun_url()] && r[0].username is None && r[0].credential is None
    } else {
        &&& views(r[i].urls@) == spec_urls(cf[i - 1].urls)
        &&& opt_view(r[i].username) == opt_view(cf[i - 1].username)
        &&& opt_view(r[i].credential) == opt_view(cf[i - 1].credential)
    }
}

/// The ICE servers handed to a peer.
pub fn ice_servers_from(cf: Vec<CloudflareIceServer>) -> (r: Vec<IceServer>)
    ensures
        r@.len() == cf@.len() + 1,
        forall|i: int| 0 <= i < r@.len() ==> ice_server_ok(r@, cf@, i),
{
    let ghost cf0 = cf@;
    let stun = "stun:stun.cloudflare.com:3478".to_string();
    let first = vec![stun];
    proof {
        assert(views(first@) =~= seq![stun_url()]);
    }
    let mut r: Vec<IceServer> = Vec::new();
    r.push(IceServer { urls: first, username: None, credential: None });
    let mut rest = cf;
    let mut i: usize = 0;
    let n = rest.len();
    while rest.len() > 0
        invariant
            n == cf0.len(),
            i + rest@.len() == n,
            rest@ == cf0.subrange(i as int, n as int),
            r@.len() == i + 1,
            forall|j: int| 0 <= j < r@.len() ==> ice_server_ok(r@, cf0, j),
        decreases rest@.len(),
    {
        let s = rest.remove(0);
        proof {
            assert(s == cf0[i as int]);
            assert(rest@ =~= cf0.subrange(i as int + 1, n as int));
        }
        let ghost before = r@;
        let CloudflareIceServer { urls, username, credential } = s;
        let urls = urls.into_vec();
        proof {
            assert(views(urls@) == spec_urls(cf0[i as int].urls));
        }
        r.push(IceServer { urls, username, credential });
        proof {
            assert(ice_server_ok(r@, cf0, i as int + 1));
            assert forall|j: int| 0 <= j < r@.len() implies ice_server_ok(r@, cf0, j) by {
                if j < before.len() {
                    assert(ice_server_ok(before, cf0, j));
                    assert(r@[j] == before[j]);
                }
            }
        }
        i = i + 1;
    }
    r
}

/// Whether some URL of a server is a TURN relay (`turn:` or `turns:`).
pub open spec fn is_relay(urls: Seq<Seq<char>>) -> bool {
    exists|k: int| 0 <= k < urls.len() && (starts_with_seq(#[trigger] urls[k], "turn:"@) || starts_with_seq(urls[k], "turns:"@))
}

/// Number of relays among the first `n` servers.
pub open spec fn relays_upto(s: Seq<IceServer>, n: int) -> int
    decreases n,
{
    if n <= 0 {
        0
    } else {
        relays_upto(s, n - 1) + if is_relay(views(s[n - 1].urls@)) { 1int } else { 0int }
    }
}

/// Whether a server is a TURN relay.
fn server_is_relay(s: &IceServer) -> (r: bool)
    ensures
        r == is_relay(views(s.urls@)),
{
    let mut k: usize = 0;
    while k < s.urls.len()
        invariant
            0 <= k <= s.urls.len(),
            forall|j: int| 0 <= j < k ==> !(starts_with_seq(#[trigger] views(s.urls@)[j], "turn:"@) || starts_with_seq(views(s.urls@)[j], "turns:"@)),
        decreases s.urls.len() - k,
    {
        let v = to_chars(s.urls[k].as_str());
        if starts_with(&v, "turn:") || starts_with(&v, "turns:") {
            assert(views(s.urls@)[k as int] == v@);
            return true;
        }
        assert(views(s.urls@)[k as int] == v@);
        k = k + 1;
    }
    false
}

/// How many of the servers are TURN relays.
pub fn turn_relay_count(servers: &Vec<IceServer>) -> (r: usize)
    ensures
        r == relays_upto(servers@, servers@.len() as int),
{
    let mut count: usize = 0;
    let mut i: usize = 0;
    while i < servers.len()
        invariant
            0 <= i <= servers.len(),
            count == relays_upto(servers@, i as int),
            count <= i,
        decreases servers.len() - i,
    {
        if server_is_relay(&servers[i]) {
            count = count + 1;
        }
        i = i + 1;
    }
    count
}

/// Where TURN credentials for key `key_id` are generated.
pub fn turn_credentials_url(key_id: &str) -> (r: String)
    ensures
        r@ == "https://rtc.live.cloudflare.com/v1/turn/keys/"@ + key_id@ + "/credentials/generate-ice-servers"@,
{
    let mut s = "https://rtc.live.cloudflare.com/v1/turn/keys/".to_string();
    push_str(&mut s, key_id);
    push_str(&mut s, "/credentials/generate-ice-servers");
    s
}

/// The JSON body of the credentials request: credentials that live one day
/// (`TURN_CREDENTIALS_TTL_SECS` seconds).
pub fn turn_request_body() -> (r: String)
    ensures
        r@ == "{\"ttl\":86400}"@,
{
    "{\"ttl\":86400}".to_string()
}

/// What Cloudflare's answer to the credentials request gives: for a status
/// outside `200..=299`, an internal error that names the status (as `status`
/// and its text, such as "502 Bad Gateway"); for a body that could not be
/// read as ICE servers (`None`), an internal error; otherwise the ICE
/// servers to hand out.
pub fn turn_credentials_answer(status: u16, status_text: &str, servers: Option<Vec<CloudflareIceServer>>) -> (r: Result<Vec<IceServer>, AppError>)
    ensures
        !(200 <= status <= 299) ==> (r matches Err(e)
            && e@ == AppErrorView::Internal("Cloudflare TURN API error: "@ + status_text@)),
        (200 <= status <= 299 && servers is None) ==> (r matches Err(e)
            && e@ == AppErrorView::Internal("Failed to read Cloudflare TURN response"@)),
        servers matches Some(cf) ==> !(200 <= status <= 299) || (r matches Ok(list)
            && list@.len() == cf@.len() + 1
            && forall|i: int| 0 <= i < list@.len() ==> ice_server_ok(list@, cf@, i)),
{
    if !(200 <= status && status <= 299) {
        let mut m = "Cloudflare TURN API error: ".to_string();
        push_str(&mut m, status_text);
        return Err(AppError::Internal(m));
    }
    match servers {
        None => Err(AppError::Internal("Failed to read Cloudflare TURN response".to_string())),
        Some(cf) => Ok(ice_servers_from(cf)),
    }
}

} // verus!
