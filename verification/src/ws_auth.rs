//! Authentication of the public signaling WebSocket: browsers cannot set
//! headers on a WebSocket, so the API key travels as a subprotocol entry
//! (`api-key.<key>`) beside the protocol identifier `share-anything.v1`.

use vstd::prelude::*;
use crate::api_error::{AppError, AppErrorView, PublicApiError};
use crate::credentials::{check_api_key_state, now_millis, spec_api_key_state};
use crate::scope::{Scope, contains_scope};
use crate::text::{split_trim, split_trim_from, starts_with, starts_with_seq, string_of, to_chars, views};

verus! {

/// The protocol identifier a client must offer, and the only one echoed.
pub open spec fn ws_subprotocol() -> Seq<char> {
    "share-anything.v1"@
}

/// The prefix of the entry that carries the API key.
pub open spec fn api_key_entry_prefix() -> Seq<char> {
    "api-key."@
}

/// The entries of the `Sec-WebSocket-Protocol` values, in order: each
/// value split at commas, each entry trimmed.
pub open spec fn protocol_entries(values: Seq<Seq<char>>) -> Seq<Seq<char>>
    decreases values.len(),
{
    if values.len() == 0 {
        Seq::empty()
    } else {
        protocol_entries(values.drop_last()) + split_trim_from(values.last(), 0)
    }
}

/// Whether an entry carries an API key.
pub open spec fn is_key_entry(e: Seq<char>) -> bool {
    e != ws_subprotocol() && starts_with_seq(e, api_key_entry_prefix())
}

/// The key of the last entry that carries one.
pub open spec fn last_api_key(entries: Seq<Seq<char>>) -> Option<Seq<char>>
    decreases entries.len(),
{
    if entries.len() == 0 {
        None
    } else if is_key_entry(entries.last()) {
        Some(entries.last().subrange(8, entries.last().len() as int))
    } else {
        last_api_key(entries.drop_last())
    }
}

/// The header values as text (`None` for one that is not text).
pub open spec fn value_views(values: Seq<Option<String>>) -> Seq<Option<Seq<char>>> {
    Seq::new(values.len(), |i: int| match values[i] {
        Some(s) => Some(s@),
        None => None,
    })
}

/// The text of header values that are all text.
pub open spec fn texts(values: Seq<Option<Seq<char>>>) -> Seq<Seq<char>> {
    Seq::new(values.len(), |i: int| values[i]->0)
}

/// The API key of a WebSocket upgrade, or the message of the `401` it is
/// refused with: every value must be text, the protocol identifier must be
/// offered, an API key entry must be present, and the key (from the last
/// such entry) must be a public API key (`sak_`).
pub open spec fn spec_ws_api_key(values: Seq<Option<Seq<char>>>) -> Result<Seq<char>, Seq<char>> {
    if exists|i: int| 0 <= i < values.len() && (#[trigger] values[i]) is None {
        Err("Invalid Sec-WebSocket-Protocol header"@)
    } else {
        let entries = protocol_entries(texts(values));
        if !entries.contains(ws_subprotocol()) {
            Err("Missing 'share-anything.v1' subprotocol on WebSocket upgrade."@)
        } else {
            match last_api_key(entries) {
                None => Err("Missing 'api-key.<sak_...>' subprotocol on WebSocket upgrade."@),
                Some(k) => if starts_with_seq(k, "sak_"@) {
                    Ok(k)
                } else {
                    Err("Invalid token format. Only API keys (sak_ prefix) are accepted."@)
                },
            }
        }
    }
}

proof fn lemma_last_api_key_push(entries: Seq<Seq<char>>, e: Seq<char>)
    ensures
        last_api_key(entries.push(e)) == (if is_key_entry(e) { Some(e.subrange(8, e.len() as int)) } else { last_api_key(entries) }),
{
    assert(entries.push(e).drop_last() =~= entries);
}

/// The API key a WebSocket upgrade offers.
pub fn ws_api_key(values: &Vec<Option<String>>) -> (r: Result<String, PublicApiError>)
    ensures
        match r {
            Ok(k) => spec_ws_api_key(value_views(values@)) == Ok::<Seq<char>, Seq<char>>(k@),
            Err(e) => e matches PublicApiError::Unauthorized(m) && spec_ws_api_key(value_views(values@)) == Err::<Seq<char>, Seq<char>>(m@),
        },
{
    let ghost vv = value_views(values@);
    let mut saw = false;
    let mut key: Option<String> = None;
    let mut i: usize = 0;
    let ghost mut seen: Seq<Seq<char>> = Seq::empty();
    while i < values.len()
        invariant
            0 <= i <= values.len(),
            vv == value_views(values@),
            forall|j: int| 0 <= j < i ==> (#[trigger] vv[j]) is Some,
            seen == protocol_entries(texts(vv.take(i as int))),
            saw == seen.contains(ws_subprotocol()),
            match key {
                Some(k) => last_api_key(seen) == Some(k@),
                None => last_api_key(seen) is None,
            },
        decreases values.len() - i,
    {
        let v: &String = match &values[i] {
            Some(v) => v,
            None => {
                proof {
                    assert(vv[i as int] is None);
                }
                return Err(PublicApiError::Unauthorized("Invalid Sec-WebSocket-Protocol header".to_string()));
            },
        };
        let items = split_trim(v.as_str());
        let ghost before = seen;
        let ghost items_v = views(items@);
        let mut k: usize = 0;
        while k < items.len()
            invariant
                0 <= k <= items.len(),
                items_v == views(items@),
                seen == before + items_v.take(k as int),
                saw == seen.contains(ws_subprotocol()),
                match key {
                    Some(kk) => last_api_key(seen) == Some(kk@),
                    None => last_api_key(seen) is None,
                },
            decreases items.len() - k,
        {
            let e = &items[k];
            let ev = to_chars(e.as_str());
            let ghost old_seen = seen;
            proof {
                seen = seen.push(e@);
                assert(seen == before + items_v.take(k as int + 1)) by {
                    assert(items_v.take(k as int + 1) =~= items_v.take(k as int).push(e@));
                }
                lemma_last_api_key_push(old_seen, e@);
            }
            proof { reveal_strlit("share-anything.v1"); }
            if crate::text::eq_str(&ev, "share-anything.v1") {
                saw = true;
            } else if starts_with(&ev, "api-key.") {
                proof { reveal_strlit("api-key."); }
                key = Some(string_of(&ev, 8, ev.len()));
            }
            proof {
                assert(seen.contains(ws_subprotocol()) == (old_seen.contains(ws_subprotocol()) || e@ == ws_subprotocol())) by {
                    if e@ == ws_subprotocol() {
                        assert(seen[seen.len() - 1] == e@);
                    }
                    if old_seen.contains(ws_subprotocol()) {
                        let j = choose|j: int| 0 <= j < old_seen.len() && old_seen[j] == ws_subprotocol();
                        assert(seen[j] == old_seen[j]);
                    }
                    if seen.contains(ws_subprotocol()) {
                        let j = choose|j: int| 0 <= j < seen.len() && seen[j] == ws_subprotocol();
                        if j < old_seen.len() {
                            assert(old_seen[j] == seen[j]);
                        }
                    }
                }
            }
            k = k + 1;
        }
        proof {
            assert(items_v.take(items_v.len() as int) =~= items_v);
            assert(vv.take(i as int + 1).drop_last() =~= vv.take(i as int));
            assert(texts(vv.take(i as int + 1)).drop_last() =~= texts(vv.take(i as int)));
            assert(texts(vv.take(i as int + 1)).last() == v@);
        }
        i = i + 1;
    }
    proof {
        assert(vv.take(vv.len() as int) =~= vv);
        assert(!(exists|j: int| 0 <= j < vv.len() && (#[trigger] vv[j]) is None));
    }
    if !saw {
        return Err(PublicApiError::Unauthorized("Missing 'share-anything.v1' subprotocol on WebSocket upgrade.".to_string()));
    }
    let token = match key {
        None => {
            return Err(PublicApiError::Unauthorized(
                "Missing 'api-key.<sak_...>' subprotocol on WebSocket upgrade.".to_string(),
            ));
        },
        Some(t) => t,
    };
    if !starts_with(&to_chars(token.as_str()), "sak_") {
        return Err(PublicApiError::Unauthorized(
            "Invalid token format. Only API keys (sak_ prefix) are accepted.".to_string(),
        ));
    }
    Ok(token)
}

/// What the checks of the stored key of a WebSocket upgrade answer at time
/// `now` (milliseconds since the epoch): the key's own checks (not expired,
/// not revoked), then the `p2p_transfer` scope.
pub open spec fn ws_key_outcome(r: Result<(), PublicApiError>, expires_at: Option<i64>, revoked: bool, scopes: Seq<Scope>, now: i64) -> bool {
    match spec_api_key_state(expires_at, revoked, now) {
        Some(AppErrorView::Unauthorized(m)) => r matches Err(PublicApiError::Unauthorized(x)) && x@ == m,
        Some(_) => false,
        None => if scopes.contains(Scope::P2pTransfer) {
            r is Ok
        } else {
            r matches Err(PublicApiError::InsufficientScope(s)) && s@ == "p2p_transfer"@
        },
    }
}

/// The checks of the stored key of a WebSocket upgrade at time `now`.
pub fn authorize_ws_key_at(expires_at: Option<i64>, revoked: bool, scopes: &Vec<Scope>, now: i64) -> (r: Result<(), PublicApiError>)
    ensures
        ws_key_outcome(r, expires_at, revoked, scopes@, now),
{
    match check_api_key_state(expires_at, revoked, now) {
        Ok(()) => {},
        Err(AppError::Unauthorized(m)) => { return Err(PublicApiError::Unauthorized(m)); },
        Err(_) => { return Err(PublicApiError::Internal); },
    }
    if !contains_scope(scopes, Scope::P2pTransfer) {
        let s = "p2p_transfer";
        proof { reveal_strlit("p2p_transfer"); }
        return Err(PublicApiError::InsufficientScope(s));
    }
    Ok(())
}

/// The checks of the stored key of a WebSocket upgrade, now: whatever the
/// clock says, a revoked key is refused and a key that never expires and is
/// not revoked passes them; the scope is checked after.
pub fn authorize_ws_key(expires_at: Option<i64>, revoked: bool, scopes: &Vec<Scope>) -> (r: Result<(), PublicApiError>)
    ensures
        exists|now: i64| ws_key_outcome(r, expires_at, revoked, scopes@, now),
{
    authorize_ws_key_at(expires_at, revoked, scopes, now_millis())
}

} // verus!
