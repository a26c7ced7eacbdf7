//! A signed-in user's account: the display name, the default expiration of
//! uploads, who may touch a share, and the lists of uploads and sessions,
//! newest first.

use vstd::prelude::*;
use vstd::utf8::encode_utf8;
use crate::api_error::{AppError, AppErrorView, err_view};
use crate::share_password::opt_str;
use crate::text::{push_str, string_from, to_chars, trim, trim_seq};
use crate::upload_policy::{is_allowed_default_expiration, spec_period_from_name};

verus! {

/// A display name: the one typed, trimmed, of 1 to 50 bytes.
pub open spec fn spec_display_name(raw: Seq<char>) -> Result<Seq<char>, AppErrorView> {
    let name = trim_seq(raw);
    if name.len() == 0 || encode_utf8(name).len() > 50 {
        Err(AppErrorView::BadRequest("Name must be between 1 and 50 characters"@))
    } else {
        Ok(name)
    }
}

/// The display name a user asks for.
pub fn validate_display_name(raw: &str) -> (r: Result<String, AppError>)
    ensures
        match r {
            Ok(n) => spec_display_name(raw@) == Ok::<Seq<char>, AppErrorView>(n@),
            Err(e) => spec_display_name(raw@) == Err::<Seq<char>, AppErrorView>(e@),
        },
{
    let name = string_from(&trim(&to_chars(raw)));
    if name.as_str().is_empty() || name.as_str().as_bytes().len() > 50 {
        return Err(AppError::BadRequest("Name must be between 1 and 50 characters".to_string()));
    }
    Ok(name)
}

/// The default expiration a user stores must name a period.
pub fn check_default_expiration(s: &str) -> (r: Result<(), AppError>)
    ensures
        r is Ok <==> spec_period_from_name(s@) is Some,
        r is Err ==> err_view(r) == Some(AppErrorView::BadRequest("Invalid default_expiration value"@)),
{
    if !is_allowed_default_expiration(s) {
        return Err(AppError::BadRequest("Invalid default_expiration value".to_string()));
    }
    Ok(())
}

/// A user touches only its own shares.
pub fn check_file_owner(owner: Option<&str>, user_id: &str) -> (r: Result<(), AppError>)
    ensures
        r is Ok <==> opt_str(owner) == Some(user_id@),
        r is Err ==> err_view(r) == Some(AppErrorView::Forbidden("Access to another user's file is forbidden"@)),
{
    match owner {
        Some(o) => {
            let a = o.to_string();
            let b = user_id.to_string();
            if a == b {
                return Ok(());
            }
        },
        None => {},
    }
    Err(AppError::Forbidden("Access to another user's file is forbidden".to_string()))
}

/// `order` lists the indices of `keys` newest first: a permutation, with
/// keys descending, and equal keys in the order they came.
pub open spec fn newest_first_order(keys: Seq<i64>, order: Seq<usize>) -> bool {
    &&& order.len() == keys.len()
    &&& forall|a: int| 0 <= a < order.len() ==> #[trigger] order[a] < keys.len()
    &&& forall|a: int, b: int| 0 <= a < b < order.len() ==> order[a] != order[b]
    &&& forall|a: int, b: int| 0 <= a < b < order.len() ==> keys[order[a] as int] >= keys[order[b] as int]
    &&& forall|a: int, b: int| 0 <= a < b < order.len() && keys[order[a] as int] == keys[order[b] as int] ==> order[a] < order[b]
}

/// The order of a prefix of `keys`, newest first.
pub open spec fn sorted_prefix(keys: Seq<i64>, order: Seq<usize>, n: int) -> bool {
    &&& order.len() == n
    &&& forall|a: int| 0 <= a < order.len() ==> #[trigger] order[a] < n
    &&& forall|a: int, b: int| 0 <= a < b < order.len() ==> order[a] != order[b]
    &&& forall|a: int, b: int| 0 <= a < b < order.len() ==> keys[order[a] as int] >= keys[order[b] as int]
    &&& forall|a: int, b: int| 0 <= a < b < order.len() && keys[order[a] as int] == keys[order[b] as int] ==> order[a] < order[b]
}

/// The indices of `keys` (timestamps) newest first; ties keep their order
/// (a stable sort on the timestamp, descending).
pub fn newest_first(keys: &Vec<i64>) -> (r: Vec<usize>)
    ensures
        newest_first_order(keys@, r@),
{
    let mut order: Vec<usize> = Vec::new();
    let mut i: usize = 0;
    while i < keys.len()
        invariant
            0 <= i <= keys.len(),
            sorted_prefix(keys@, order@, i as int),
        decreases keys.len() - i,
    {
        let k = keys[i];
        let mut p: usize = 0;
        while p < order.len() && keys[order[p]] >= k
            invariant
                0 <= p <= order.len(),
                sorted_prefix(keys@, order@, i as int),
                i < keys.len(),
                k == keys@[i as int],
                forall|q: int| 0 <= q < p ==> keys@[order@[q] as int] >= k,
            decreases order.len() - p,
        {
            p = p + 1;
        }
        let ghost old_order = order@;
        proof {
            assert forall|q: int| p <= q < old_order.len() implies keys@[old_order[q] as int] < k by {
                assert(keys@[old_order[p as int] as int] < k);
                if q > p {
                    assert(keys@[old_order[p as int] as int] >= keys@[old_order[q] as int]);
                }
            }
        }
        order.insert(p, i);
        proof {
            let s = order@;
            assert(s == old_order.insert(p as int, i));
            assert forall|a: int| 0 <= a < s.len() implies #[trigger] s[a] < i + 1 by {
                if a < p { assert(s[a] == old_order[a]); } else if a > p { assert(s[a] == old_order[a - 1]); }
            }
            assert forall|a: int, b: int| 0 <= a < b < s.len() implies s[a] != s[b] by {
                if a < p { assert(s[a] == old_order[a]); } else if a > p { assert(s[a] == old_order[a - 1]); }
                if b < p { assert(s[b] == old_order[b]); } else if b > p { assert(s[b] == old_order[b - 1]); }
                if a != p && b != p {
                } else if a == p {
                    assert(old_order[b - 1] < i);
                } else {
                    assert(old_order[a] < i);
                }
            }
            assert forall|a: int, b: int| 0 <= a < b < s.len() implies keys@[s[a] as int] >= keys@[s[b] as int] by {
                if a < p { assert(s[a] == old_order[a]); } else if a > p { assert(s[a] == old_order[a - 1]); }
                if b < p { assert(s[b] == old_order[b]); } else if b > p { assert(s[b] == old_order[b - 1]); }
            }
            assert forall|a: int, b: int| 0 <= a < b < s.len() && keys@[s[a] as int] == keys@[s[b] as int] implies s[a] < s[b] by {
                if a < p { assert(s[a] == old_order[a]); } else if a > p { assert(s[a] == old_order[a - 1]); }
                if b < p { assert(s[b] == old_order[b]); } else if b > p { assert(s[b] == old_order[b - 1]); }
                if b == p {
                    assert(old_order[a] < i);
                }
            }
        }
        i = i + 1;
    }
    order
}

/// The envelope of an upload history page (`GET /user/uploads`): the
/// listed shares newest first, how many are listed, and the page asked for.
#[derive(Debug)]
pub struct HistoryPage {
    pub order: Vec<usize>,
    pub total: usize,
    pub limit: Option<i64>,
    pub offset: Option<i64>,
}

/// Builds the history page of the shares created at `created` (the user's
/// own page and the Quick Access shares granted to them, together).
pub fn history_page(created: &Vec<i64>, limit: Option<i64>, offset: Option<i64>) -> (r: HistoryPage)
    ensures
        newest_first_order(created@, r.order@),
        r.total == created@.len(),
        r.limit == limit,
        r.offset == offset,
{
    let order = newest_first(created);
    HistoryPage { order, total: created.len(), limit, offset }
}

/// The label of a CLI session: `CLI on <platform>` when the platform is
/// known, else `CLI`.
pub open spec fn spec_cli_session_label(platform: Option<Seq<char>>) -> Seq<char> {
    match platform {
        Some(p) => if p.len() > 0 { "CLI on "@ + p } else { "CLI"@ },
        None => "CLI"@,
    }
}

/// The label of a CLI session.
pub fn cli_session_label(platform: Option<&str>) -> (r: String)
    ensures
        r@ == spec_cli_session_label(opt_str(platform)),
{
    match platform {
        Some(p) => {
            if p.is_empty() {
                return "CLI".to_string();
            }
            let mut s = "CLI on ".to_string();
            push_str(&mut s, p);
            s
        },
        None => "CLI".to_string(),
    }
}

/// A session may be ended from another one, not from itself.
pub fn check_terminable(jti: &str, current_jti: &str) -> (r: Result<(), AppError>)
    ensures
        r is Ok <==> jti@ != current_jti@,
        r is Err ==> err_view(r) == Some(AppErrorView::BadRequest("Cannot terminate the active session"@)),
{
    let a = jti.to_string();
    let b = current_jti.to_string();
    if a == b {
        return Err(AppError::BadRequest("Cannot terminate the active session".to_string()));
    }
    Ok(())
}

/// Ending a session: a web session with that id, else a CLI token; `404`
/// when neither changed a row (`cli_rows` is `None` when the web session
/// was found and no token was looked at).
pub fn termination_outcome(web_rows: u64, cli_rows: Option<u64>) -> (r: Result<(), AppError>)
    ensures
        r is Ok <==> (web_rows > 0 || (cli_rows matches Some(c) && c > 0)),
        r is Err ==> err_view(r) == Some(AppErrorView::NotFound("Session not found"@)),
{
    if web_rows > 0 {
        return Ok(());
    }
    match cli_rows {
        Some(c) => {
            if c > 0 {
                return Ok(());
            }
        },
        None => {},
    }
    Err(AppError::NotFound("Session not found".to_string()))
}

/// One page of `/v1/me/uploads`: the rows on the page (indices into the
/// user's rows), newest first; how many rows there are over all pages; and
/// the limit and offset the page was cut with.
#[derive(Debug)]
pub struct UploadsPage {
    pub items: Vec<usize>,
    pub total: usize,
    pub limit: i64,
    pub offset: i64,
}

/// The rows `offset..offset + limit` of an order, as far as it goes.
pub open spec fn page_of(order: Seq<usize>, offset: int, limit: int) -> Seq<usize> {
    let from = if offset < order.len() { offset } else { order.len() as int };
    let to = if offset + limit < order.len() { offset + limit } else { order.len() as int };
    order.subrange(from, to)
}

/// The limit a listing is cut with: 20 unless asked, at most 100.
pub open spec fn listing_limit(limit: Option<i64>) -> int {
    match limit {
        Some(l) => if l < 100 { l as int } else { 100 },
        None => 20,
    }
}

/// The offset a listing starts at: 0 unless asked.
pub open spec fn listing_offset(offset: Option<i64>) -> int {
    match offset {
        Some(o) => o as int,
        None => 0,
    }
}

/// The page of `/v1/me/uploads` over the user's rows created at `created`
/// (expired shares among them): newest first, cut at the offset (0 unless
/// asked) and the limit (20 unless asked, at most 100), with the count of
/// all rows. A negative limit or offset is refused by the database, which
/// the listing answers as an internal error.
pub fn v1_uploads_page(created: &Vec<i64>, limit: Option<i64>, offset: Option<i64>) -> (r: Result<UploadsPage, AppError>)
    ensures
        r is Err <==> (listing_limit(limit) < 0 || listing_offset(offset) < 0),
        r matches Err(e) ==> e@ == AppErrorView::Internal("Failed to fetch upload history"@),
        r matches Ok(p) ==> {
            &&& p.total == created@.len()
            &&& p.limit == listing_limit(limit)
            &&& p.offset == listing_offset(offset)
            &&& exists|order: Seq<usize>| #[trigger] newest_first_order(created@, order)
                && page_of(order, p.offset as int, p.limit as int) == p.items@
        },
{
    let (l, o) = crate::download::cli_history_page(limit, offset);
    if l < 0 || o < 0 {
        return Err(AppError::Internal("Failed to fetch upload history".to_string()));
    }
    let order = newest_first(created);
    let n = order.len();
    let from: usize = if (o as u64) < (n as u64) { o as usize } else { n };
    let to: usize = if (l as u64) < ((n - from) as u64) { from + l as usize } else { n };
    let mut items: Vec<usize> = Vec::new();
    let mut k: usize = from;
    while k < to
        invariant
            from <= k <= to <= n,
            n == order@.len(),
            items@ == order@.subrange(from as int, k as int),
        decreases to - k,
    {
        items.push(order[k]);
        k = k + 1;
    }
    let page = UploadsPage { items, total: created.len(), limit: l, offset: o };
    proof {
        assert(page_of(order@, o as int, l as int) =~= page.items@);
        assert(newest_first_order(created@, order@) && page_of(order@, page.offset as int, page.limit as int) == page.items@);
    }
    Ok(page)
}

} // verus!
