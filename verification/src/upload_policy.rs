//! What an upload request may ask for, and what it is refused for.
//!
//! The upload endpoints interleave storage and database work with checks of
//! the request; the checks stand here, each as a function from the request's
//! values to the options the upload proceeds with or the refusal it is
//! answered with. Guests (no account, no token) may only use the five-minute
//! expiration on the web, and neither passwords nor one-time downloads; API
//! keys are held to a storage quota.

use vstd::prelude::*;
use crate::api_error::{AppError, AppErrorView, err_view};
use crate::share_password::{bcrypt_verdict, hash_share_password};
use crate::text::{eq_str, to_chars};

verus! {

/// How long a share stays downloadable.
#[derive(Debug, Clone, Copy, PartialEq, Eq, Structural)]
pub enum ExpirationPeriod {
    FiveMinutes,
    ThirtyMinutes,
    OneHour,
    ThreeHours,
    SixHours,
    TwelveHours,
    TwentyFourHours,
}

/// Stored name of a period.
pub open spec fn spec_period_name(p: ExpirationPeriod) -> Seq<char> {
    match p {
        ExpirationPeriod::FiveMinutes => "five_minutes"@,
        ExpirationPeriod::ThirtyMinutes => "thirty_minutes"@,
        ExpirationPeriod::OneHour => "one_hour"@,
        ExpirationPeriod::ThreeHours => "three_hours"@,
        ExpirationPeriod::SixHours => "six_hours"@,
        ExpirationPeriod::TwelveHours => "twelve_hours"@,
        ExpirationPeriod::TwentyFourHours => "twenty_four_hours"@,
    }
}

/// Length of a period in minutes.
pub open spec fn spec_period_minutes(p: ExpirationPeriod) -> i64 {
    match p {
        ExpirationPeriod::FiveMinutes => 5,
        ExpirationPeriod::ThirtyMinutes => 30,
        ExpirationPeriod::OneHour => 60,
        ExpirationPeriod::ThreeHours => 180,
        ExpirationPeriod::SixHours => 360,
        ExpirationPeriod::TwelveHours => 720,
        ExpirationPeriod::TwentyFourHours => 1440,
    }
}

/// The period a stored name names.
pub open spec fn spec_period_from_name(s: Seq<char>) -> Option<ExpirationPeriod> {
    if s == "five_minutes"@ {
        Some(ExpirationPeriod::FiveMinutes)
    } else if s == "thirty_minutes"@ {
        Some(ExpirationPeriod::ThirtyMinutes)
    } else if s == "one_hour"@ {
        Some(ExpirationPeriod::OneHour)
    } else if s == "three_hours"@ {
        Some(ExpirationPeriod::ThreeHours)
    } else if s == "six_hours"@ {
        Some(ExpirationPeriod::SixHours)
    } else if s == "twelve_hours"@ {
        Some(ExpirationPeriod::TwelveHours)
    } else if s == "twenty_four_hours"@ {
        Some(ExpirationPeriod::TwentyFourHours)
    } else {
        None
    }
}

/// The period a CLI argument names: short (`5m` ... `24h`) or stored form.
pub open spec fn spec_parse_cli_expiration(s: Seq<char>) -> Option<ExpirationPeriod> {
    if s == "5m"@ || s == "five_minutes"@ {
        Some(ExpirationPeriod::FiveMinutes)
    } else if s == "30m"@ || s == "thirty_minutes"@ {
        Some(ExpirationPeriod::ThirtyMinutes)
    } else if s == "1h"@ || s == "one_hour"@ {
        Some(ExpirationPeriod::OneHour)
    } else if s == "3h"@ || s == "three_hours"@ {
        Some(ExpirationPeriod::ThreeHours)
    } else if s == "6h"@ || s == "six_hours"@ {
        Some(ExpirationPeriod::SixHours)
    } else if s == "12h"@ || s == "twelve_hours"@ {
        Some(ExpirationPeriod::TwelveHours)
    } else if s == "24h"@ || s == "twenty_four_hours"@ {
        Some(ExpirationPeriod::TwentyFourHours)
    } else {
        None
    }
}

impl ExpirationPeriod {
    /// Stored name of the period.
    pub fn as_str(&self) -> (r: &'static str)
        ensures
            r@ == spec_period_name(*self),
    {
        match self {
            ExpirationPeriod::FiveMinutes => "five_minutes",
            ExpirationPeriod::ThirtyMinutes => "thirty_minutes",
            ExpirationPeriod::OneHour => "one_hour",
            ExpirationPeriod::ThreeHours => "three_hours",
            ExpirationPeriod::SixHours => "six_hours",
            ExpirationPeriod::TwelveHours => "twelve_hours",
            ExpirationPeriod::TwentyFourHours => "twenty_four_hours",
        }
    }

    /// Length of the period in minutes.
    pub fn minutes(&self) -> (r: i64)
        ensures
            r == spec_period_minutes(*self),
    {
        match self {
            ExpirationPeriod::FiveMinutes => 5,
            ExpirationPeriod::ThirtyMinutes => 30,
            ExpirationPeriod::OneHour => 60,
            ExpirationPeriod::ThreeHours => 180,
            ExpirationPeriod::SixHours => 360,
            ExpirationPeriod::TwelveHours => 720,
            ExpirationPeriod::TwentyFourHours => 1440,
        }
    }

    /// The period a stored name names.
    pub fn from_name(s: &str) -> (r: Option<Self>)
        ensures
            r == spec_period_from_name(s@),
    {
        let v = to_chars(s);
        if eq_str(&v, "five_minutes") {
            Some(ExpirationPeriod::FiveMinutes)
        } else if eq_str(&v, "thirty_minutes") {
            Some(ExpirationPeriod::ThirtyMinutes)
        } else if eq_str(&v, "one_hour") {
            Some(ExpirationPeriod::OneHour)
        } else if eq_str(&v, "three_hours") {
            Some(ExpirationPeriod::ThreeHours)
        } else if eq_str(&v, "six_hours") {
            Some(ExpirationPeriod::SixHours)
        } else if eq_str(&v, "twelve_hours") {
            Some(ExpirationPeriod::TwelveHours)
        } else if eq_str(&v, "twenty_four_hours") {
            Some(ExpirationPeriod::TwentyFourHours)
        } else {
            None
        }
    }
}

/// Parses the expiration argument of the CLI: `5m`, `30m`, `1h`, `3h`, `6h`,
/// `12h`, `24h`, or a stored name.
pub fn parse_cli_expiration(s: &str) -> (r: Option<ExpirationPeriod>)
    ensures
        r == spec_parse_cli_expiration(s@),
{
    let v = to_chars(s);
    if eq_str(&v, "5m") || eq_str(&v, "five_minutes") {
        Some(ExpirationPeriod::FiveMinutes)
    } else if eq_str(&v, "30m") || eq_str(&v, "thirty_minutes") {
        Some(ExpirationPeriod::ThirtyMinutes)
    } else if eq_str(&v, "1h") || eq_str(&v, "one_hour") {
        Some(ExpirationPeriod::OneHour)
    } else if eq_str(&v, "3h") || eq_str(&v, "three_hours") {
        Some(ExpirationPeriod::ThreeHours)
    } else if eq_str(&v, "6h") || eq_str(&v, "six_hours") {
        Some(ExpirationPeriod::SixHours)
    } else if eq_str(&v, "12h") || eq_str(&v, "twelve_hours") {
        Some(ExpirationPeriod::TwelveHours)
    } else if eq_str(&v, "24h") || eq_str(&v, "twenty_four_hours") {
        Some(ExpirationPeriod::TwentyFourHours)
    } else {
        None
    }
}

/// The period a stored name names, or `default` when it names none.
pub fn stored_expiration(s: &str, default: ExpirationPeriod) -> (r: ExpirationPeriod)
    ensures
        r == match spec_period_from_name(s@) {
            Some(p) => p,
            None => default,
        },
{
    match ExpirationPeriod::from_name(s) {
        Some(p) => p,
        None => default,
    }
}

/// Whether a user may store `s` as the default expiration.
pub fn is_allowed_default_expiration(s: &str) -> (r: bool)
    ensures
        r == (spec_period_from_name(s@) is Some),
{
    ExpirationPeriod::from_name(s).is_some()
}

/// Law: every period's stored name is read back as that period, and every
/// short CLI form and stored name names the period it is written for.
pub proof fn lemma_period_names_round_trip(p: ExpirationPeriod)
    ensures
        spec_period_from_name(spec_period_name(p)) == Some(p),
        spec_parse_cli_expiration(spec_period_name(p)) == Some(p),
{
    reveal_strlit("five_minutes");
    reveal_strlit("thirty_minutes");
    reveal_strlit("one_hour");
    reveal_strlit("three_hours");
    reveal_strlit("six_hours");
    reveal_strlit("twelve_hours");
    reveal_strlit("twenty_four_hours");
    reveal_strlit("5m");
    reveal_strlit("30m");
    reveal_strlit("1h");
    reveal_strlit("3h");
    reveal_strlit("6h");
    reveal_strlit("12h");
    reveal_strlit("24h");
    match p {
        ExpirationPeriod::FiveMinutes => {},
        ExpirationPeriod::ThirtyMinutes => {
            assert("thirty_minutes"@.len() == 14);
            assert("five_minutes"@.len() == 12);
            assert("5m"@.len() == 2);
        },
        ExpirationPeriod::OneHour => {
            assert("one_hour"@.len() == 8);
        },
        ExpirationPeriod::ThreeHours => {
            assert("three_hours"@.len() == 11);
        },
        ExpirationPeriod::SixHours => {
            assert("six_hours"@.len() == 9);
        },
        ExpirationPeriod::TwelveHours => {
            assert("twelve_hours"@.len() == 12);
            assert("twelve_hours"@ != "five_minutes"@) by {
                assert("twelve_hours"@[0] != "five_minutes"@[0]);
            }
        },
        ExpirationPeriod::TwentyFourHours => {
            assert("twenty_four_hours"@.len() == 17);
        },
    }
}

/// How the files of a share travel: through storage, or peer to peer.
#[derive(Debug, Clone, Copy, PartialEq, Eq, Structural)]
pub enum TransferType {
    Server,
    P2p,
}

/// Stored name of a transfer type.
pub open spec fn spec_transfer_name(t: TransferType) -> Seq<char> {
    match t {
        TransferType::Server => "server"@,
        TransferType::P2p => "p2p"@,
    }
}

/// The transfer type a stored name names.
pub open spec fn spec_transfer_from_name(s: Seq<char>) -> Option<TransferType> {
    if s == "server"@ {
        Some(TransferType::Server)
    } else if s == "p2p"@ {
        Some(TransferType::P2p)
    } else {
        None
    }
}

impl TransferType {
    /// The transfer type a stored name names.
    pub fn from_name(s: &str) -> (r: Option<Self>)
        ensures
            r == spec_transfer_from_name(s@),
    {
        let v = to_chars(s);
        if eq_str(&v, "server") {
            Some(TransferType::Server)
        } else if eq_str(&v, "p2p") {
            Some(TransferType::P2p)
        } else {
            None
        }
    }

    /// Stored name of the transfer type.
    pub fn as_str(&self) -> (r: &'static str)
        ensures
            r@ == spec_transfer_name(*self),
    {
        match self {
            TransferType::Server => "server",
            TransferType::P2p => "p2p",
        }
    }
}

/// Why an upload request is refused.
#[derive(Debug)]
pub enum UploadRefusal {
    BadRequest(String),
    Unauthorized(String),
    Forbidden(String),
    NotFound(String),
    Conflict(String),
    /// A file or the whole upload is over the size limit.
    PayloadTooLarge,
    /// The API key's active storage would go over its quota.
    StorageQuotaExceeded,
    /// The uploader's daily upload volume would go over its limit.
    DailyQuotaExceeded,
}

/// An upload refusal as it stands in contracts.
pub ghost enum RefusalView {
    BadRequest(Seq<char>),
    Unauthorized(Seq<char>),
    Forbidden(Seq<char>),
    NotFound(Seq<char>),
    Conflict(Seq<char>),
    PayloadTooLarge,
    StorageQuotaExceeded,
    DailyQuotaExceeded,
}

impl View for UploadRefusal {
    type V = RefusalView;

    open spec fn view(&self) -> RefusalView {
        match self {
            UploadRefusal::BadRequest(m) => RefusalView::BadRequest(m@),
            UploadRefusal::Unauthorized(m) => RefusalView::Unauthorized(m@),
            UploadRefusal::Forbidden(m) => RefusalView::Forbidden(m@),
            UploadRefusal::NotFound(m) => RefusalView::NotFound(m@),
            UploadRefusal::Conflict(m) => RefusalView::Conflict(m@),
            UploadRefusal::PayloadTooLarge => RefusalView::PayloadTooLarge,
            UploadRefusal::StorageQuotaExceeded => RefusalView::StorageQuotaExceeded,
            UploadRefusal::DailyQuotaExceeded => RefusalView::DailyQuotaExceeded,
        }
    }
}

/// Which API an upload request came through: the CLI endpoints or the
/// public `/v1` API, whose documented answers differ in places.
#[derive(Debug, Clone, Copy, PartialEq, Eq, Structural)]
pub enum UploadSurface {
    Cli,
    V1,
}

/// The expiration of a relayed upload that names none: thirty minutes on
/// the CLI endpoints, twenty-four hours on `/v1` (as its documentation
/// promises).
pub open spec fn spec_default_upload_expiration(surface: UploadSurface) -> ExpirationPeriod {
    match surface {
        UploadSurface::Cli => ExpirationPeriod::ThirtyMinutes,
        UploadSurface::V1 => ExpirationPeriod::TwentyFourHours,
    }
}

/// The expiration of a relayed upload that names none.
pub fn default_upload_expiration(surface: UploadSurface) -> (r: ExpirationPeriod)
    ensures
        r == spec_default_upload_expiration(surface),
{
    match surface {
        UploadSurface::Cli => ExpirationPeriod::ThirtyMinutes,
        UploadSurface::V1 => ExpirationPeriod::TwentyFourHours,
    }
}

/// A result whose refusal is taken by its view.
pub open spec fn refusal_res<T>(r: Result<T, UploadRefusal>) -> Result<T, RefusalView> {
    match r {
        Ok(v) => Ok(v),
        Err(e) => Err(e@),
    }
}

/// How a refused upload is answered on `/v1`: its HTTP status, its stable
/// error code and its message. A file over the size limit is `413
/// file_too_large`, a full key storage or daily volume `429` with its own
/// code; the other refusals keep their message.
pub open spec fn spec_refusal_answer(r: RefusalView) -> (u16, Seq<char>, Seq<char>) {
    match r {
        RefusalView::BadRequest(m) => (400, "bad_request"@, m),
        RefusalView::Unauthorized(m) => (401, "unauthorized"@, m),
        RefusalView::Forbidden(m) => (403, "forbidden"@, m),
        RefusalView::NotFound(m) => (404, "not_found"@, m),
        RefusalView::Conflict(m) => (409, "conflict"@, m),
        RefusalView::PayloadTooLarge => (413, "file_too_large"@, "Per-file size limit exceeded."@),
        RefusalView::StorageQuotaExceeded => (429, "storage_quota_exceeded"@, "API key storage quota exceeded."@),
        RefusalView::DailyQuotaExceeded => (429, "daily_quota_exceeded"@, "Daily upload quota exceeded."@),
    }
}

/// The `/v1` answer of a refused upload.
pub fn refusal_answer(r: &UploadRefusal) -> (a: (u16, &'static str, String))
    ensures
        (a.0, a.1@, a.2@) == spec_refusal_answer(r@),
{
    match r {
        UploadRefusal::BadRequest(m) => (400, "bad_request", m.clone()),
        UploadRefusal::Unauthorized(m) => (401, "unauthorized", m.clone()),
        UploadRefusal::Forbidden(m) => (403, "forbidden", m.clone()),
        UploadRefusal::NotFound(m) => (404, "not_found", m.clone()),
        UploadRefusal::Conflict(m) => (409, "conflict", m.clone()),
        UploadRefusal::PayloadTooLarge => (413, "file_too_large", "Per-file size limit exceeded.".to_string()),
        UploadRefusal::StorageQuotaExceeded => (429, "storage_quota_exceeded", "API key storage quota exceeded.".to_string()),
        UploadRefusal::DailyQuotaExceeded => (429, "daily_quota_exceeded", "Daily upload quota exceeded.".to_string()),
    }
}

/// `str::parse::<bool>`: exactly `true` or `false`.
pub open spec fn spec_parse_bool(s: Seq<char>) -> Option<bool> {
    if s == "true"@ {
        Some(true)
    } else if s == "false"@ {
        Some(false)
    } else {
        None
    }
}

/// `str::parse::<bool>`: exactly `true` or `false`.
pub fn parse_bool(s: &str) -> (r: Option<bool>)
    ensures
        r == spec_parse_bool(s@),
{
    let v = to_chars(s);
    if eq_str(&v, "true") {
        Some(true)
    } else if eq_str(&v, "false") {
        Some(false)
    } else {
        None
    }
}

/// Sum of the sizes.
pub open spec fn sum_sizes(sizes: Seq<i64>) -> int
    decreases sizes.len(),
{
    if sizes.len() == 0 {
        0
    } else {
        sum_sizes(sizes.drop_last()) + sizes.last()
    }
}

proof fn lemma_sum_bound(sizes: Seq<i64>)
    ensures
        -(sizes.len() as int) * 0x8000_0000_0000_0000 <= sum_sizes(sizes) <= (sizes.len() as int) * 0x8000_0000_0000_0000,
    decreases sizes.len(),
{
    if sizes.len() > 0 {
        lemma_sum_bound(sizes.drop_last());
    }
}

/// Total of the declared sizes, computed without overflow.
pub fn total_size(sizes: &Vec<i64>) -> (r: i128)
    ensures
        r == sum_sizes(sizes@),
{
    let mut acc: i128 = 0;
    let mut i: usize = 0;
    while i < sizes.len()
        invariant
            0 <= i <= sizes.len(),
            acc == sum_sizes(sizes@.subrange(0, i as int)),
        decreases sizes.len() - i,
    {
        proof {
            let p = sizes@.subrange(0, i + 1);
            assert(p.drop_last() == sizes@.subrange(0, i as int));
            lemma_sum_bound(sizes@.subrange(0, i as int));
            assert(i < 0x1_0000_0000_0000_0000);
            assert((i as int) * 0x8000_0000_0000_0000 <= 0x1_0000_0000_0000_0000 * 0x8000_0000_0000_0000) by (nonlinear_arith)
                requires i < 0x1_0000_0000_0000_0000int;
        }
        acc = acc + sizes[i] as i128;
        i = i + 1;
    }
    assert(sizes@.subrange(0, sizes@.len() as int) == sizes@);
    acc
}

/// Largest total of one web upload by a signed-in user (3 GiB).
pub const MEMBER_MAX_TOTAL: i64 = 3221225472;
/// Largest total of one web upload by a guest (500 MiB).
pub const GUEST_MAX_TOTAL: i64 = 524288000;
/// Active storage an API key may hold (500 GiB).
pub const API_KEY_ACTIVE_STORAGE_LIMIT: i64 = 536870912000;

/// Whether some size is over `limit`.
pub open spec fn any_over(sizes: Seq<i64>, limit: i64) -> bool {
    exists|i: int| 0 <= i < sizes.len() && sizes[i] > limit
}

/// The size checks of a presigned web upload: at least one file, none over
/// the per-file limit, and a total within the account's limit.
pub open spec fn spec_presigned_sizes(sizes: Seq<i64>, signed_in: bool, per_file_limit: i64) -> Result<(), RefusalView> {
    if sizes.len() == 0 {
        Err(RefusalView::BadRequest("At least one file is required"@))
    } else if any_over(sizes, per_file_limit) {
        Err(RefusalView::PayloadTooLarge)
    } else if sum_sizes(sizes) > (if signed_in { MEMBER_MAX_TOTAL } else { GUEST_MAX_TOTAL }) {
        Err(RefusalView::PayloadTooLarge)
    } else {
        Ok(())
    }
}

/// Whether some size is over `limit`.
fn some_over(sizes: &Vec<i64>, limit: i64) -> (r: bool)
    ensures
        r == any_over(sizes@, limit),
{
    let mut i: usize = 0;
    while i < sizes.len()
        invariant
            0 <= i <= sizes.len(),
            forall|j: int| 0 <= j < i ==> sizes@[j] <= limit,
        decreases sizes.len() - i,
    {
        if sizes[i] > limit {
            return true;
        }
        i = i + 1;
    }
    false
}

/// The size checks of a presigned or multipart web upload.
pub fn check_presigned_sizes(sizes: &Vec<i64>, signed_in: bool, per_file_limit: i64) -> (r: Result<(), UploadRefusal>)
    ensures
        refusal_res(r) == spec_presigned_sizes(sizes@, signed_in, per_file_limit),
{
    if sizes.len() == 0 {
        return Err(UploadRefusal::BadRequest("At least one file is required".to_string()));
    }
    let max_total: i64 = if signed_in { MEMBER_MAX_TOTAL } else { GUEST_MAX_TOTAL };
    if some_over(sizes, per_file_limit) {
        return Err(UploadRefusal::PayloadTooLarge);
    }
    if total_size(sizes) > max_total as i128 {
        return Err(UploadRefusal::PayloadTooLarge);
    }
    Ok(())
}

/// Options of a web upload once its checks are passed.
#[derive(Debug, Clone, Copy)]
pub struct WebUploadOptions {
    pub expiration: ExpirationPeriod,
    pub is_one_time: bool,
}

/// Expiration of a web upload: a guest may only ask for five minutes; with
/// none asked, a member's stored default (or thirty minutes if it names no
/// period) and thirty minutes for a guest.
pub open spec fn spec_web_expiration(signed_in: bool, asked: Option<ExpirationPeriod>, member_default: Option<Seq<char>>) -> Result<ExpirationPeriod, RefusalView> {
    match asked {
        Some(p) => if !signed_in && p != ExpirationPeriod::FiveMinutes {
            Err(RefusalView::Unauthorized("Guest users can only use the 5-minute expiration"@))
        } else {
            Ok(p)
        },
        None => if signed_in {
            match member_default {
                Some(d) => match spec_period_from_name(d) {
                    Some(p) => Ok(p),
                    None => Ok(ExpirationPeriod::ThirtyMinutes),
                },
                None => Ok(ExpirationPeriod::ThirtyMinutes),
            }
        } else {
            Ok(ExpirationPeriod::ThirtyMinutes)
        },
    }
}

/// The options of a presigned or multipart web upload (after its size
/// checks): the expiration, and the one-time and password flags, which need
/// an account. `member_default` is the signed-in user's stored default.
pub open spec fn spec_presigned_options(signed_in: bool, asked: Option<ExpirationPeriod>, member_default: Option<Seq<char>>, is_one_time: Option<bool>, has_password: bool) -> Result<WebUploadOptions, RefusalView> {
    match spec_web_expiration(signed_in, asked, member_default) {
        Err(e) => Err(e),
        Ok(p) => {
            let one_time = match is_one_time { Some(b) => b, None => false };
            if one_time && !signed_in {
                Err(RefusalView::Unauthorized("Sign in required for one-time download"@))
            } else if has_password && !signed_in {
                Err(RefusalView::Unauthorized("Sign in required for password protection"@))
            } else {
                Ok(WebUploadOptions { expiration: p, is_one_time: one_time })
            }
        },
    }
}

/// The options of a presigned or multipart web upload.
pub fn presigned_options(signed_in: bool, asked: Option<ExpirationPeriod>, member_default: Option<&str>, is_one_time: Option<bool>, has_password: bool) -> (r: Result<WebUploadOptions, UploadRefusal>)
    ensures
        refusal_res(r) == spec_presigned_options(signed_in, asked, match member_default { Some(d) => Some(d@), None => None }, is_one_time, has_password),
{
    let expiration = match asked {
        Some(p) => {
            if !signed_in && p != ExpirationPeriod::FiveMinutes {
                return Err(UploadRefusal::Unauthorized("Guest users can only use the 5-minute expiration".to_string()));
            }
            p
        },
        None => {
            if signed_in {
                match member_default {
                    Some(d) => stored_expiration(d, ExpirationPeriod::ThirtyMinutes),
                    None => ExpirationPeriod::ThirtyMinutes,
                }
            } else {
                ExpirationPeriod::ThirtyMinutes
            }
        },
    };
    let one_time = match is_one_time {
        Some(b) => b,
        None => false,
    };
    if one_time && !signed_in {
        return Err(UploadRefusal::Unauthorized("Sign in required for one-time download".to_string()));
    }
    if has_password && !signed_in {
        return Err(UploadRefusal::Unauthorized("Sign in required for password protection".to_string()));
    }
    Ok(WebUploadOptions { expiration, is_one_time: one_time })
}

/// First stage of a relayed web upload (before the daily quota is
/// charged): there must be a file; a guest may only ask for five minutes
/// (the default); the transfer type defaults to storage.
pub open spec fn spec_web_upload_first(file_count: nat, signed_in: bool, asked: Option<ExpirationPeriod>, transfer: Option<TransferType>) -> Result<(ExpirationPeriod, TransferType), RefusalView> {
    if file_count == 0 {
        Err(RefusalView::BadRequest("No files uploaded. At least one file is required."@))
    } else {
        let t = match transfer { Some(t) => t, None => TransferType::Server };
        match asked {
            Some(p) => if !signed_in && p != ExpirationPeriod::FiveMinutes {
                Err(RefusalView::Unauthorized("Guest users can only use the 5-minute expiration"@))
            } else {
                Ok((p, t))
            },
            None => Ok((ExpirationPeriod::FiveMinutes, t)),
        }
    }
}

/// First stage of a relayed web upload; a storage upload then counts
/// against the daily quota, a P2P one does not.
pub fn web_upload_first(file_count: usize, signed_in: bool, asked: Option<ExpirationPeriod>, transfer: Option<TransferType>) -> (r: Result<(ExpirationPeriod, TransferType), UploadRefusal>)
    ensures
        refusal_res(r) == spec_web_upload_first(file_count as nat, signed_in, asked, transfer),
{
    if file_count == 0 {
        return Err(UploadRefusal::BadRequest("No files uploaded. At least one file is required.".to_string()));
    }
    let expiration = match asked {
        Some(p) => {
            if !signed_in && p != ExpirationPeriod::FiveMinutes {
                return Err(UploadRefusal::Unauthorized("Guest users can only use the 5-minute expiration".to_string()));
            }
            p
        },
        None => ExpirationPeriod::FiveMinutes,
    };
    let t = match transfer {
        Some(t) => t,
        None => TransferType::Server,
    };
    Ok((expiration, t))
}

/// What a relayed web upload does with its files: a storage upload puts
/// each file in object storage and counts its total against the uploader's
/// daily quota; a P2P upload stores nothing and is never charged.
#[derive(Debug, Clone, Copy)]
pub struct UploadHandling {
    pub stores_files: bool,
    pub charges_daily_quota: bool,
}

/// How a relayed web upload of transfer type `t` is handled.
pub fn upload_handling(t: TransferType) -> (r: UploadHandling)
    ensures
        r.stores_files == (t == TransferType::Server),
        r.charges_daily_quota == (t == TransferType::Server),
{
    let server = match t {
        TransferType::Server => true,
        TransferType::P2p => false,
    };
    UploadHandling { stores_files: server, charges_daily_quota: server }
}

/// Second stage of a relayed web upload: a P2P share is always one-time; a
/// storage share is one-time only when asked, which needs an account, as
/// does a password.
pub open spec fn spec_web_upload_second(signed_in: bool, transfer: TransferType, is_one_time: Option<bool>, has_password: bool) -> Result<bool, RefusalView> {
    let one_time = if transfer == TransferType::P2p {
        true
    } else {
        match is_one_time { Some(b) => b, None => false }
    };
    if one_time && !signed_in && transfer != TransferType::P2p {
        Err(RefusalView::Unauthorized("Sign in required for one-time download"@))
    } else if has_password && !signed_in {
        Err(RefusalView::Unauthorized("Sign in required for password protection"@))
    } else {
        Ok(one_time)
    }
}

/// Second stage of a relayed web upload: whether the share is one-time.
pub fn web_upload_second(signed_in: bool, transfer: TransferType, is_one_time: Option<bool>, has_password: bool) -> (r: Result<bool, UploadRefusal>)
    ensures
        refusal_res(r) == spec_web_upload_second(signed_in, transfer, is_one_time, has_password),
{
    let one_time = if transfer == TransferType::P2p {
        true
    } else {
        match is_one_time {
            Some(b) => b,
            None => false,
        }
    };
    if one_time && !signed_in && transfer != TransferType::P2p {
        return Err(UploadRefusal::Unauthorized("Sign in required for one-time download".to_string()));
    }
    if has_password && !signed_in {
        return Err(UploadRefusal::Unauthorized("Sign in required for password protection".to_string()));
    }
    Ok(one_time)
}

/// Options of a CLI upload: expiration, password and one-time download need
/// a personal token; without an expiration, `default_expiration` applies.
pub open spec fn spec_cli_options(has_token: bool, expiration: Option<Seq<char>>, has_password: bool, is_one_time: Option<bool>, invalid_message: Seq<char>, default_expiration: ExpirationPeriod) -> Result<(ExpirationPeriod, bool), RefusalView> {
    let exp = match expiration {
        Some(e) => if !has_token {
            Err(RefusalView::Unauthorized("Personal token required to set expiration"@))
        } else {
            match spec_parse_cli_expiration(e) {
                Some(p) => Ok(p),
                None => Err(RefusalView::BadRequest(invalid_message)),
            }
        },
        None => Ok(default_expiration),
    };
    match exp {
        Err(e) => Err(e),
        Ok(p) => {
            let one_time = match is_one_time { Some(b) => b, None => false };
            if has_password && !has_token {
                Err(RefusalView::Unauthorized("Personal token required to set password"@))
            } else if one_time && !has_token {
                Err(RefusalView::Unauthorized("Personal token required to set one-time download"@))
            } else {
                Ok((p, one_time))
            }
        },
    }
}

/// Options of a relayed upload (`POST /cli/uploads`, `POST /v1/uploads`),
/// after its files have been staged: at least one file, then the options;
/// the default expiration is that of the surface.
pub fn cli_upload_options(surface: UploadSurface, staged: usize, has_token: bool, expiration: Option<&str>, has_password: bool, is_one_time: Option<bool>) -> (r: Result<(ExpirationPeriod, bool), UploadRefusal>)
    ensures
        staged == 0 ==> refusal_res(r) == Err::<(ExpirationPeriod, bool), RefusalView>(RefusalView::BadRequest("No files were uploaded"@)),
        staged > 0 ==> refusal_res(r) == spec_cli_options(has_token, match expiration { Some(e) => Some(e@), None => None }, has_password, is_one_time,
            "Invalid expiration. Available: 5m, 30m, 1h, 3h, 6h, 12h, 24h"@, spec_default_upload_expiration(surface)),
{
    if staged == 0 {
        return Err(UploadRefusal::BadRequest("No files were uploaded".to_string()));
    }
    cli_options(has_token, expiration, has_password, is_one_time,
        "Invalid expiration. Available: 5m, 30m, 1h, 3h, 6h, 12h, 24h", default_upload_expiration(surface))
}

/// Options of a CLI upload, with the message of an unknown expiration and
/// the expiration that applies when none is named.
pub fn cli_options(has_token: bool, expiration: Option<&str>, has_password: bool, is_one_time: Option<bool>, invalid_message: &str, default_expiration: ExpirationPeriod) -> (r: Result<(ExpirationPeriod, bool), UploadRefusal>)
    ensures
        refusal_res(r) == spec_cli_options(has_token, match expiration { Some(e) => Some(e@), None => None }, has_password, is_one_time, invalid_message@, default_expiration),
{
    let exp = match expiration {
        Some(e) => {
            if !has_token {
                return Err(UploadRefusal::Unauthorized("Personal token required to set expiration".to_string()));
            }
            match parse_cli_expiration(e) {
                Some(p) => p,
                None => return Err(UploadRefusal::BadRequest(invalid_message.to_string())),
            }
        },
        None => default_expiration,
    };
    let one_time = match is_one_time {
        Some(b) => b,
        None => false,
    };
    if has_password && !has_token {
        return Err(UploadRefusal::Unauthorized("Personal token required to set password".to_string()));
    }
    if one_time && !has_token {
        return Err(UploadRefusal::Unauthorized("Personal token required to set one-time download".to_string()));
    }
    Ok((exp, one_time))
}

/// Smallest part size of a `/v1` multipart upload (5 MiB), the least most
/// S3-compatible stores accept for every part but the last.
pub const MIN_CHUNK_SIZE: i64 = 5242880;

/// The part-size check of a multipart upload: on `/v1` a `chunk_size` below
/// `MIN_CHUNK_SIZE` is refused with `400` (as its documentation promises);
/// the CLI endpoints take any part size.
pub open spec fn spec_chunk_size_check(surface: UploadSurface, chunk_size: i64) -> Result<(), RefusalView> {
    if surface == UploadSurface::V1 && chunk_size < MIN_CHUNK_SIZE {
        Err(RefusalView::BadRequest("chunk_size must be at least 5242880 bytes"@))
    } else {
        Ok(())
    }
}

/// Checks the part size of a multipart upload.
pub fn check_chunk_size(surface: UploadSurface, chunk_size: i64) -> (r: Result<(), UploadRefusal>)
    ensures
        refusal_res(r) == spec_chunk_size_check(surface, chunk_size),
{
    if surface == UploadSurface::V1 && chunk_size < MIN_CHUNK_SIZE {
        return Err(UploadRefusal::BadRequest("chunk_size must be at least 5242880 bytes".to_string()));
    }
    Ok(())
}

/// An API key whose active storage has reached the quota cannot upload.
pub fn check_api_key_storage(existing: i64) -> (r: Result<(), UploadRefusal>)
    ensures
        r is Ok <==> existing < API_KEY_ACTIVE_STORAGE_LIMIT,
        r matches Err(e) ==> e is StorageQuotaExceeded,
{
    if existing >= API_KEY_ACTIVE_STORAGE_LIMIT {
        Err(UploadRefusal::StorageQuotaExceeded)
    } else {
        Ok(())
    }
}

/// Whose quota an upload is charged to.
#[derive(Debug, Clone, Copy)]
pub enum QuotaCharge {
    /// An API key, with the storage it already holds.
    ApiKey { existing: i64 },
    /// The daily volume of a user or client, with what it already used today
    /// and its limit.
    Daily { used: i64, limit: i64 },
}

/// Whether the running total of an upload stays within the quota it is
/// charged to.
pub open spec fn spec_within_quota(charge: QuotaCharge, total: int) -> Result<(), RefusalView> {
    match charge {
        QuotaCharge::ApiKey { existing } => if existing + total > API_KEY_ACTIVE_STORAGE_LIMIT {
            Err(RefusalView::StorageQuotaExceeded)
        } else {
            Ok(())
        },
        QuotaCharge::Daily { used, limit } => if used + total > limit {
            Err(RefusalView::DailyQuotaExceeded)
        } else {
            Ok(())
        },
    }
}

/// Message of an empty file sent to `/v1`.
pub open spec fn empty_file_message() -> Seq<char> {
    "Empty files cannot be uploaded"@
}

/// One more staged file of a relayed upload: on `/v1` an empty file is
/// refused (as its documentation promises); then the running total, with
/// this file, must stay within the quota it is charged to.
pub open spec fn spec_stage_file(surface: UploadSurface, charge: QuotaCharge, total: int, file_size: i64) -> Result<int, RefusalView> {
    if surface == UploadSurface::V1 && file_size == 0 {
        Err(RefusalView::BadRequest(empty_file_message()))
    } else {
        match spec_within_quota(charge, total + file_size) {
            Ok(()) => Ok(total + file_size),
            Err(e) => Err(e),
        }
    }
}

/// Adds a staged file to the running total of a relayed upload, and
/// refuses the upload as soon as the file is empty on `/v1` or the total
/// goes over its quota.
pub fn add_staged_file(surface: UploadSurface, charge: QuotaCharge, total: i128, file_size: i64) -> (r: Result<i128, UploadRefusal>)
    requires
        -0x1_0000_0000_0000_0000_0000 <= total <= 0x1_0000_0000_0000_0000_0000,
    ensures
        match r {
            Ok(t) => spec_stage_file(surface, charge, total as int, file_size) == Ok::<int, RefusalView>(t as int),
            Err(e) => spec_stage_file(surface, charge, total as int, file_size) == Err::<int, RefusalView>(e@),
        },
{
    if surface == UploadSurface::V1 && file_size == 0 {
        return Err(UploadRefusal::BadRequest("Empty files cannot be uploaded".to_string()));
    }
    let t = total + file_size as i128;
    match charge {
        QuotaCharge::ApiKey { existing } => {
            if existing as i128 + t > API_KEY_ACTIVE_STORAGE_LIMIT as i128 {
                return Err(UploadRefusal::StorageQuotaExceeded);
            }
        },
        QuotaCharge::Daily { used, limit } => {
            if used as i128 + t > limit as i128 {
                return Err(UploadRefusal::DailyQuotaExceeded);
            }
        },
    }
    Ok(t)
}

/// Quota check of a CLI multipart upload, on the declared total.
pub fn check_declared_total(charge: QuotaCharge, sizes: &Vec<i64>) -> (r: Result<(), UploadRefusal>)
    ensures
        refusal_res(r) == spec_within_quota(charge, sum_sizes(sizes@)),
{
    let total = total_size(sizes);
    proof {
        lemma_sum_bound(sizes@);
        assert(sizes.len() < 0x1_0000_0000_0000_0000int);
        assert((sizes@.len() as int) * 0x8000_0000_0000_0000 <= 0x1_0000_0000_0000_0000 * 0x8000_0000_0000_0000) by (nonlinear_arith)
            requires sizes@.len() < 0x1_0000_0000_0000_0000int;
    }
    match charge {
        QuotaCharge::ApiKey { existing } => {
            if existing as i128 + total > API_KEY_ACTIVE_STORAGE_LIMIT as i128 {
                return Err(UploadRefusal::StorageQuotaExceeded);
            }
        },
        QuotaCharge::Daily { used, limit } => {
            if used as i128 + total > limit as i128 {
                return Err(UploadRefusal::DailyQuotaExceeded);
            }
        },
    }
    Ok(())
}

/// What is asked of a multipart upload session.
#[derive(Debug, Clone, Copy, PartialEq, Eq, Structural)]
pub enum SessionOperation {
    /// Presigned URLs for more parts.
    PresignParts,
    /// Completion of the upload.
    Complete,
}

/// The refusal of a request on a session that is already completed: `400`
/// on the CLI endpoints; on `/v1`, `404` when part URLs are asked for and
/// `409` when it is completed again (as its documentation promises).
pub open spec fn spec_completed_refusal(surface: UploadSurface, op: SessionOperation) -> RefusalView {
    let m = "Upload session already completed"@;
    match surface {
        UploadSurface::Cli => RefusalView::BadRequest(m),
        UploadSurface::V1 => match op {
            SessionOperation::PresignParts => RefusalView::NotFound(m),
            SessionOperation::Complete => RefusalView::Conflict(m),
        },
    }
}

/// Checks of a CLI multipart upload session before parts are presigned or
/// the upload is completed: the session must belong to the token's user (if
/// any), match the share code (when given), and not be completed
/// (answered as the surface and operation require).
pub open spec fn spec_session_access(token_user: Option<Seq<char>>, session_user: Option<Seq<char>>, code_matches: bool, completed: bool, surface: UploadSurface, op: SessionOperation) -> Result<(), RefusalView> {
    if token_user is Some && session_user != token_user {
        Err(RefusalView::Forbidden("Upload session does not belong to the authenticated user"@))
    } else if !code_matches {
        Err(RefusalView::BadRequest("Share code mismatch"@))
    } else if completed {
        Err(spec_completed_refusal(surface, op))
    } else {
        Ok(())
    }
}

/// Checks of a multipart upload session.
pub fn check_upload_session(token_user: Option<&str>, session_user: Option<&str>, code_matches: bool, completed: bool, surface: UploadSurface, op: SessionOperation) -> (r: Result<(), UploadRefusal>)
    ensures
        refusal_res(r) == spec_session_access(
            match token_user { Some(u) => Some(u@), None => None },
            match session_user { Some(u) => Some(u@), None => None },
            code_matches, completed, surface, op),
{
    match token_user {
        Some(u) => {
            let owned = match session_user {
                Some(s) => crate::text::eq_str(&to_chars(s), u),
                None => false,
            };
            if !owned {
                return Err(UploadRefusal::Forbidden("Upload session does not belong to the authenticated user".to_string()));
            }
        },
        None => {},
    }
    if !code_matches {
        return Err(UploadRefusal::BadRequest("Share code mismatch".to_string()));
    }
    if completed {
        let m = "Upload session already completed".to_string();
        return Err(match surface {
            UploadSurface::Cli => UploadRefusal::BadRequest(m),
            UploadSurface::V1 => match op {
                SessionOperation::PresignParts => UploadRefusal::NotFound(m),
                SessionOperation::Complete => UploadRefusal::Conflict(m),
            },
        });
    }
    Ok(())
}

/// A file of a multipart upload is completed in storage unless it was put
/// in one piece (`upload_id` is `direct`) or has no parts.
pub fn needs_multipart_completion(upload_id: &str, part_count: usize) -> (r: bool)
    ensures
        r == (upload_id@ != "direct"@ && part_count > 0),
{
    !eq_str(&to_chars(upload_id), "direct") && part_count > 0
}

/// Law: a guest never gets a password, a one-time download, or a web
/// expiration other than five minutes, whatever it asks for.
pub proof fn lemma_guests_get_no_member_options(asked: Option<ExpirationPeriod>, member_default: Option<Seq<char>>, is_one_time: Option<bool>, has_password: bool)
    ensures
        spec_presigned_options(false, asked, member_default, is_one_time, has_password) matches Ok(o) ==>
            !o.is_one_time && !has_password
            && (asked is Some ==> o.expiration == ExpirationPeriod::FiveMinutes),
        spec_web_upload_first(1, false, asked, None) matches Ok(x) ==> x.0 == ExpirationPeriod::FiveMinutes,
        spec_web_upload_second(false, TransferType::Server, is_one_time, has_password) matches Ok(b) ==> !b && !has_password,
{
}

/// Law: without a personal token, a CLI upload can set neither expiration,
/// password nor one-time download.
pub proof fn lemma_cli_options_need_token(expiration: Option<Seq<char>>, has_password: bool, is_one_time: Option<bool>, invalid_message: Seq<char>, default_expiration: ExpirationPeriod)
    ensures
        spec_cli_options(false, expiration, has_password, is_one_time, invalid_message, default_expiration) matches Ok(o) ==>
            expiration is None && !has_password && !o.1 && o.0 == default_expiration,
{
}

/// Today's upload volume of a user or client.
#[derive(Debug)]
pub struct DailyQuotaResponse {
    pub used_bytes: i64,
    pub limit_bytes: i64,
    pub remaining_bytes: i64,
    /// When the volume is reset (RFC 3339).
    pub resets_at: String,
    pub authenticated: bool,
}

/// Today's upload volume: what is left is the limit less what was used, and
/// never below zero.
pub fn daily_quota_response(used: i64, limit: i64, resets_at: String, authenticated: bool) -> (r: DailyQuotaResponse)
    requires
        i64::MIN <= limit - used <= i64::MAX,
    ensures
        r.used_bytes == used,
        r.limit_bytes == limit,
        r.remaining_bytes == (if limit - used > 0 { limit - used } else { 0 }),
        r.resets_at@ == resets_at@,
        r.authenticated == authenticated,
{
    let left = limit - used;
    let remaining = if left > 0 { left } else { 0 };
    DailyQuotaResponse { used_bytes: used, limit_bytes: limit, remaining_bytes: remaining, resets_at, authenticated }
}

/// How a new P2P share is stored: its hashed password, if any; it travels
/// peer to peer, is downloaded once, is not a Quick Access file and lives a
/// day.
#[derive(Debug)]
pub struct P2pSharePlan {
    pub password_hash: Option<String>,
    pub transfer_type: TransferType,
    pub is_one_time: bool,
    pub is_quick_access: bool,
    pub lifetime_hours: i64,
}

/// Plans a new P2P share of `file_count` files; `no_files` is the endpoint's
/// message for a request without files.
pub fn plan_p2p_share(file_count: usize, password: Option<&str>, no_files: &str) -> (r: Result<P2pSharePlan, AppError>)
    ensures
        file_count == 0 ==> err_view(r) == Some(AppErrorView::BadRequest(no_files@)),
        file_count > 0 && password is None ==> (r matches Ok(p) && p.password_hash is None),
        file_count > 0 && password is Some ==> match r {
            Ok(p) => p.password_hash matches Some(h) && bcrypt_verdict(password->0@, h@) == Some(true),
            Err(e) => e@ == AppErrorView::Internal("Failed to hash password"@),
        },
        r matches Ok(p) ==> p.transfer_type == TransferType::P2p && p.is_one_time && !p.is_quick_access && p.lifetime_hours == 24,
{
    if file_count == 0 {
        return Err(AppError::BadRequest(no_files.to_string()));
    }
    let password_hash = hash_share_password(password)?;
    Ok(P2pSharePlan {
        password_hash,
        transfer_type: TransferType::P2p,
        is_one_time: true,
        is_quick_access: false,
        lifetime_hours: 24,
    })
}

/// The options of a relayed web upload, as its form fields give them.
#[derive(Debug)]
pub struct UploadMetadata {
    pub password: Option<String>,
    pub expiration: Option<ExpirationPeriod>,
    pub is_one_time: Option<bool>,
    pub transfer_type: Option<TransferType>,
}

/// The view of an optional string.
pub open spec fn opt_text(o: Option<String>) -> Option<Seq<char>> {
    match o {
        Some(s) => Some(s@),
        None => None,
    }
}

/// Equal optional periods.
pub open spec fn same_period(a: Option<ExpirationPeriod>, b: Option<ExpirationPeriod>) -> bool {
    a == b
}

/// Equal optional flags.
pub open spec fn same_flag(a: Option<bool>, b: Option<bool>) -> bool {
    a == b
}

/// No option set yet.
pub fn empty_upload_metadata() -> (r: UploadMetadata)
    ensures
        r.password is None && r.expiration is None && r.is_one_time is None && r.transfer_type is None,
{
    UploadMetadata { password: None, expiration: None, is_one_time: None, transfer_type: None }
}

/// Reads one text field of the upload form into the options: an empty
/// field changes nothing; `password` is taken as is, `expiration` and
/// `is_one_time` are dropped when they do not parse, and a `transfer_type`
/// that names no type refuses the upload. Other fields are ignored.
pub fn apply_upload_field(meta: &mut UploadMetadata, name: &str, text: &str) -> (r: Result<(), AppError>)
    ensures
        text@.len() == 0 || !(name@ == "password"@ || name@ == "expiration"@ || name@ == "is_one_time"@ || name@ == "transfer_type"@)
            ==> r is Ok && opt_text(final(meta).password) == opt_text(old(meta).password)
                && final(meta).expiration == old(meta).expiration && final(meta).is_one_time == old(meta).is_one_time
                && final(meta).transfer_type == old(meta).transfer_type,
        text@.len() > 0 && name@ == "password"@ ==> r is Ok && opt_text(final(meta).password) == Some(text@)
            && final(meta).expiration == old(meta).expiration && final(meta).is_one_time == old(meta).is_one_time
            && final(meta).transfer_type == old(meta).transfer_type,
        text@.len() > 0 && name@ == "expiration"@ ==> r is Ok && same_period(final(meta).expiration, spec_period_from_name(text@))
            && opt_text(final(meta).password) == opt_text(old(meta).password) && final(meta).is_one_time == old(meta).is_one_time
            && final(meta).transfer_type == old(meta).transfer_type,
        text@.len() > 0 && name@ == "is_one_time"@ ==> r is Ok && same_flag(final(meta).is_one_time, spec_parse_bool(text@))
            && opt_text(final(meta).password) == opt_text(old(meta).password) && final(meta).expiration == old(meta).expiration
            && final(meta).transfer_type == old(meta).transfer_type,
        text@.len() > 0 && name@ == "transfer_type"@ ==> match spec_transfer_from_name(text@) {
            Some(t) => r is Ok && final(meta).transfer_type == Some(t),
            None => err_view(r) == Some(AppErrorView::BadRequest("Invalid transfer_type value"@)),
        } && opt_text(final(meta).password) == opt_text(old(meta).password) && final(meta).expiration == old(meta).expiration
            && final(meta).is_one_time == old(meta).is_one_time,
{
    if text.is_empty() {
        return Ok(());
    }
    proof {
        reveal_strlit("password");
        reveal_strlit("expiration");
        reveal_strlit("is_one_time");
        reveal_strlit("transfer_type");
        assert("password"@.len() == 8);
        assert("expiration"@.len() == 10);
        assert("is_one_time"@.len() == 11);
        assert("transfer_type"@.len() == 13);
    }
    let n = to_chars(name);
    if eq_str(&n, "password") {
        meta.password = Some(text.to_string());
    } else if eq_str(&n, "expiration") {
        meta.expiration = ExpirationPeriod::from_name(text);
    } else if eq_str(&n, "is_one_time") {
        meta.is_one_time = parse_bool(text);
    } else if eq_str(&n, "transfer_type") {
        match TransferType::from_name(text) {
            Some(t) => { meta.transfer_type = Some(t); },
            None => { return Err(AppError::BadRequest("Invalid transfer_type value".to_string())); },
        }
    }
    Ok(())
}

/// A `/v1` upload session is completed once: when a completion was let
/// through, the session is marked completed, and completing it again is
/// refused with `409 conflict` before anything is created.
pub proof fn lemma_second_completion_conflicts(token_user: Option<Seq<char>>, session_user: Option<Seq<char>>, code_matches: bool)
    requires
        spec_session_access(token_user, session_user, code_matches, false, UploadSurface::V1, SessionOperation::Complete) is Ok,
    ensures
        spec_session_access(token_user, session_user, code_matches, true, UploadSurface::V1, SessionOperation::Complete)
            == Err::<(), RefusalView>(RefusalView::Conflict("Upload session already completed"@)),
        spec_refusal_answer(RefusalView::Conflict("Upload session already completed"@)).0 == 409,
        spec_refusal_answer(RefusalView::Conflict("Upload session already completed"@)).1 == "conflict"@,
{
}

/// Law: the expiration of a relayed web upload is the one asked for when
/// the uploader is signed in, five minutes when none is asked, and a guest
/// asking for anything but five minutes is refused; the transfer type is the
/// one asked for, storage when none is.
pub proof fn lemma_web_upload_keeps_asked_expiration(n: nat, signed_in: bool, asked: Option<ExpirationPeriod>, transfer: Option<TransferType>)
    requires
        n > 0,
    ensures
        ({
            let r = spec_web_upload_first(n, signed_in, asked, transfer);
            &&& signed_in && asked is Some ==> r is Ok && r->Ok_0.0 == asked->Some_0
            &&& asked is None ==> r is Ok && r->Ok_0.0 == ExpirationPeriod::FiveMinutes
            &&& !signed_in && asked is Some && asked->Some_0 != ExpirationPeriod::FiveMinutes
                ==> r is Err && r->Err_0 is Unauthorized
            &&& r is Ok && transfer is Some ==> r->Ok_0.1 == transfer->Some_0
            &&& r is Ok && transfer is None ==> r->Ok_0.1 == TransferType::Server
            &&& (signed_in || asked is None || asked == Some(ExpirationPeriod::FiveMinutes)) ==> r is Ok
        }),
{
}

/// Law: staging a file against an API key's storage is refused with
/// `StorageQuotaExceeded` exactly when what the key already holds plus the
/// running total with this file exceeds 500 GiB (536870912000 bytes), and
/// against a daily volume exactly when what was used today plus that total
/// exceeds the limit; otherwise the new running total is the old one plus
/// the file. (An empty file sent to `/v1` is refused before either.)
pub proof fn lemma_staging_respects_quotas(surface: UploadSurface, charge: QuotaCharge, total: int, file_size: i64)
    requires
        !(surface == UploadSurface::V1 && file_size == 0),
    ensures
        ({
            let r = spec_stage_file(surface, charge, total, file_size);
            &&& charge is ApiKey ==> ((r == Err::<int, RefusalView>(RefusalView::StorageQuotaExceeded))
                <==> charge->ApiKey_existing + total + file_size > 536_870_912_000)
            &&& charge is ApiKey && charge->ApiKey_existing + total + file_size <= 536_870_912_000
                ==> r == Ok::<int, RefusalView>(total + file_size)
            &&& charge is Daily ==> ((r == Err::<int, RefusalView>(RefusalView::DailyQuotaExceeded))
                <==> charge->Daily_used + total + file_size > charge->Daily_limit)
            &&& charge is Daily && charge->Daily_used + total + file_size <= charge->Daily_limit
                ==> r == Ok::<int, RefusalView>(total + file_size)
        }),
{
}

/// Law: a P2P web upload is always one-time and needs no account for it; a
/// storage upload is one-time exactly when asked; a signed-in uploader gets
/// the one-time flag and password asked for; a guest is refused a one-time
/// storage share or a password.
pub proof fn lemma_web_upload_one_time_and_password(signed_in: bool, transfer: TransferType, is_one_time: Option<bool>, has_password: bool)
    ensures
        ({
            let r = spec_web_upload_second(signed_in, transfer, is_one_time, has_password);
            let asked_one_time = is_one_time == Some(true);
            &&& r is Ok && transfer == TransferType::P2p ==> r->Ok_0
            &&& r is Ok && transfer == TransferType::Server ==> r->Ok_0 == asked_one_time
            &&& signed_in ==> r is Ok
            &&& !signed_in && has_password ==> r is Err && r->Err_0 is Unauthorized
            &&& !signed_in && transfer == TransferType::Server && asked_one_time ==> r is Err && r->Err_0 is Unauthorized
            &&& !signed_in && !has_password && (transfer == TransferType::P2p || !asked_one_time) ==> r is Ok
        }),
{
}

} // verus!
