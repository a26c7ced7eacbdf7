//! Request rate limiting.
//!
//! `RateLimiter` guards the web endpoints per client IP: at most 50 requests in
//! a one-minute window, and an IP that collects more than 10 failed requests
//! (404s) in a minute is blocked for ten minutes. `CliRateLimiter` guards the
//! `/v1` API per key with hourly buckets for reads, uploads and downloads, and
//! reports the `X-RateLimit-*` status of every decision.
//!
//! Times are nanoseconds on a monotonic clock that starts when the limiter is
//! created; the `*_at` methods take that time as an argument, so they are
//! specified for every clock reading.

use vstd::prelude::*;
use crate::text::{before_first, ends_with, ends_with_seq, push_decimal, push_str, starts_with, starts_with_seq, string_from, to_chars, trim, trim_seq, before_first_char, decimal_seq};
use dashmap::DashMap;
use std::time::{Duration, Instant, SystemTime};

verus! {

#[verifier::external_type_specification]
#[verifier::external_body]
#[verifier::reject_recursive_types(K)]
#[verifier::reject_recursive_types(V)]
#[verifier::reject_recursive_types(S)]
pub struct ExDashMap<K, V, S>(DashMap<K, V, S>);

#[verifier::external_type_specification]
#[verifier::external_body]
pub struct ExInstant(Instant);

#[verifier::external_type_specification]
#[verifier::external_body]
pub struct ExSystemTime(SystemTime);

/// Nanoseconds in one second.
pub const NANOS_PER_SEC: u128 = 1_000_000_000;
/// How long a blocked IP or key stays blocked.
pub const BLOCK_NANOS: u128 = 600_000_000_000;
/// Length of the per-IP counting window.
pub const IP_WINDOW_NANOS: u128 = 60_000_000_000;
/// Requests one IP may make in one window.
pub const MAX_REQUESTS_PER_MINUTE: u32 = 50;
/// Failed requests after which an IP is blocked.
pub const MAX_FAILURES_PER_MINUTE: u32 = 10;
/// Age after which the periodic cleanup drops an IP's records.
pub const IP_RECORD_MAX_AGE_NANOS: u128 = 3_600_000_000_000;
/// Length of the per-key counting window of the `/v1` API.
pub const KEY_WINDOW_NANOS: u128 = 3_600_000_000_000;
/// Length of that window in seconds.
pub const KEY_WINDOW_SECS: u64 = 3600;
/// Age after which the periodic cleanup drops a key's records.
pub const KEY_RECORD_MAX_AGE_NANOS: u128 = 7_200_000_000_000;
/// Seconds until a blocked key may try again.
pub const BLOCK_SECS: u64 = 600;

/// Requests counted in the current window of one client.
#[derive(Debug, Clone, Copy)]
pub struct RequestRecord {
    pub count: u32,
    pub window_start: u128,
}

/// Request records keyed by client.
pub type RecordMap = DashMap<String, RequestRecord>;

/// Block times keyed by client.
pub type BlockMap = DashMap<String, u128>;

/// What a map of request records holds: client, then (count, window start).
pub uninterp spec fn window_records(m: RecordMap) -> Map<Seq<char>, (u32, u128)>;

/// What a map of block times holds: client, then the time it was blocked.
pub uninterp spec fn block_times(m: BlockMap) -> Map<Seq<char>, u128>;

/// No client has a record yet.
pub open spec fn no_records() -> Map<Seq<char>, (u32, u128)> {
    Map::empty()
}

/// No client is blocked yet.
pub open spec fn no_blocks() -> Map<Seq<char>, u128> {
    Map::empty()
}

/// Time from `start` to `now`, or zero when `now` is earlier.
pub open spec fn elapsed(now: u128, start: u128) -> int {
    if now >= start {
        now - start
    } else {
        0
    }
}

/// Adds one, staying at the largest `u32`.
pub open spec fn sat_inc(c: u32) -> u32 {
    if c < u32::MAX {
        (c + 1) as u32
    } else {
        c
    }
}

/// The record of a client after one more request at `now`: a fresh window
/// when there was none or the old one has run out, else one more in it.
pub open spec fn next_record(prev: Option<(u32, u128)>, now: u128, window: u128) -> (u32, u128) {
    match prev {
        None => (1, now),
        Some(r) => if elapsed(now, r.1) > window {
            (1, now)
        } else {
            (sat_inc(r.0), r.1)
        },
    }
}

/// Whether one more request at `now` goes over `limit` in the current window.
pub open spec fn over_limit(prev: Option<(u32, u128)>, now: u128, window: u128, limit: u32) -> bool {
    match prev {
        None => false,
        Some(r) => elapsed(now, r.1) <= window && sat_inc(r.0) > limit,
    }
}

/// Whether `client` is still blocked at `now`.
pub open spec fn is_blocked(blocked: Map<Seq<char>, u128>, client: Seq<char>, now: u128) -> bool {
    blocked.contains_key(client) && elapsed(now, blocked[client]) < BLOCK_NANOS
}

/// The records younger than `max_age` at `now`.
pub open spec fn keep_recent(m: Map<Seq<char>, (u32, u128)>, now: u128, max_age: u128) -> Map<Seq<char>, (u32, u128)> {
    Map::new(|k: Seq<char>| m.contains_key(k) && elapsed(now, m[k].1) < max_age, |k: Seq<char>| m[k])
}

/// The blocks younger than the block period at `now`.
pub open spec fn keep_active_blocks(m: Map<Seq<char>, u128>, now: u128) -> Map<Seq<char>, u128> {
    Map::new(|k: Seq<char>| m.contains_key(k) && elapsed(now, m[k]) < BLOCK_NANOS, |k: Seq<char>| m[k])
}

/// Whether a record is younger than `max_age` at `now`.
pub fn is_recent(now: u128, start: u128, max_age: u128) -> (r: bool)
    ensures
        r == (elapsed(now, start) < max_age),
{
    let e = if now >= start { now - start } else { 0 };
    e < max_age
}

/// `DashMap::new` for request records: an empty map.
#[verifier::external_body]
fn records_new() -> (r: RecordMap)
    ensures
        window_records(r) == no_records(),
{
    DashMap::new()
}

/// `DashMap::get` for request records, copying the record out.
#[verifier::external_body]
fn records_get(m: &RecordMap, key: &str) -> (r: Option<RequestRecord>)
    ensures
        r is Some <==> window_records(*m).contains_key(key@),
        r matches Some(v) ==> window_records(*m)[key@] == (v.count, v.window_start),
{
    m.get(key).map(|e| *e.value())
}

/// `DashMap::insert` for request records: the key now maps to the record.
#[verifier::external_body]
fn records_insert(m: &mut RecordMap, key: String, v: RequestRecord)
    ensures
        window_records(*final(m)) == window_records(*old(m)).insert(key@, (v.count, v.window_start)),
{
    m.insert(key, v);
}

/// `DashMap::retain` for request records: keeps the records younger than `max_age`.
#[verifier::external_body]
fn records_retain_recent(m: &mut RecordMap, now: u128, max_age: u128)
    ensures
        window_records(*final(m)) == keep_recent(window_records(*old(m)), now, max_age),
{
    m.retain(|_, r| is_recent(now, r.window_start, max_age));
}

/// `DashMap::new` for block times: an empty map.
#[verifier::external_body]
fn blocks_new() -> (r: BlockMap)
    ensures
        block_times(r) == no_blocks(),
{
    DashMap::new()
}

/// `DashMap::get` for block times, copying the time out.
#[verifier::external_body]
fn blocks_get(m: &BlockMap, key: &str) -> (r: Option<u128>)
    ensures
        r is Some <==> block_times(*m).contains_key(key@),
        r matches Some(t) ==> block_times(*m)[key@] == t,
{
    m.get(key).map(|e| *e.value())
}

/// `DashMap::insert` for block times: the key now maps to the time.
#[verifier::external_body]
fn blocks_insert(m: &mut BlockMap, key: String, t: u128)
    ensures
        block_times(*final(m)) == block_times(*old(m)).insert(key@, t),
{
    m.insert(key, t);
}

/// `DashMap::remove` for block times: the key no longer maps to anything.
#[verifier::external_body]
fn blocks_remove(m: &mut BlockMap, key: &str)
    ensures
        block_times(*final(m)) == block_times(*old(m)).remove(key@),
{
    m.remove(key);
}

/// `DashMap::retain` for block times: keeps the blocks that have not run out.
#[verifier::external_body]
fn blocks_retain_active(m: &mut BlockMap, now: u128)
    ensures
        block_times(*final(m)) == keep_active_blocks(block_times(*old(m)), now),
{
    m.retain(|_, t| is_recent(now, *t, BLOCK_NANOS));
}

/// `Instant::now`: a reading of the monotonic clock.
#[verifier::external_body]
fn instant_now() -> Instant {
    Instant::now()
}

/// `Instant::elapsed`: the time since `origin` on the monotonic clock.
/// Nothing is stated of the value, which depends on the clock.
#[verifier::external_body]
fn instant_elapsed(origin: &Instant) -> Duration {
    origin.elapsed()
}

/// `Duration::as_nanos`: whole nanoseconds of a duration. A duration is
/// opaque here, so nothing is stated of the value.
#[verifier::external_body]
fn duration_nanos(d: &Duration) -> u128 {
    d.as_nanos()
}

/// `Duration::as_secs`: whole seconds of a duration. A duration is opaque
/// here, so nothing is stated of the value.
#[verifier::external_body]
fn duration_secs(d: &Duration) -> u64 {
    d.as_secs()
}

/// `SystemTime::now`: a reading of the wall clock.
#[verifier::external_body]
fn system_now() -> SystemTime {
    SystemTime::now()
}

/// `SystemTime::duration_since(UNIX_EPOCH)`: the time since the Unix epoch,
/// or `None` when the clock is set before it.
#[verifier::external_body]
fn since_unix_epoch(t: &SystemTime) -> Option<Duration> {
    t.duration_since(std::time::UNIX_EPOCH).ok()
}

/// Nanoseconds since `origin` on the monotonic clock.
fn nanos_since(origin: &Instant) -> u128 {
    duration_nanos(&instant_elapsed(origin))
}

/// Whole seconds since the Unix epoch on the wall clock, zero when the
/// clock is set before the epoch.
fn unix_now_secs() -> u64 {
    match since_unix_epoch(&system_now()) {
        Some(d) => duration_secs(&d),
        None => 0,
    }
}

/// The record of a client after one more request at `now`, and whether that
/// request stays within `limit`.
fn step_record(prev: Option<RequestRecord>, now: u128, window: u128, limit: u32) -> (r: (RequestRecord, bool))
    requires
        limit < u32::MAX,
    ensures
        (r.0.count, r.0.window_start) == next_record(record_view(prev), now, window),
        r.1 == !over_limit(record_view(prev), now, window, limit),
{
    match prev {
        None => (RequestRecord { count: 1, window_start: now }, true),
        Some(rec) => {
            let e = if now >= rec.window_start { now - rec.window_start } else { 0 };
            if e > window {
                (RequestRecord { count: 1, window_start: now }, true)
            } else {
                let c = if rec.count < u32::MAX { rec.count + 1 } else { rec.count };
                (RequestRecord { count: c, window_start: rec.window_start }, c <= limit)
            }
        },
    }
}

/// A record as (count, window start).
pub open spec fn record_view(r: Option<RequestRecord>) -> Option<(u32, u128)> {
    match r {
        None => None,
        Some(v) => Some((v.count, v.window_start)),
    }
}

/// What a per-IP limiter holds.
pub struct RateLimiterView {
    pub requests: Map<Seq<char>, (u32, u128)>,
    pub failures: Map<Seq<char>, (u32, u128)>,
    pub blocked: Map<Seq<char>, u128>,
    /// The clock reading that times count from.
    pub origin: Instant,
}

/// Message of a request from a blocked IP.
pub open spec fn blocked_message() -> Seq<char> {
    "비정상적인 활동으로 인해 사용자의 IP가 일시적으로 차단되었습니다. 나중에 다시 시도해 주세요"@
}

/// Message of a request over the per-minute limit.
pub open spec fn rate_exceeded_message() -> Seq<char> {
    "Rate limit exceeded. You can make up to 50 requests per minute"@
}

/// The limiter after a request from `ip` at `now` that is not blocked, and
/// whether the request is allowed.
pub open spec fn spec_check(v: RateLimiterView, ip: Seq<char>, now: u128) -> (RateLimiterView, bool) {
    if is_blocked(v.blocked, ip, now) {
        (v, false)
    } else {
        (
            RateLimiterView {
                requests: v.requests.insert(ip, next_record(v.requests.get(ip), now, IP_WINDOW_NANOS)),
                failures: v.failures,
                blocked: v.blocked.remove(ip),
                origin: v.origin,
            },
            !over_limit(v.requests.get(ip), now, IP_WINDOW_NANOS, MAX_REQUESTS_PER_MINUTE),
        )
    }
}

/// The limiter after a failed request from `ip` at `now`.
pub open spec fn spec_record_failure(v: RateLimiterView, ip: Seq<char>, now: u128) -> RateLimiterView {
    RateLimiterView {
        requests: v.requests,
        failures: v.failures.insert(ip, next_record(v.failures.get(ip), now, IP_WINDOW_NANOS)),
        blocked: if over_limit(v.failures.get(ip), now, IP_WINDOW_NANOS, MAX_FAILURES_PER_MINUTE) {
            v.blocked.insert(ip, now)
        } else {
            v.blocked
        },
        origin: v.origin,
    }
}

/// Per-IP limiter of the web endpoints.
pub struct RateLimiter {
    request_counts: RecordMap,
    failed_counts: RecordMap,
    blocked_ips: BlockMap,
    origin: Instant,
}

impl View for RateLimiter {
    type V = RateLimiterView;

    closed spec fn view(&self) -> RateLimiterView {
        RateLimiterView {
            requests: window_records(self.request_counts),
            failures: window_records(self.failed_counts),
            blocked: block_times(self.blocked_ips),
            origin: self.origin,
        }
    }
}

impl RateLimiter {
    /// A limiter that has seen no request.
    pub fn new() -> (r: Self)
        ensures
            r@.requests == no_records(),
            r@.failures == no_records(),
            r@.blocked == no_blocks(),
    {
        RateLimiter {
            request_counts: records_new(),
            failed_counts: records_new(),
            blocked_ips: blocks_new(),
            origin: instant_now(),
        }
    }

    /// Counts a request from `ip` at `now`: refused while the IP is blocked
    /// (nothing changes), otherwise counted in its window and refused when it
    /// is the 51st or later in that window.
    pub fn check_rate_limit_at(&mut self, ip: &str, now: u128) -> (r: Result<(), String>)
        ensures
            final(self)@ == spec_check(old(self)@, ip@, now).0,
            r is Ok <==> spec_check(old(self)@, ip@, now).1,
            is_blocked(old(self)@.blocked, ip@, now) ==> (r matches Err(m) && m@ == blocked_message()),
            !is_blocked(old(self)@.blocked, ip@, now) && r is Err ==> (r matches Err(m) && m@ == rate_exceeded_message()),
    {
        match blocks_get(&self.blocked_ips, ip) {
            Some(t) => {
                if is_recent(now, t, BLOCK_NANOS) {
                    return Err("비정상적인 활동으로 인해 사용자의 IP가 일시적으로 차단되었습니다. 나중에 다시 시도해 주세요".to_string());
                }
                blocks_remove(&mut self.blocked_ips, ip);
            },
            None => {
                proof {
                    assert(block_times(self.blocked_ips).remove(ip@) =~= block_times(self.blocked_ips));
                }
            },
        }
        let prev = records_get(&self.request_counts, ip);
        let (rec, allowed) = step_record(prev, now, IP_WINDOW_NANOS, MAX_REQUESTS_PER_MINUTE);
        proof {
            assert(record_view(prev) == window_records(self.request_counts).get(ip@));
        }
        records_insert(&mut self.request_counts, ip.to_string(), rec);
        if !allowed {
            return Err("Rate limit exceeded. You can make up to 50 requests per minute".to_string());
        }
        Ok(())
    }

    /// Counts a request from `ip` now.
    pub fn check_rate_limit(&mut self, ip: &str) -> (r: Result<(), String>)
        ensures
            exists|now: u128| final(self)@ == spec_check(old(self)@, ip@, now).0
                && (r is Ok <==> spec_check(old(self)@, ip@, now).1),
    {
        let now = nanos_since(&self.origin);
        self.check_rate_limit_at(ip, now)
    }

    /// Counts a failed request from `ip` at `now`; the failure that goes over
    /// the per-minute limit blocks the IP from `now` on.
    pub fn record_failed_request_at(&mut self, ip: &str, now: u128)
        ensures
            final(self)@ == spec_record_failure(old(self)@, ip@, now),
    {
        let prev = records_get(&self.failed_counts, ip);
        let (rec, within) = step_record(prev, now, IP_WINDOW_NANOS, MAX_FAILURES_PER_MINUTE);
        proof {
            assert(record_view(prev) == window_records(self.failed_counts).get(ip@));
        }
        records_insert(&mut self.failed_counts, ip.to_string(), rec);
        if !within {
            blocks_insert(&mut self.blocked_ips, ip.to_string(), now);
        }
    }

    /// Counts a failed request from `ip` now.
    pub fn record_failed_request(&mut self, ip: &str)
        ensures
            exists|now: u128| final(self)@ == spec_record_failure(old(self)@, ip@, now),
    {
        let now = nanos_since(&self.origin);
        self.record_failed_request_at(ip, now)
    }

    /// Drops the records older than an hour and the blocks that have run out.
    pub fn cleanup_at(&mut self, now: u128)
        ensures
            final(self)@.requests == keep_recent(old(self)@.requests, now, IP_RECORD_MAX_AGE_NANOS),
            final(self)@.failures == keep_recent(old(self)@.failures, now, IP_RECORD_MAX_AGE_NANOS),
            final(self)@.blocked == keep_active_blocks(old(self)@.blocked, now),
            final(self)@.origin == old(self)@.origin,
    {
        records_retain_recent(&mut self.request_counts, now, IP_RECORD_MAX_AGE_NANOS);
        records_retain_recent(&mut self.failed_counts, now, IP_RECORD_MAX_AGE_NANOS);
        blocks_retain_active(&mut self.blocked_ips, now);
    }

    /// Drops the stale records now.
    pub fn cleanup(&mut self)
        ensures
            exists|now: u128|
                final(self)@.requests == keep_recent(old(self)@.requests, now, IP_RECORD_MAX_AGE_NANOS)
                && final(self)@.failures == keep_recent(old(self)@.failures, now, IP_RECORD_MAX_AGE_NANOS)
                && final(self)@.blocked == keep_active_blocks(old(self)@.blocked, now),
            final(self)@.origin == old(self)@.origin,
    {
        let now = nanos_since(&self.origin);
        self.cleanup_at(now)
    }
}


/// Request class of the `/v1` API, each with its own hourly budget.
#[derive(Debug, Clone, Copy, PartialEq, Eq, Structural)]
pub enum Bucket {
    Read,
    Upload,
    Download,
}

/// Hourly request budget of a bucket.
pub open spec fn bucket_limit(b: Bucket) -> u32 {
    match b {
        Bucket::Read => 500,
        Bucket::Upload => 80,
        Bucket::Download => 150,
    }
}

impl Bucket {
    /// Hourly request budget of the bucket.
    pub fn limit(&self) -> (r: u32)
        ensures
            r == bucket_limit(*self),
    {
        match self {
            Bucket::Read => 500,
            Bucket::Upload => 80,
            Bucket::Download => 150,
        }
    }
}

/// The `X-RateLimit-*` values of a decision.
#[derive(Debug, Clone, Copy)]
pub struct RateLimitStatus {
    pub limit: u32,
    pub remaining: u32,
    pub reset_unix: u64,
}

/// Adds, staying at the largest `u64`.
pub open spec fn sat_add_u64(a: u64, b: u64) -> u64 {
    if a + b <= u64::MAX {
        (a + b) as u64
    } else {
        u64::MAX
    }
}

/// Subtracts, staying at zero.
pub open spec fn sat_sub_u64(a: u64, b: u64) -> u64 {
    if a >= b {
        (a - b) as u64
    } else {
        0
    }
}

/// What a per-key limiter holds.
pub struct CliRateLimiterView {
    pub read: Map<Seq<char>, (u32, u128)>,
    pub upload: Map<Seq<char>, (u32, u128)>,
    pub download: Map<Seq<char>, (u32, u128)>,
    pub blocked: Map<Seq<char>, u128>,
    /// The clock reading that times count from.
    pub origin: Instant,
}

/// The records of one bucket.
pub open spec fn bucket_records(v: CliRateLimiterView, b: Bucket) -> Map<Seq<char>, (u32, u128)> {
    match b {
        Bucket::Read => v.read,
        Bucket::Upload => v.upload,
        Bucket::Download => v.download,
    }
}

/// The limiter with the records of one bucket replaced.
pub open spec fn with_bucket_records(v: CliRateLimiterView, b: Bucket, m: Map<Seq<char>, (u32, u128)>) -> CliRateLimiterView {
    match b {
        Bucket::Read => CliRateLimiterView { read: m, ..v },
        Bucket::Upload => CliRateLimiterView { upload: m, ..v },
        Bucket::Download => CliRateLimiterView { download: m, ..v },
    }
}

/// The limiter after a request of `key` in bucket `b` at `now` (not blocked).
pub open spec fn spec_key_check_state(v: CliRateLimiterView, key: Seq<char>, b: Bucket, now: u128) -> CliRateLimiterView {
    if is_blocked(v.blocked, key, now) {
        v
    } else {
        let recs = bucket_records(v, b);
        let nv = with_bucket_records(v, b, recs.insert(key, next_record(recs.get(key), now, KEY_WINDOW_NANOS)));
        CliRateLimiterView { blocked: v.blocked.remove(key), ..nv }
    }
}

/// Whether that request is allowed.
pub open spec fn spec_key_allowed(v: CliRateLimiterView, key: Seq<char>, b: Bucket, now: u128) -> bool {
    !is_blocked(v.blocked, key, now)
        && !over_limit(bucket_records(v, b).get(key), now, KEY_WINDOW_NANOS, bucket_limit(b))
}

/// The status reported for that request, with `unix_now` the wall clock in seconds.
pub open spec fn spec_key_status(v: CliRateLimiterView, key: Seq<char>, b: Bucket, now: u128, unix_now: u64) -> RateLimitStatus {
    if is_blocked(v.blocked, key, now) {
        RateLimitStatus { limit: bucket_limit(b), remaining: 0, reset_unix: sat_add_u64(unix_now, BLOCK_SECS) }
    } else {
        let prev = bucket_records(v, b).get(key);
        let rec = next_record(prev, now, KEY_WINDOW_NANOS);
        let q = elapsed(now, rec.1) / (NANOS_PER_SEC as int);
        let elapsed_secs: u64 = if q <= u64::MAX { q as u64 } else { u64::MAX };
        RateLimitStatus {
            limit: bucket_limit(b),
            remaining: if over_limit(prev, now, KEY_WINDOW_NANOS, bucket_limit(b)) {
                0
            } else {
                sat_sub_u64(bucket_limit(b) as u64, rec.0 as u64) as u32
            },
            reset_unix: sat_add_u64(unix_now, sat_sub_u64(KEY_WINDOW_SECS, elapsed_secs)),
        }
    }
}

/// Per-key limiter of the `/v1` API.
pub struct CliRateLimiter {
    read: RecordMap,
    upload: RecordMap,
    download: RecordMap,
    blocked_ips: BlockMap,
    origin: Instant,
}

impl View for CliRateLimiter {
    type V = CliRateLimiterView;

    closed spec fn view(&self) -> CliRateLimiterView {
        CliRateLimiterView {
            read: window_records(self.read),
            upload: window_records(self.upload),
            download: window_records(self.download),
            blocked: block_times(self.blocked_ips),
            origin: self.origin,
        }
    }
}

impl CliRateLimiter {
    /// A limiter that has seen no request.
    pub fn new() -> (r: Self)
        ensures
            r@.read == no_records(),
            r@.upload == no_records(),
            r@.download == no_records(),
            r@.blocked == no_blocks(),
    {
        CliRateLimiter {
            read: records_new(),
            upload: records_new(),
            download: records_new(),
            blocked_ips: blocks_new(),
            origin: instant_now(),
        }
    }

    /// Counts a request of `key` in `bucket` at `now` (wall clock `unix_now`):
    /// `Ok` with the status when allowed, `Err` with it when the key is blocked
    /// or over the bucket's hourly budget.
    pub fn check_at(&mut self, key: &str, bucket: Bucket, now: u128, unix_now: u64) -> (r: Result<RateLimitStatus, RateLimitStatus>)
        ensures
            final(self)@ == spec_key_check_state(old(self)@, key@, bucket, now),
            r is Ok <==> spec_key_allowed(old(self)@, key@, bucket, now),
            (match r {
                Ok(s) => s,
                Err(s) => s,
            }) == spec_key_status(old(self)@, key@, bucket, now, unix_now),
    {
        let limit = bucket.limit();
        match blocks_get(&self.blocked_ips, key) {
            Some(t) => {
                if is_recent(now, t, BLOCK_NANOS) {
                    let reset_unix = unix_now.saturating_add(BLOCK_SECS);
                    return Err(RateLimitStatus { limit, remaining: 0, reset_unix });
                }
                blocks_remove(&mut self.blocked_ips, key);
            },
            None => {
                proof {
                    assert(block_times(self.blocked_ips).remove(key@) =~= block_times(self.blocked_ips));
                }
            },
        }
        let ghost mid = self@;
        let prev = match bucket {
            Bucket::Read => records_get(&self.read, key),
            Bucket::Upload => records_get(&self.upload, key),
            Bucket::Download => records_get(&self.download, key),
        };
        proof {
            assert(record_view(prev) == bucket_records(mid, bucket).get(key@));
        }
        let (rec, allowed) = step_record(prev, now, KEY_WINDOW_NANOS, limit);
        match bucket {
            Bucket::Read => records_insert(&mut self.read, key.to_string(), rec),
            Bucket::Upload => records_insert(&mut self.upload, key.to_string(), rec),
            Bucket::Download => records_insert(&mut self.download, key.to_string(), rec),
        }
        let elapsed_nanos = if now >= rec.window_start { now - rec.window_start } else { 0 };
        let elapsed_secs = elapsed_nanos / NANOS_PER_SEC;
        let elapsed_secs_u64: u64 = if elapsed_secs <= u64::MAX as u128 { elapsed_secs as u64 } else { u64::MAX };
        let seconds_remaining = KEY_WINDOW_SECS.saturating_sub(elapsed_secs_u64);
        let reset_unix = unix_now.saturating_add(seconds_remaining);
        let remaining = if allowed { limit.saturating_sub(rec.count) } else { 0 };
        let status = RateLimitStatus { limit, remaining, reset_unix };
        if allowed {
            Ok(status)
        } else {
            Err(status)
        }
    }

    /// Counts a request of `key` in `bucket` now.
    pub fn check(&mut self, key: &str, bucket: Bucket) -> (r: Result<RateLimitStatus, RateLimitStatus>)
        ensures
            exists|now: u128, unix_now: u64|
                final(self)@ == spec_key_check_state(old(self)@, key@, bucket, now)
                && (r is Ok <==> spec_key_allowed(old(self)@, key@, bucket, now))
                && (match r {
                    Ok(s) => s,
                    Err(s) => s,
                }) == spec_key_status(old(self)@, key@, bucket, now, unix_now),
    {
        let now = nanos_since(&self.origin);
        let unix_now = unix_now_secs();
        self.check_at(key, bucket, now, unix_now)
    }

    /// Drops the records older than two hours and the blocks that have run out.
    pub fn cleanup_at(&mut self, now: u128)
        ensures
            final(self)@.read == keep_recent(old(self)@.read, now, KEY_RECORD_MAX_AGE_NANOS),
            final(self)@.upload == keep_recent(old(self)@.upload, now, KEY_RECORD_MAX_AGE_NANOS),
            final(self)@.download == keep_recent(old(self)@.download, now, KEY_RECORD_MAX_AGE_NANOS),
            final(self)@.blocked == keep_active_blocks(old(self)@.blocked, now),
            final(self)@.origin == old(self)@.origin,
    {
        records_retain_recent(&mut self.read, now, KEY_RECORD_MAX_AGE_NANOS);
        records_retain_recent(&mut self.upload, now, KEY_RECORD_MAX_AGE_NANOS);
        records_retain_recent(&mut self.download, now, KEY_RECORD_MAX_AGE_NANOS);
        blocks_retain_active(&mut self.blocked_ips, now);
    }

    /// Drops the stale records now.
    pub fn cleanup(&mut self)
        ensures
            exists|now: u128|
                final(self)@.read == keep_recent(old(self)@.read, now, KEY_RECORD_MAX_AGE_NANOS)
                && final(self)@.upload == keep_recent(old(self)@.upload, now, KEY_RECORD_MAX_AGE_NANOS)
                && final(self)@.download == keep_recent(old(self)@.download, now, KEY_RECORD_MAX_AGE_NANOS)
                && final(self)@.blocked == keep_active_blocks(old(self)@.blocked, now),
            final(self)@.origin == old(self)@.origin,
    {
        let now = nanos_since(&self.origin);
        self.cleanup_at(now)
    }
}


/// The per-IP limiter after requests from `ip` at `times`, one after the
/// other, and how many of them were allowed.
pub open spec fn run_checks(v: RateLimiterView, ip: Seq<char>, times: Seq<u128>) -> (RateLimiterView, nat)
    decreases times.len(),
{
    if times.len() == 0 {
        (v, 0)
    } else {
        let step = spec_check(v, ip, times[0]);
        let rest = run_checks(step.0, ip, times.drop_first());
        (rest.0, rest.1 + if step.1 { 1nat } else { 0nat })
    }
}

/// Readings of a monotonic clock never go back.
pub open spec fn nondecreasing(times: Seq<u128>) -> bool {
    forall|i: int, j: int| 0 <= i <= j < times.len() ==> times[i] <= times[j]
}

/// How many more requests fit in a window that already holds `c`.
pub open spec fn room_left(c: u32, limit: u32) -> nat {
    if c >= limit {
        0
    } else {
        (limit - c) as nat
    }
}

proof fn lemma_run_from_record(v: RateLimiterView, ip: Seq<char>, times: Seq<u128>, c: u32, s: u128)
    requires
        v.requests.get(ip) == Some((c, s)),
        forall|i: int| 0 <= i < times.len() ==> elapsed(#[trigger] times[i], s) <= IP_WINDOW_NANOS,
    ensures
        run_checks(v, ip, times).1 <= room_left(c, MAX_REQUESTS_PER_MINUTE),
    decreases times.len(),
{
    if times.len() > 0 {
        let t = times[0];
        let step = spec_check(v, ip, t);
        let rest_times = times.drop_first();
        assert forall|i: int| 0 <= i < rest_times.len() implies elapsed(#[trigger] rest_times[i], s) <= IP_WINDOW_NANOS by {
            assert(rest_times[i] == times[i + 1]);
        }
        if is_blocked(v.blocked, ip, t) {
            lemma_run_from_record(step.0, ip, rest_times, c, s);
        } else {
            assert(elapsed(times[0], s) <= IP_WINDOW_NANOS);
            assert(step.0.requests.get(ip) == Some((sat_inc(c), s)));
            lemma_run_from_record(step.0, ip, rest_times, sat_inc(c), s);
        }
    }
}

/// Law: a client without a record gets at most 50 requests through in any
/// run of requests that falls within one minute of the first of them.
pub proof fn lemma_at_most_50_per_minute(v: RateLimiterView, ip: Seq<char>, times: Seq<u128>)
    requires
        !v.requests.contains_key(ip),
        nondecreasing(times),
        times.len() > 0 ==> times[times.len() - 1] - times[0] <= IP_WINDOW_NANOS,
    ensures
        run_checks(v, ip, times).1 <= MAX_REQUESTS_PER_MINUTE,
    decreases times.len(),
{
    if times.len() > 0 {
        let t = times[0];
        let step = spec_check(v, ip, t);
        let rest_times = times.drop_first();
        if is_blocked(v.blocked, ip, t) {
            if rest_times.len() > 0 {
                assert(rest_times[rest_times.len() - 1] == times[times.len() - 1]);
                assert(rest_times[0] == times[1]);
                assert(times[0] <= times[1]);
            }
            assert(nondecreasing(rest_times)) by {
                assert forall|i: int, j: int| 0 <= i <= j < rest_times.len() implies rest_times[i] <= rest_times[j] by {
                    assert(rest_times[i] == times[i + 1] && rest_times[j] == times[j + 1]);
                }
            }
            lemma_at_most_50_per_minute(step.0, ip, rest_times);
        } else {
            assert(v.requests.get(ip) == None::<(u32, u128)>);
            assert(step.0.requests.get(ip) == Some((1u32, t)));
            assert forall|i: int| 0 <= i < rest_times.len() implies elapsed(#[trigger] rest_times[i], t) <= IP_WINDOW_NANOS by {
                assert(rest_times[i] == times[i + 1]);
                assert(times[0] <= times[i + 1] <= times[times.len() - 1]);
            }
            lemma_run_from_record(step.0, ip, rest_times, 1, t);
        }
    }
}

/// Law: the failed request that goes over ten in a minute blocks the IP, and
/// every request from it in the next ten minutes is refused and changes nothing.
pub proof fn lemma_blocked_ip_is_refused(v: RateLimiterView, ip: Seq<char>, t: u128, later: u128)
    requires
        over_limit(v.failures.get(ip), t, IP_WINDOW_NANOS, MAX_FAILURES_PER_MINUTE),
        elapsed(later, t) < BLOCK_NANOS,
    ensures
        !spec_check(spec_record_failure(v, ip, t), ip, later).1,
        spec_check(spec_record_failure(v, ip, t), ip, later).0 == spec_record_failure(v, ip, t),
{
    let w = spec_record_failure(v, ip, t);
    assert(w.blocked[ip] == t);
}

/// Law: a request from one client leaves every other client's records and
/// block as they were.
pub proof fn lemma_check_isolates_clients(v: RateLimiterView, ip: Seq<char>, other: Seq<char>, now: u128)
    requires
        ip != other,
    ensures
        spec_check(v, ip, now).0.requests.get(other) == v.requests.get(other),
        spec_check(v, ip, now).0.failures.get(other) == v.failures.get(other),
        spec_check(v, ip, now).0.blocked.get(other) == v.blocked.get(other),
{
}


/// The per-key limiter after requests of `key` in bucket `b` at `times`, and
/// how many of them were allowed.
pub open spec fn run_key_checks(v: CliRateLimiterView, key: Seq<char>, b: Bucket, times: Seq<u128>) -> (CliRateLimiterView, nat)
    decreases times.len(),
{
    if times.len() == 0 {
        (v, 0)
    } else {
        let ok = spec_key_allowed(v, key, b, times[0]);
        let rest = run_key_checks(spec_key_check_state(v, key, b, times[0]), key, b, times.drop_first());
        (rest.0, rest.1 + if ok { 1nat } else { 0nat })
    }
}

proof fn lemma_key_run_from_record(v: CliRateLimiterView, key: Seq<char>, b: Bucket, times: Seq<u128>, c: u32, s: u128)
    requires
        bucket_records(v, b).get(key) == Some((c, s)),
        forall|i: int| 0 <= i < times.len() ==> elapsed(#[trigger] times[i], s) <= KEY_WINDOW_NANOS,
    ensures
        run_key_checks(v, key, b, times).1 <= room_left(c, bucket_limit(b)),
    decreases times.len(),
{
    if times.len() > 0 {
        let t = times[0];
        let nv = spec_key_check_state(v, key, b, t);
        let rest_times = times.drop_first();
        assert forall|i: int| 0 <= i < rest_times.len() implies elapsed(#[trigger] rest_times[i], s) <= KEY_WINDOW_NANOS by {
            assert(rest_times[i] == times[i + 1]);
        }
        if is_blocked(v.blocked, key, t) {
            lemma_key_run_from_record(nv, key, b, rest_times, c, s);
        } else {
            assert(elapsed(times[0], s) <= KEY_WINDOW_NANOS);
            assert(bucket_records(nv, b).get(key) == Some((sat_inc(c), s)));
            lemma_key_run_from_record(nv, key, b, rest_times, sat_inc(c), s);
        }
    }
}

/// Law: a key without a record in a bucket gets at most the bucket's budget
/// (500 reads, 80 uploads, 150 downloads) through in any run of requests that
/// falls within one hour of the first of them.
pub proof fn lemma_bucket_budget_per_hour(v: CliRateLimiterView, key: Seq<char>, b: Bucket, times: Seq<u128>)
    requires
        !bucket_records(v, b).contains_key(key),
        nondecreasing(times),
        times.len() > 0 ==> times[times.len() - 1] - times[0] <= KEY_WINDOW_NANOS,
    ensures
        run_key_checks(v, key, b, times).1 <= bucket_limit(b),
    decreases times.len(),
{
    if times.len() > 0 {
        let t = times[0];
        let nv = spec_key_check_state(v, key, b, t);
        let rest_times = times.drop_first();
        if is_blocked(v.blocked, key, t) {
            if rest_times.len() > 0 {
                assert(rest_times[rest_times.len() - 1] == times[times.len() - 1]);
                assert(rest_times[0] == times[1]);
                assert(times[0] <= times[1]);
            }
            assert(nondecreasing(rest_times)) by {
                assert forall|i: int, j: int| 0 <= i <= j < rest_times.len() implies rest_times[i] <= rest_times[j] by {
                    assert(rest_times[i] == times[i + 1] && rest_times[j] == times[j + 1]);
                }
            }
            lemma_bucket_budget_per_hour(nv, key, b, rest_times);
        } else {
            assert(bucket_records(v, b).get(key) == None::<(u32, u128)>);
            assert(bucket_records(nv, b).get(key) == Some((1u32, t)));
            assert forall|i: int| 0 <= i < rest_times.len() implies elapsed(#[trigger] rest_times[i], t) <= KEY_WINDOW_NANOS by {
                assert(rest_times[i] == times[i + 1]);
                assert(times[0] <= times[i + 1] <= times[times.len() - 1]);
            }
            lemma_key_run_from_record(nv, key, b, rest_times, 1, t);
        }
    }
}

/// Law: the status of a decision never promises more than the budget, and
/// a refused request reports nothing remaining.
pub proof fn lemma_status_within_budget(v: CliRateLimiterView, key: Seq<char>, b: Bucket, now: u128, unix_now: u64)
    ensures
        spec_key_status(v, key, b, now, unix_now).limit == bucket_limit(b),
        spec_key_status(v, key, b, now, unix_now).remaining < bucket_limit(b),
        !spec_key_allowed(v, key, b, now) ==> spec_key_status(v, key, b, now, unix_now).remaining == 0,
        spec_key_status(v, key, b, now, unix_now).reset_unix >= unix_now,
{
}

/// Law: a request of one bucket leaves the other buckets' records as they were.
pub proof fn lemma_buckets_are_separate(v: CliRateLimiterView, key: Seq<char>, b: Bucket, other: Bucket, now: u128)
    requires
        b != other,
    ensures
        bucket_records(spec_key_check_state(v, key, b, now), other) == bucket_records(v, other),
{
}


/// The bucket of a `/v1` request: uploads are `POST /v1/uploads...`,
/// downloads are `GET /v1/shares/.../download`, everything else reads.
pub open spec fn spec_bucket_for(method: Seq<char>, path: Seq<char>) -> Bucket {
    if method == "POST"@ && starts_with_seq(path, "/v1/uploads"@) {
        Bucket::Upload
    } else if method == "GET"@ && starts_with_seq(path, "/v1/shares/"@) && ends_with_seq(path, "/download"@) {
        Bucket::Download
    } else {
        Bucket::Read
    }
}

/// The bucket of a `/v1` request, from its method and path.
pub fn bucket_for(method: &str, path: &str) -> (r: Bucket)
    ensures
        r == spec_bucket_for(method@, path@),
{
    let m = to_chars(method);
    let p = to_chars(path);
    if crate::text::eq_str(&m, "POST") && starts_with(&p, "/v1/uploads") {
        Bucket::Upload
    } else if crate::text::eq_str(&m, "GET") && starts_with(&p, "/v1/shares/") && ends_with(&p, "/download") {
        Bucket::Download
    } else {
        Bucket::Read
    }
}

/// The client address of a request: the first `X-Forwarded-For` entry,
/// trimmed, else `X-Real-IP` as sent, else `"unknown"`.
pub open spec fn spec_extract_ip(forwarded_for: Option<Seq<char>>, real_ip: Option<Seq<char>>) -> Seq<char> {
    match forwarded_for {
        Some(f) => trim_seq(before_first(f, ',')),
        None => match real_ip {
            Some(r) => r,
            None => "unknown"@,
        },
    }
}

/// The client address of a request, from the values of its
/// `X-Forwarded-For` and `X-Real-IP` headers (those that are valid text).
pub fn extract_ip(forwarded_for: Option<&str>, real_ip: Option<&str>) -> (r: String)
    ensures
        r@ == spec_extract_ip(
            match forwarded_for { Some(f) => Some(f@), None => None },
            match real_ip { Some(x) => Some(x@), None => None },
        ),
{
    match forwarded_for {
        Some(f) => {
            let v = to_chars(f);
            string_from(&trim(&before_first_char(&v, ',')))
        },
        None => match real_ip {
            Some(x) => x.to_string(),
            None => "unknown".to_string(),
        },
    }
}

/// The key a `/v1` request is counted under: the authenticated user, or the
/// client address when there is none.
pub fn rate_limit_key(user_id: Option<&str>, forwarded_for: Option<&str>, real_ip: Option<&str>) -> (r: String)
    ensures
        user_id matches Some(u) ==> r@ == u@,
        user_id is None ==> r@ == spec_extract_ip(
            match forwarded_for { Some(f) => Some(f@), None => None },
            match real_ip { Some(x) => Some(x@), None => None },
        ),
{
    match user_id {
        Some(u) => u.to_string(),
        None => extract_ip(forwarded_for, real_ip),
    }
}

/// Message of a refused `/v1` request.
pub fn denied_message(status: &RateLimitStatus) -> (r: String)
    ensures
        r@ == "Rate limit exceeded. Maximum "@ + decimal_seq(status.limit as nat) + " requests per hour"@,
{
    let mut r = "Rate limit exceeded. Maximum ".to_string();
    push_decimal(&mut r, status.limit as u64);
    push_str(&mut r, " requests per hour");
    r
}

/// Where the window of a key's `k`-th check began, as an index into its
/// checks at `times`: a window starts at the first check and lasts one hour;
/// the first check more than an hour after the start of the running window
/// starts the next one.
pub open spec fn window_start(times: Seq<u128>, k: int) -> int
    decreases k,
{
    if k <= 0 {
        0
    } else {
        let w = window_start(times, k - 1);
        if elapsed(times[k], times[w]) > KEY_WINDOW_NANOS {
            k
        } else {
            w
        }
    }
}

/// How many checks the `k`-th one is in its window, itself included.
pub open spec fn checks_in_window(times: Seq<u128>, k: int) -> int {
    k - window_start(times, k) + 1
}

proof fn lemma_window_start_bounds(times: Seq<u128>, k: int)
    requires
        0 <= k,
    ensures
        0 <= window_start(times, k) <= k,
    decreases k,
{
    if k > 0 {
        lemma_window_start_bounds(times, k - 1);
    }
}

/// What may happen to a per-key limiter: a check of a key in a bucket at a
/// time, or a cleanup at a time (times read from the monotonic clock).
pub ghost enum KeyOp {
    Check(Seq<char>, Bucket, u128),
    Cleanup(u128),
}

/// When an operation happens.
pub open spec fn op_time(op: KeyOp) -> u128 {
    match op {
        KeyOp::Check(_, _, t) => t,
        KeyOp::Cleanup(t) => t,
    }
}

/// The limiter after a cleanup at `now` (as `cleanup_at` leaves it).
pub open spec fn spec_key_cleanup(v: CliRateLimiterView, now: u128) -> CliRateLimiterView {
    CliRateLimiterView {
        read: keep_recent(v.read, now, KEY_RECORD_MAX_AGE_NANOS),
        upload: keep_recent(v.upload, now, KEY_RECORD_MAX_AGE_NANOS),
        download: keep_recent(v.download, now, KEY_RECORD_MAX_AGE_NANOS),
        blocked: keep_active_blocks(v.blocked, now),
        origin: v.origin,
    }
}

/// The limiter after one operation (as `check_at` and `cleanup_at` leave it).
pub open spec fn apply_key_op(v: CliRateLimiterView, op: KeyOp) -> CliRateLimiterView {
    match op {
        KeyOp::Check(key, b, t) => spec_key_check_state(v, key, b, t),
        KeyOp::Cleanup(t) => spec_key_cleanup(v, t),
    }
}

/// The limiter after a history of operations, in order.
pub open spec fn run_key_ops(v: CliRateLimiterView, ops: Seq<KeyOp>) -> CliRateLimiterView
    decreases ops.len(),
{
    if ops.len() == 0 {
        v
    } else {
        apply_key_op(run_key_ops(v, ops.drop_last()), ops.last())
    }
}

/// The times of the checks of `key` in bucket `b` in a history, in order.
pub open spec fn key_check_times(ops: Seq<KeyOp>, key: Seq<char>, b: Bucket) -> Seq<u128>
    decreases ops.len(),
{
    if ops.len() == 0 {
        Seq::empty()
    } else {
        let before = key_check_times(ops.drop_last(), key, b);
        match ops.last() {
            KeyOp::Check(k, c, t) => if k == key && c == b { before.push(t) } else { before },
            KeyOp::Cleanup(_) => before,
        }
    }
}

/// Whether a history's times never go back.
pub open spec fn ops_in_time_order(ops: Seq<KeyOp>) -> bool {
    forall|i: int, j: int| 0 <= i <= j < ops.len() ==> op_time(#[trigger] ops[i]) <= op_time(#[trigger] ops[j])
}

/// The time of the last operation of a history (0 for none).
pub open spec fn last_op_time(ops: Seq<KeyOp>) -> u128 {
    if ops.len() == 0 { 0 } else { op_time(ops.last()) }
}

/// How the record of `key` in bucket `b` stands to the key's checks `sub`
/// in that bucket, with `last` the time of the latest operation: no block;
/// and either the record counts the checks of the running window since its
/// first, or there is none, and then no check was made or the running
/// window has run out.
pub open spec fn record_tracks(v: CliRateLimiterView, key: Seq<char>, b: Bucket, sub: Seq<u128>, last: u128) -> bool {
    &&& v.blocked == no_blocks()
    &&& forall|i: int| 0 <= i < sub.len() ==> #[trigger] sub[i] <= last
    &&& sub.len() == 0 ==> !bucket_records(v, b).contains_key(key)
    &&& sub.len() > 0 ==> {
        let k = sub.len() - 1;
        let w = window_start(sub, k);
        ||| bucket_records(v, b).get(key) == Some((checks_in_window(sub, k) as u32, sub[w]))
        ||| (!bucket_records(v, b).contains_key(key) && elapsed(last, sub[w]) > KEY_WINDOW_NANOS)
    }
}

proof fn lemma_window_start_push(s: Seq<u128>, x: u128, j: int)
    requires
        0 <= j < s.len(),
    ensures
        window_start(s.push(x), j) == window_start(s, j),
    decreases j,
{
    if j > 0 {
        lemma_window_start_push(s, x, j - 1);
        lemma_window_start_bounds(s, j - 1);
        assert(s.push(x)[j] == s[j]);
        assert(s.push(x)[window_start(s, j - 1)] == s[window_start(s, j - 1)]);
    }
}

/// One check of the tracked key and bucket at `t`: the decision and status
/// follow the count of its window, and the record keeps tracking.
proof fn lemma_tracked_check(v: CliRateLimiterView, key: Seq<char>, b: Bucket, sub: Seq<u128>, last: u128, t: u128, unix_now: u64)
    requires
        record_tracks(v, key, b, sub, last),
        last <= t,
        sub.len() + 1 < u32::MAX,
    ensures
        ({
            let times = sub.push(t);
            let n = checks_in_window(times, sub.len() as int);
            let status = spec_key_status(v, key, b, t, unix_now);
            &&& record_tracks(spec_key_check_state(v, key, b, t), key, b, times, t)
            &&& 1 <= n <= sub.len() + 1
            &&& (spec_key_allowed(v, key, b, t) <==> n <= bucket_limit(b))
            &&& spec_key_allowed(v, key, b, t) ==> status.remaining == bucket_limit(b) - n
            &&& !spec_key_allowed(v, key, b, t) ==> status.remaining == 0
        }),
{
    let times = sub.push(t);
    let k = sub.len() as int;
    assert(times[k] == t);
    lemma_window_start_bounds(times, k);
    let nv = spec_key_check_state(v, key, b, t);
    assert(!is_blocked(v.blocked, key, t));
    assert(nv.blocked =~= no_blocks());
    let recs = bucket_records(v, b);
    assert(bucket_records(nv, b) == recs.insert(key, next_record(recs.get(key), t, KEY_WINDOW_NANOS)));
    if sub.len() > 0 {
        let w = window_start(sub, k - 1);
        lemma_window_start_bounds(sub, k - 1);
        lemma_window_start_push(sub, t, k - 1);
        assert(times[w] == sub[w]);
        assert(sub[w] <= last);
        assert forall|i: int| 0 <= i < times.len() implies #[trigger] times[i] <= t by {
            if i < k {
                assert(times[i] == sub[i]);
            }
        }
    } else {
        assert forall|i: int| 0 <= i < times.len() implies #[trigger] times[i] <= t by {}
    }
}

/// Any other operation at `t`: the record of the tracked key and bucket keeps
/// tracking its checks.
proof fn lemma_other_op(v: CliRateLimiterView, key: Seq<char>, b: Bucket, sub: Seq<u128>, last: u128, op: KeyOp)
    requires
        record_tracks(v, key, b, sub, last),
        last <= op_time(op),
        !(op matches KeyOp::Check(k, c, _) && k == key && c == b),
    ensures
        record_tracks(apply_key_op(v, op), key, b, sub, op_time(op)),
{
    let nv = apply_key_op(v, op);
    match op {
        KeyOp::Check(k2, c2, t) => {
            assert(!is_blocked(v.blocked, k2, t));
            assert(nv.blocked =~= no_blocks());
            if c2 == b {
                assert(k2 != key);
                let recs = bucket_records(v, b);
                assert(bucket_records(nv, b) == recs.insert(k2, next_record(recs.get(k2), t, KEY_WINDOW_NANOS)));
            } else {
                assert(bucket_records(nv, b) == bucket_records(v, b));
            }
        },
        KeyOp::Cleanup(t) => {
            assert(nv.blocked =~= no_blocks());
            assert(bucket_records(nv, b) == keep_recent(bucket_records(v, b), t, KEY_RECORD_MAX_AGE_NANOS));
        },
    }
}

proof fn lemma_history_tracks(v: CliRateLimiterView, ops: Seq<KeyOp>, key: Seq<char>, b: Bucket)
    requires
        bucket_records(v, b) == no_records(),
        v.blocked == no_blocks(),
        ops_in_time_order(ops),
        key_check_times(ops, key, b).len() < u32::MAX,
    ensures
        record_tracks(run_key_ops(v, ops), key, b, key_check_times(ops, key, b), last_op_time(ops)),
        forall|i: int| 0 <= i < ops.len() ==> op_time(#[trigger] ops[i]) <= last_op_time(ops),
    decreases ops.len(),
{
    if ops.len() > 0 {
        let prev = ops.drop_last();
        assert(ops_in_time_order(prev)) by {
            assert forall|i: int, j: int| 0 <= i <= j < prev.len() implies op_time(#[trigger] prev[i]) <= op_time(#[trigger] prev[j]) by {
                assert(prev[i] == ops[i] && prev[j] == ops[j]);
            }
        }
        let op = ops.last();
        let sub = key_check_times(prev, key, b);
        assert(sub.len() <= key_check_times(ops, key, b).len());
        lemma_history_tracks(v, prev, key, b);
        if prev.len() > 0 {
            assert(prev.last() == ops[prev.len() - 1]);
            assert(last_op_time(prev) <= op_time(op));
        }
        assert forall|i: int| 0 <= i < ops.len() implies op_time(#[trigger] ops[i]) <= last_op_time(ops) by {
            assert(op_time(ops[i]) <= op_time(ops[ops.len() - 1]));
        }
        let w = run_key_ops(v, prev);
        assert(run_key_ops(v, ops) == apply_key_op(w, op));
        match op {
            KeyOp::Check(k, c, t) => {
                if k == key && c == b {
                    lemma_tracked_check(w, key, b, sub, last_op_time(prev), t, 0);
                } else {
                    lemma_other_op(w, key, b, sub, last_op_time(prev), op);
                }
            },
            KeyOp::Cleanup(_) => {
                lemma_other_op(w, key, b, sub, last_op_time(prev), op);
            },
        }
    } else {
        assert(run_key_ops(v, ops) == v);
    }
}

/// Law: for any history of checks and cleanups on a limiter that started
/// with no record and no block (as `new` gives), in time order, the next
/// check of a key in a bucket is allowed exactly when the number of that
/// key's checks in the bucket since its running window began (this one
/// included; a window starts at a key's first check and the first check more
/// than an hour after the running window's start begins the next) is within
/// the bucket's budget. An allowed check reports the budget less that number,
/// a refused one nothing left, and the reset time lies within the hour.
pub proof fn lemma_key_window_any_history(v: CliRateLimiterView, ops: Seq<KeyOp>, key: Seq<char>, b: Bucket, t: u128, unix_now: u64)
    requires
        v.read == no_records() && v.upload == no_records() && v.download == no_records(),
        v.blocked == no_blocks(),
        ops_in_time_order(ops),
        forall|i: int| 0 <= i < ops.len() ==> op_time(#[trigger] ops[i]) <= t,
        key_check_times(ops, key, b).len() + 1 < u32::MAX,
    ensures
        ({
            let before = run_key_ops(v, ops);
            let times = key_check_times(ops, key, b).push(t);
            let n = checks_in_window(times, times.len() - 1);
            let status = spec_key_status(before, key, b, t, unix_now);
            &&& 1 <= n <= times.len()
            &&& (spec_key_allowed(before, key, b, t) <==> n <= bucket_limit(b))
            &&& status.limit == bucket_limit(b)
            &&& spec_key_allowed(before, key, b, t) ==> status.remaining == bucket_limit(b) - n
            &&& !spec_key_allowed(before, key, b, t) ==> status.remaining == 0
            &&& unix_now <= status.reset_unix <= unix_now + KEY_WINDOW_SECS
        }),
{
    assert(bucket_records(v, b) == no_records());
    lemma_history_tracks(v, ops, key, b);
    if ops.len() > 0 {
        assert(last_op_time(ops) == op_time(ops[ops.len() - 1]));
    }
    lemma_tracked_check(run_key_ops(v, ops), key, b, key_check_times(ops, key, b), last_op_time(ops), t, unix_now);
}

/// Law: failed requests are counted per minute. A failure from an IP with
/// no failure record starts a count of one and blocks nothing; a failure
/// more than a minute (60 s) after the IP's failure window began starts a new
/// count of one and blocks nothing; a failure within that minute adds one to
/// the count, and blocks the IP from `now` exactly when the count goes over
/// ten. Requests and other IPs are left as they were.
pub proof fn lemma_failures_counted_per_minute(v: RateLimiterView, ip: Seq<char>, now: u128)
    ensures
        ({
            let r = spec_record_failure(v, ip, now);
            &&& r.requests == v.requests
            &&& forall|other: Seq<char>| other != ip ==> r.failures.get(other) == v.failures.get(other)
            &&& !v.failures.contains_key(ip) ==> r.failures[ip] == (1u32, now) && r.blocked == v.blocked
            &&& v.failures.contains_key(ip) && now >= v.failures[ip].1 && now - v.failures[ip].1 > 60_000_000_000
                ==> r.failures[ip] == (1u32, now) && r.blocked == v.blocked
            &&& v.failures.contains_key(ip) && (now < v.failures[ip].1 || now - v.failures[ip].1 <= 60_000_000_000)
                && v.failures[ip].0 < 4_294_967_295 ==> {
                    &&& r.failures[ip] == ((v.failures[ip].0 + 1) as u32, v.failures[ip].1)
                    &&& v.failures[ip].0 + 1 > 10 ==> r.blocked == v.blocked.insert(ip, now)
                    &&& v.failures[ip].0 + 1 <= 10 ==> r.blocked == v.blocked
                }
        }),
{
    let r = spec_record_failure(v, ip, now);
    assert forall|other: Seq<char>| other != ip implies r.failures.get(other) == v.failures.get(other) by {}
}

/// Law: requests are counted per minute and a block lasts ten minutes. An
/// IP blocked less than 600 s ago is refused and nothing changes. Otherwise
/// its request is allowed exactly when it has no record, or its window began
/// more than 60 s ago (a new window starts with this request), or the count
/// with this request stays within 50; the count is kept as the record says.
pub proof fn lemma_requests_counted_per_minute(v: RateLimiterView, ip: Seq<char>, now: u128)
    ensures
        ({
            let (r, ok) = spec_check(v, ip, now);
            let blocked = v.blocked.contains_key(ip) && (now < v.blocked[ip] || now - v.blocked[ip] < 600_000_000_000);
            &&& blocked ==> !ok && r == v
            &&& !blocked ==> {
                &&& r.failures == v.failures
                &&& !r.blocked.contains_key(ip)
                &&& !v.requests.contains_key(ip) ==> ok && r.requests[ip] == (1u32, now)
                &&& v.requests.contains_key(ip) && now >= v.requests[ip].1 && now - v.requests[ip].1 > 60_000_000_000
                    ==> ok && r.requests[ip] == (1u32, now)
                &&& v.requests.contains_key(ip) && (now < v.requests[ip].1 || now - v.requests[ip].1 <= 60_000_000_000)
                    && v.requests[ip].0 < 4_294_967_295 ==> {
                        &&& r.requests[ip] == ((v.requests[ip].0 + 1) as u32, v.requests[ip].1)
                        &&& ok <==> v.requests[ip].0 + 1 <= 50
                    }
            }
        }),
{
}

/// Law: a key's checks are counted per hour in each bucket, with budgets of
/// 500 reads, 80 uploads and 150 downloads. With no block, a check is
/// allowed exactly when the key has no record in the bucket, or its window
/// began more than 3600 s ago (a new window starts with this check), or the
/// count with this check stays within the bucket's budget.
pub proof fn lemma_key_checks_counted_per_hour(v: CliRateLimiterView, key: Seq<char>, b: Bucket, now: u128)
    requires
        !v.blocked.contains_key(key),
    ensures
        ({
            let budget: int = match b { Bucket::Read => 500, Bucket::Upload => 80, Bucket::Download => 150 };
            let recs = bucket_records(v, b);
            let after = bucket_records(spec_key_check_state(v, key, b, now), b);
            let ok = spec_key_allowed(v, key, b, now);
            &&& bucket_limit(b) == budget
            &&& !recs.contains_key(key) ==> ok && after[key] == (1u32, now)
            &&& recs.contains_key(key) && now >= recs[key].1 && now - recs[key].1 > 3_600_000_000_000
                ==> ok && after[key] == (1u32, now)
            &&& recs.contains_key(key) && (now < recs[key].1 || now - recs[key].1 <= 3_600_000_000_000)
                && recs[key].0 < 4_294_967_295 ==> {
                    &&& after[key] == ((recs[key].0 + 1) as u32, recs[key].1)
                    &&& ok <==> recs[key].0 + 1 <= budget
                }
        }),
{
}

} // verus!
