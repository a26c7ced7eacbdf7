//! Dependency probes for uptime monitors (database, object storage, TURN):
//! each answers a bare status, `200 ok` or `503 unavailable`, and never the
//! detail of a failure.
use vstd::prelude::*;

verus! {

/// Seconds a probe may take before it counts as failed.
pub const PROBE_TIMEOUT_SECS: u64 = 3;

/// How one probe of a dependency went.
#[derive(Debug, Clone, Copy, PartialEq, Eq, Structural)]
pub enum ProbeResult {
    /// The dependency answered as expected.
    Reachable,
    /// The dependency answered with an error, or an unexpected status.
    Failed,
    /// No answer within `PROBE_TIMEOUT_SECS`.
    TimedOut,
}

/// The status code and body status a probe answers.
pub open spec fn spec_probe_response(result: ProbeResult) -> (u16, Seq<char>) {
    match result {
        ProbeResult::Reachable => (200, "ok"@),
        _ => (503, "unavailable"@),
    }
}

/// What a probe answers: `200` with `ok` when the dependency is reachable,
/// `503` with `unavailable` otherwise.
pub fn probe_response(result: ProbeResult) -> (r: (u16, &'static str))
    ensures
        (r.0, r.1@) == spec_probe_response(result),
{
    match result {
        ProbeResult::Reachable => (200, "ok"),
        _ => (503, "unavailable"),
    }
}

/// How the TURN probe went when Cloudflare answered with `status`: a
/// success status (2xx) means credentials could be issued.
pub fn turn_probe_result(status: u16) -> (r: ProbeResult)
    ensures
        r == (if 200 <= status <= 299 { ProbeResult::Reachable } else { ProbeResult::Failed }),
{
    if 200 <= status && status <= 299 {
        ProbeResult::Reachable
    } else {
        ProbeResult::Failed
    }
}

} // verus!
