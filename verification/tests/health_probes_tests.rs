use share_anything::health_probes::{probe_response, turn_probe_result, ProbeResult, PROBE_TIMEOUT_SECS};

#[test]
fn reachable_dependency_answers_ok() {
    assert_eq!(probe_response(ProbeResult::Reachable), (200, "ok"));
}

#[test]
fn failed_or_slow_dependency_answers_unavailable() {
    assert_eq!(probe_response(ProbeResult::Failed), (503, "unavailable"));
    assert_eq!(probe_response(ProbeResult::TimedOut), (503, "unavailable"));
    assert_eq!(PROBE_TIMEOUT_SECS, 3);
}

#[test]
fn turn_probe_needs_a_success_status() {
    assert_eq!(turn_probe_result(200), ProbeResult::Reachable);
    assert_eq!(turn_probe_result(201), ProbeResult::Reachable);
    assert_eq!(turn_probe_result(401), ProbeResult::Failed);
    assert_eq!(turn_probe_result(500), ProbeResult::Failed);
    assert_eq!(turn_probe_result(302), ProbeResult::Failed);
}
