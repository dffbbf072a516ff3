use dprint_plugin_yapf::monitor::{decide, LivenessProbeResult, MonitorDecision, POLL_INTERVAL_MS};

fn first_termination(probes: &[LivenessProbeResult]) -> Option<usize> {
    probes.iter().position(|p| decide(*p) == MonitorDecision::TerminateSupervisor)
}

#[test]
fn live_parent_keeps_the_supervisor() {
    let probes = vec![LivenessProbeResult::Alive; 50];
    assert_eq!(first_termination(&probes), None);
}

#[test]
fn dead_parent_ends_the_supervisor_at_the_next_probe() {
    let probes = [
        LivenessProbeResult::Alive,
        LivenessProbeResult::Alive,
        LivenessProbeResult::Dead,
        LivenessProbeResult::Alive,
    ];
    assert_eq!(first_termination(&probes), Some(2));
}

#[test]
fn unknown_probe_does_not_end_the_supervisor() {
    assert_eq!(decide(LivenessProbeResult::Unknown), MonitorDecision::KeepWatching);
    assert_eq!(decide(LivenessProbeResult::Dead), MonitorDecision::TerminateSupervisor);
}

#[test]
fn polling_interval_is_a_few_seconds() {
    assert!(POLL_INTERVAL_MS >= 1000 && POLL_INTERVAL_MS <= 10_000);
}
