use vstd::prelude::*;

verus! {

/// How long the liveness monitor waits between two probes of the parent.
pub const POLL_INTERVAL_MS: u64 = 5000;

/// What one probe of the parent process found.
#[derive(Debug, Clone, Copy, PartialEq, Eq, Structural)]
pub enum LivenessProbeResult {
    Alive,
    Dead,
    /// The platform could not tell; the supervisor is not torn down on a guess.
    Unknown,
}

/// What the monitor does after a probe.
#[derive(Debug, Clone, Copy, PartialEq, Eq, Structural)]
pub enum MonitorDecision {
    /// Sleep one polling interval and probe again.
    KeepWatching,
    /// Exit the whole supervisor process now.
    TerminateSupervisor,
}

pub open spec fn decision_for(probe: LivenessProbeResult) -> MonitorDecision {
    if probe == LivenessProbeResult::Dead {
        MonitorDecision::TerminateSupervisor
    } else {
        MonitorDecision::KeepWatching
    }
}

/// The number of the probe, in a run of probes, after which the monitor
/// ends the supervisor, if it does.
pub open spec fn termination_point(probes: Seq<LivenessProbeResult>) -> Option<nat>
    decreases probes.len(),
{
    if probes.len() == 0 {
        None
    } else if decision_for(probes[0]) == MonitorDecision::TerminateSupervisor {
        Some(0)
    } else {
        match termination_point(probes.drop_first()) {
            Some(k) => Some(k + 1),
            None => None,
        }
    }
}

/// Decides, from one probe of the parent process, whether the supervisor
/// must end: only a parent known to be gone ends it.
pub fn decide(probe: LivenessProbeResult) -> (r: MonitorDecision)
    ensures
        r == decision_for(probe),
{
    match probe {
        LivenessProbeResult::Dead => MonitorDecision::TerminateSupervisor,
        _ => MonitorDecision::KeepWatching,
    }
}

/// While every probe finds the parent alive, the monitor never ends the
/// supervisor.
pub proof fn lemma_live_parent_never_terminates(probes: Seq<LivenessProbeResult>)
    requires
        forall|i: int| 0 <= i < probes.len() ==> probes[i] == LivenessProbeResult::Alive,
    ensures
        termination_point(probes) is None,
        forall|i: int|
            0 <= i < probes.len() ==> decision_for(#[trigger] probes[i])
                == MonitorDecision::KeepWatching,
    decreases probes.len(),
{
    if probes.len() > 0 {
        let rest = probes.drop_first();
        assert forall|i: int| 0 <= i < rest.len() implies rest[i] == LivenessProbeResult::Alive by {
            assert(rest[i] == probes[i + 1]);
        }
        lemma_live_parent_never_terminates(rest);
    }
}

/// Once a probe finds the parent gone, the supervisor has ended by the end
/// of that probe: within one polling interval of the parent's death.
pub proof fn lemma_dead_parent_terminates_at_next_probe(
    probes: Seq<LivenessProbeResult>,
    k: int,
)
    requires
        0 <= k < probes.len(),
        probes[k] == LivenessProbeResult::Dead,
    ensures
        termination_point(probes) is Some,
        termination_point(probes)->0 <= k,
    decreases probes.len(),
{
    if k > 0 && decision_for(probes[0]) != MonitorDecision::TerminateSupervisor {
        let rest = probes.drop_first();
        assert(rest[k - 1] == probes[k]);
        lemma_dead_parent_terminates_at_next_probe(rest, k - 1);
    }
}

} // verus!
