//! Cluster upgrade state machine.
//!
//! The two-phase upgrade protocol: control plane first, then workers, with
//! workload quarantine, autoscaler suspension and a compensating
//! restoration that runs on every exit path. The machine decides; the
//! caller performs each action (an infrastructure apply, an orchestrator
//! call) and reports the outcome back as an event.

use vstd::prelude::*;

verus! {

/// Which tier of the cluster still needs the upgrade.
#[derive(Clone, Copy, Debug, PartialEq, Eq, Structural)]
pub enum KubernetesNodesType {
    Masters,
    Workers,
}

/// What a version comparison found: the tier still to upgrade, the version
/// asked for and the version the control plane runs.
#[derive(Clone, Debug, PartialEq, Eq)]
pub struct KubernetesUpgradeStatus {
    pub required_upgrade_on: Option<KubernetesNodesType>,
    pub requested_version: String,
    pub deployed_masters_version: String,
}

/// Why an upgrade ended without success. Every failure is terminal for the
/// invocation: the machine never retries on its own.
#[derive(Clone, Copy, Debug, PartialEq, Eq, Structural)]
pub enum UpgradeFailure {
    IaCApplyFailed,
    WorkloadScaleFailed,
    WorkloadCleanupFailed,
    NodeNotReadyAfterUpgrade,
}

/// The outcome to report once the autoscaler has been restored.
#[derive(Clone, Copy, Debug, PartialEq, Eq, Structural)]
pub enum PendingOutcome {
    Succeed,
    Fail(UpgradeFailure),
}

/// Where the upgrade stands.
#[derive(Clone, Copy, Debug, PartialEq, Eq, Structural)]
pub enum UpgradePhase {
    Idle,
    MastersUpgrading,
    WorkersPreparing,
    WorkersCleaning,
    AutoscalerSuspending,
    WorkersUpgrading,
    WorkersVerifying,
    AutoscalerRestoring(PendingOutcome),
    Done,
    Failed(UpgradeFailure),
}

/// The machine's state: its phase, and whether the cluster autoscaler is
/// currently scaled to zero on the machine's behalf.
#[derive(Clone, Copy, Debug, PartialEq, Eq, Structural)]
pub struct UpgradeState {
    pub phase: UpgradePhase,
    pub autoscaler_suspended: bool,
}

/// What the caller must do next. Version strings are pinned by the
/// machine: a master apply never moves the workers (they stay on the
/// deployed masters' version), a worker apply carries the requested
/// version with the autoscaler disabled.
#[derive(Clone, Debug, PartialEq, Eq)]
pub enum UpgradeAction {
    ApplyMasters { master_version: String, workers_version: String },
    QuarantineWorkloads,
    CleanupWorkloads,
    SuspendAutoscaler,
    ApplyWorkers { workers_version: String },
    AwaitWorkers,
    RestoreAutoscaler,
    Report,
}

/// What the caller reports back after performing an action.
#[derive(Clone, Copy, Debug, PartialEq, Eq, Structural)]
pub enum UpgradeEvent {
    ApplyOk,
    ApplyErr,
    QuarantineOk,
    QuarantineErr,
    CleanupOk,
    CleanupErr,
    SuspendOk,
    SuspendErr,
    WorkersReady,
    WorkersTimeout,
    RestoreDone,
}

/// A phase where the upgrade has ended, one way or the other.
pub open spec fn is_terminal(phase: UpgradePhase) -> bool {
    ||| phase is Done
    ||| phase is Failed
}

/// The suspension flag tracks the phase exactly: the autoscaler is off
/// during the worker apply, the verification poll and the restoration, and
/// at no other time.
pub open spec fn wf_upgrade_state(s: UpgradeState) -> bool {
    s.autoscaler_suspended <==> (s.phase is WorkersUpgrading || s.phase is WorkersVerifying
        || s.phase is AutoscalerRestoring)
}

/// Which events a phase can accept.
pub open spec fn accepts_event(phase: UpgradePhase, event: UpgradeEvent) -> bool {
    match phase {
        UpgradePhase::MastersUpgrading => event is ApplyOk || event is ApplyErr,
        UpgradePhase::WorkersPreparing => event is QuarantineOk || event is QuarantineErr,
        UpgradePhase::WorkersCleaning => event is CleanupOk || event is CleanupErr,
        UpgradePhase::AutoscalerSuspending => event is SuspendOk || event is SuspendErr,
        UpgradePhase::WorkersUpgrading => event is ApplyOk || event is ApplyErr,
        UpgradePhase::WorkersVerifying => event is WorkersReady || event is WorkersTimeout,
        UpgradePhase::AutoscalerRestoring(_) => event is RestoreDone,
        _ => false,
    }
}

/// The next state, as a mathematical function of the current phase and the
/// reported event.
pub open spec fn next_state(s: UpgradeState, event: UpgradeEvent) -> UpgradeState {
    match (s.phase, event) {
        (UpgradePhase::MastersUpgrading, UpgradeEvent::ApplyOk) => UpgradeState {
            phase: UpgradePhase::WorkersPreparing,
            autoscaler_suspended: false,
        },
        (UpgradePhase::MastersUpgrading, UpgradeEvent::ApplyErr) => UpgradeState {
            phase: UpgradePhase::Failed(UpgradeFailure::IaCApplyFailed),
            autoscaler_suspended: false,
        },
        (UpgradePhase::WorkersPreparing, UpgradeEvent::QuarantineOk) => UpgradeState {
            phase: UpgradePhase::WorkersCleaning,
            autoscaler_suspended: false,
        },
        (UpgradePhase::WorkersPreparing, UpgradeEvent::QuarantineErr) => UpgradeState {
            phase: UpgradePhase::Failed(UpgradeFailure::WorkloadScaleFailed),
            autoscaler_suspended: false,
        },
        (UpgradePhase::WorkersCleaning, UpgradeEvent::CleanupOk) => UpgradeState {
            phase: UpgradePhase::AutoscalerSuspending,
            autoscaler_suspended: false,
        },
        (UpgradePhase::WorkersCleaning, UpgradeEvent::CleanupErr) => UpgradeState {
            phase: UpgradePhase::Failed(UpgradeFailure::WorkloadCleanupFailed),
            autoscaler_suspended: false,
        },
        (UpgradePhase::AutoscalerSuspending, UpgradeEvent::SuspendOk) => UpgradeState {
            phase: UpgradePhase::WorkersUpgrading,
            autoscaler_suspended: true,
        },
        (UpgradePhase::AutoscalerSuspending, UpgradeEvent::SuspendErr) => UpgradeState {
            phase: UpgradePhase::Failed(UpgradeFailure::WorkloadScaleFailed),
            autoscaler_suspended: false,
        },
        (UpgradePhase::WorkersUpgrading, UpgradeEvent::ApplyOk) => UpgradeState {
            phase: UpgradePhase::WorkersVerifying,
            autoscaler_suspended: true,
        },
        (UpgradePhase::WorkersUpgrading, UpgradeEvent::ApplyErr) => UpgradeState {
            phase: UpgradePhase::AutoscalerRestoring(
                PendingOutcome::Fail(UpgradeFailure::IaCApplyFailed),
            ),
            autoscaler_suspended: true,
        },
        (UpgradePhase::WorkersVerifying, UpgradeEvent::WorkersReady) => UpgradeState {
            phase: UpgradePhase::AutoscalerRestoring(PendingOutcome::Succeed),
            autoscaler_suspended: true,
        },
        (UpgradePhase::WorkersVerifying, UpgradeEvent::WorkersTimeout) => UpgradeState {
            phase: UpgradePhase::AutoscalerRestoring(
                PendingOutcome::Fail(UpgradeFailure::NodeNotReadyAfterUpgrade),
            ),
            autoscaler_suspended: true,
        },
        (UpgradePhase::AutoscalerRestoring(PendingOutcome::Succeed), UpgradeEvent::RestoreDone) => UpgradeState {
            phase: UpgradePhase::Done,
            autoscaler_suspended: false,
        },
        (UpgradePhase::AutoscalerRestoring(PendingOutcome::Fail(f)), UpgradeEvent::RestoreDone) => UpgradeState {
            phase: UpgradePhase::Failed(f),
            autoscaler_suspended: false,
        },
        _ => s,
    }
}

/// The action the machine asks for, as a function of the next state.
pub open spec fn action_matches(s: UpgradeState, event: UpgradeEvent, action: UpgradeAction) -> bool {
    match next_state(s, event).phase {
        UpgradePhase::Idle => false,
        UpgradePhase::MastersUpgrading => action is ApplyMasters,
        UpgradePhase::WorkersPreparing => action is QuarantineWorkloads,
        UpgradePhase::WorkersCleaning => action is CleanupWorkloads,
        UpgradePhase::AutoscalerSuspending => action is SuspendAutoscaler,
        UpgradePhase::WorkersUpgrading => action is ApplyWorkers,
        UpgradePhase::WorkersVerifying => action is AwaitWorkers,
        UpgradePhase::AutoscalerRestoring(_) => action is RestoreAutoscaler,
        UpgradePhase::Done => action is Report,
        UpgradePhase::Failed(_) => action is Report,
    }
}

/// Starts an upgrade from the comparison outcome.
///
/// No required upgrade short-circuits straight to `Done`. A master upgrade
/// is applied with the workers pinned to the version the masters already
/// run — the two tiers are never moved in one apply. A worker-only upgrade
/// skips the master phase and begins with the workload quarantine.
pub fn upgrade_init(status: &KubernetesUpgradeStatus) -> (r: (UpgradeState, UpgradeAction))
    ensures
        wf_upgrade_state(r.0),
        !r.0.autoscaler_suspended,
        status.required_upgrade_on is None ==> r.0.phase is Done && r.1 is Report,
        status.required_upgrade_on == Some(KubernetesNodesType::Masters) ==> {
            &&& r.0.phase is MastersUpgrading
            &&& r.1 matches UpgradeAction::ApplyMasters { master_version, workers_version }
                && master_version@ == status.requested_version@ && workers_version@
                == status.deployed_masters_version@
        },
        status.required_upgrade_on == Some(KubernetesNodesType::Workers) ==> r.0.phase
            is WorkersPreparing && r.1 is QuarantineWorkloads,
{
    match &status.required_upgrade_on {
        None => (
            UpgradeState { phase: UpgradePhase::Done, autoscaler_suspended: false },
            UpgradeAction::Report,
        ),
        Some(KubernetesNodesType::Masters) => (
            UpgradeState { phase: UpgradePhase::MastersUpgrading, autoscaler_suspended: false },
            UpgradeAction::ApplyMasters {
                master_version: status.requested_version.clone(),
                workers_version: status.deployed_masters_version.clone(),
            },
        ),
        Some(KubernetesNodesType::Workers) => (
            UpgradeState { phase: UpgradePhase::WorkersPreparing, autoscaler_suspended: false },
            UpgradeAction::QuarantineWorkloads,
        ),
    }
}

/// Advances the machine by one reported event and tells the caller what to
/// do next.
///
/// A worker apply always runs with the autoscaler suspended and carries
/// the requested version; whatever the apply and the verification poll
/// report, the machine passes through the restoring phase — whose only
/// action is `RestoreAutoscaler` — before it ends. The restoration's own
/// outcome is deliberately ignored: it is the one always-executed
/// compensating action.
pub fn upgrade_step(
    state: UpgradeState,
    event: UpgradeEvent,
    status: &KubernetesUpgradeStatus,
) -> (r: (UpgradeState, UpgradeAction))
    requires
        wf_upgrade_state(state),
        accepts_event(state.phase, event),
    ensures
        r.0 == next_state(state, event),
        action_matches(state, event, r.1),
        r.1 matches UpgradeAction::ApplyWorkers { workers_version } ==> workers_version@
            == status.requested_version@,
        wf_upgrade_state(r.0),
{
    let next = match (state.phase, event) {
        (UpgradePhase::MastersUpgrading, UpgradeEvent::ApplyOk) => UpgradeState {
            phase: UpgradePhase::WorkersPreparing,
            autoscaler_suspended: false,
        },
        (UpgradePhase::MastersUpgrading, UpgradeEvent::ApplyErr) => UpgradeState {
            phase: UpgradePhase::Failed(UpgradeFailure::IaCApplyFailed),
            autoscaler_suspended: false,
        },
        (UpgradePhase::WorkersPreparing, UpgradeEvent::QuarantineOk) => UpgradeState {
            phase: UpgradePhase::WorkersCleaning,
            autoscaler_suspended: false,
        },
        (UpgradePhase::WorkersPreparing, UpgradeEvent::QuarantineErr) => UpgradeState {
            phase: UpgradePhase::Failed(UpgradeFailure::WorkloadScaleFailed),
            autoscaler_suspended: false,
        },
        (UpgradePhase::WorkersCleaning, UpgradeEvent::CleanupOk) => UpgradeState {
            phase: UpgradePhase::AutoscalerSuspending,
            autoscaler_suspended: false,
        },
        (UpgradePhase::WorkersCleaning, UpgradeEvent::CleanupErr) => UpgradeState {
            phase: UpgradePhase::Failed(UpgradeFailure::WorkloadCleanupFailed),
            autoscaler_suspended: false,
        },
        (UpgradePhase::AutoscalerSuspending, UpgradeEvent::SuspendOk) => UpgradeState {
            phase: UpgradePhase::WorkersUpgrading,
            autoscaler_suspended: true,
        },
        (UpgradePhase::AutoscalerSuspending, UpgradeEvent::SuspendErr) => UpgradeState {
            phase: UpgradePhase::Failed(UpgradeFailure::WorkloadScaleFailed),
            autoscaler_suspended: false,
        },
        (UpgradePhase::WorkersUpgrading, UpgradeEvent::ApplyOk) => UpgradeState {
            phase: UpgradePhase::WorkersVerifying,
            autoscaler_suspended: true,
        },
        (UpgradePhase::WorkersUpgrading, UpgradeEvent::ApplyErr) => UpgradeState {
            phase: UpgradePhase::AutoscalerRestoring(
                PendingOutcome::Fail(UpgradeFailure::IaCApplyFailed),
            ),
            autoscaler_suspended: true,
        },
        (UpgradePhase::WorkersVerifying, UpgradeEvent::WorkersReady) => UpgradeState {
            phase: UpgradePhase::AutoscalerRestoring(PendingOutcome::Succeed),
            autoscaler_suspended: true,
        },
        (UpgradePhase::WorkersVerifying, UpgradeEvent::WorkersTimeout) => UpgradeState {
            phase: UpgradePhase::AutoscalerRestoring(
                PendingOutcome::Fail(UpgradeFailure::NodeNotReadyAfterUpgrade),
            ),
            autoscaler_suspended: true,
        },
        (UpgradePhase::AutoscalerRestoring(pending), UpgradeEvent::RestoreDone) => match pending {
            PendingOutcome::Succeed => UpgradeState {
                phase: UpgradePhase::Done,
                autoscaler_suspended: false,
            },
            PendingOutcome::Fail(f) => UpgradeState {
                phase: UpgradePhase::Failed(f),
                autoscaler_suspended: false,
            },
        },
        _ => state,
    };
    let action = match next.phase {
        UpgradePhase::Idle => UpgradeAction::Report,
        UpgradePhase::MastersUpgrading => UpgradeAction::ApplyMasters {
            master_version: status.requested_version.clone(),
            workers_version: status.deployed_masters_version.clone(),
        },
        UpgradePhase::WorkersPreparing => UpgradeAction::QuarantineWorkloads,
        UpgradePhase::WorkersCleaning => UpgradeAction::CleanupWorkloads,
        UpgradePhase::AutoscalerSuspending => UpgradeAction::SuspendAutoscaler,
        UpgradePhase::WorkersUpgrading => UpgradeAction::ApplyWorkers {
            workers_version: status.requested_version.clone(),
        },
        UpgradePhase::WorkersVerifying => UpgradeAction::AwaitWorkers,
        UpgradePhase::AutoscalerRestoring(_) => UpgradeAction::RestoreAutoscaler,
        UpgradePhase::Done => UpgradeAction::Report,
        UpgradePhase::Failed(_) => UpgradeAction::Report,
    };
    (next, action)
}

/// Law: the autoscaler is never left permanently disabled. Every step
/// keeps the suspension flag tied to the phase, and a terminal state never
/// holds the autoscaler suspended — whatever failed on the way there.
pub proof fn lemma_autoscaler_never_left_disabled(s: UpgradeState, event: UpgradeEvent)
    requires
        wf_upgrade_state(s),
        accepts_event(s.phase, event),
    ensures
        wf_upgrade_state(next_state(s, event)),
        is_terminal(next_state(s, event).phase) ==> !next_state(s, event).autoscaler_suspended,
{
}

/// Law: the suspension is only ever lifted through the restoring phase,
/// and the restoring phase is only ever entered by asking for the
/// compensating `RestoreAutoscaler` action — so between suspension and
/// termination the restoration always runs, whether the worker apply
/// succeeded, failed, or the verification timed out.
pub proof fn lemma_restore_runs_before_exit(
    s: UpgradeState,
    event: UpgradeEvent,
    action: UpgradeAction,
)
    requires
        wf_upgrade_state(s),
        accepts_event(s.phase, event),
        action_matches(s, event, action),
    ensures
        s.autoscaler_suspended && !next_state(s, event).autoscaler_suspended ==> s.phase
            is AutoscalerRestoring,
        next_state(s, event).phase is AutoscalerRestoring ==> action is RestoreAutoscaler,
        !s.autoscaler_suspended && next_state(s, event).autoscaler_suspended ==> (s.phase
            is AutoscalerSuspending && event is SuspendOk),
{
}

/// Whether a whole event sequence is accepted from a state: each event in
/// turn fits the phase the machine is then in.
pub open spec fn accepts_run(s: UpgradeState, events: Seq<UpgradeEvent>) -> bool
    decreases events.len(),
{
    events.len() == 0 || (accepts_event(s.phase, events[0]) && accepts_run(
        next_state(s, events[0]),
        events.drop_first(),
    ))
}

/// The state the machine reaches after a whole event sequence.
pub open spec fn run_state(s: UpgradeState, events: Seq<UpgradeEvent>) -> UpgradeState
    decreases events.len(),
{
    if events.len() == 0 {
        s
    } else {
        run_state(next_state(s, events[0]), events.drop_first())
    }
}

/// Law, over whole runs: however many events the machine consumes, its
/// suspension flag stays tied to its phase — so an upgrade that has ended,
/// by success or by any failure, has always given the autoscaler back.
pub proof fn lemma_run_never_leaves_autoscaler_disabled(
    s: UpgradeState,
    events: Seq<UpgradeEvent>,
)
    requires
        wf_upgrade_state(s),
        accepts_run(s, events),
    ensures
        wf_upgrade_state(run_state(s, events)),
        is_terminal(run_state(s, events).phase) ==> !run_state(s, events).autoscaler_suspended,
    decreases events.len(),
{
    if events.len() > 0 {
        lemma_autoscaler_never_left_disabled(s, events[0]);
        lemma_run_never_leaves_autoscaler_disabled(next_state(s, events[0]), events.drop_first());
    }
}

/// Law: a failed master apply aborts the whole upgrade — the machine ends
/// at once, no worker phase is attempted and the autoscaler was never
/// touched.
pub proof fn lemma_master_failure_is_fatal(s: UpgradeState)
    requires
        wf_upgrade_state(s),
        s.phase is MastersUpgrading,
    ensures
        next_state(s, UpgradeEvent::ApplyErr) == (UpgradeState {
            phase: UpgradePhase::Failed(UpgradeFailure::IaCApplyFailed),
            autoscaler_suspended: false,
        }),
        is_terminal(next_state(s, UpgradeEvent::ApplyErr).phase),
{
}

/// Replica counts reported for one deployment or stateful set; the
/// orchestrator may omit either count.
#[derive(Clone, Copy, Debug, PartialEq, Eq, Structural)]
pub struct WorkloadReplicaStatus {
    pub replicas: Option<i32>,
    pub ready_replicas: Option<i32>,
}

/// A deployment or stateful set snapshot, as the workload-inspection
/// collaborator lists it.
#[derive(Clone, Debug, PartialEq, Eq)]
pub struct WorkloadSnapshot {
    pub name: String,
    pub namespace: String,
    pub status: Option<WorkloadReplicaStatus>,
}

/// A workload must be quarantined when it asks for replicas but none is
/// ready: scaled to zero, a stuck mid-rollout workload cannot block the
/// node drain. A workload with no status, with zero replicas, or with a
/// ready instance is left untouched.
pub open spec fn needs_quarantine(w: WorkloadSnapshot) -> bool {
    match w.status {
        Some(st) => {
            let replicas = match st.replicas {
                Some(x) => x,
                None => 0,
            };
            let ready = match st.ready_replicas {
                Some(x) => x,
                None => 0,
            };
            replicas > 0 && ready == 0
        },
        None => false,
    }
}

/// Selects the workloads to scale to zero before a worker upgrade.
///
/// Returns the indices, in snapshot order, of exactly those workloads
/// that report replicas without a single ready one.
pub fn workloads_to_quarantine(workloads: &Vec<WorkloadSnapshot>) -> (r: Vec<usize>)
    ensures
        forall|k: int|
            0 <= k < r@.len() ==> (#[trigger] r@[k]) < workloads@.len() && needs_quarantine(
                workloads@[r@[k] as int],
            ),
        forall|j: int|
            0 <= j < workloads@.len() && needs_quarantine(#[trigger] workloads@[j]) ==> r@.contains(
                j as usize,
            ),
        forall|k1: int, k2: int| 0 <= k1 < k2 < r@.len() ==> r@[k1] < r@[k2],
{
    let mut out: Vec<usize> = Vec::new();
    let mut i: usize = 0;
    while i < workloads.len()
        invariant
            0 <= i <= workloads@.len(),
            forall|k: int|
                0 <= k < out@.len() ==> (#[trigger] out@[k]) < i && needs_quarantine(
                    workloads@[out@[k] as int],
                ),
            forall|j: int|
                0 <= j < i && needs_quarantine(#[trigger] workloads@[j]) ==> out@.contains(
                    j as usize,
                ),
            forall|k1: int, k2: int| 0 <= k1 < k2 < out@.len() ==> out@[k1] < out@[k2],
        decreases workloads@.len() - i,
    {
        let quarantine: bool = match &workloads[i].status {
            Some(st) => {
                let replicas: i32 = match st.replicas {
                    Some(x) => x,
                    None => 0,
                };
                let ready: i32 = match st.ready_replicas {
                    Some(x) => x,
                    None => 0,
                };
                replicas > 0 && ready == 0
            },
            None => false,
        };
        if quarantine {
            proof {
                assert(needs_quarantine(workloads@[i as int]));
            }
            let ghost prev = out@;
            out.push(i);
            proof {
                assert(out@ == prev.push(i as usize));
                assert(forall|k: int| 0 <= k < prev.len() ==> out@[k] == #[trigger] prev[k]);
                assert(out@[out@.len() - 1] == i as usize);
                assert forall|k: int| 0 <= k < out@.len() implies (#[trigger] out@[k]) < i + 1
                    && needs_quarantine(workloads@[out@[k] as int]) by {
                    if k < out@.len() - 1 {
                        assert(out@[k] == prev[k]);
                    }
                }
                assert forall|j: int|
                    0 <= j < i + 1 && needs_quarantine(#[trigger] workloads@[j]) implies out@
                    .contains(j as usize) by {
                    if j < i {
                        let k = choose|k: int| 0 <= k < prev.len() && prev[k] == j as usize;
                        assert(out@[k] == j as usize);
                    } else {
                        assert(out@[out@.len() - 1] == j as usize);
                    }
                }
                assert forall|k1: int, k2: int|
                    0 <= k1 < k2 < out@.len() implies out@[k1] < out@[k2] by {
                    if k2 == out@.len() - 1 {
                        assert(out@[k1] == prev[k1]);
                        assert(prev[k1] < i);
                    } else {
                        assert(out@[k1] == prev[k1] && out@[k2] == prev[k2]);
                    }
                }
            }
        } else {
            proof {
                assert(!needs_quarantine(workloads@[i as int]));
            }
        }
        i += 1;
    }
    out
}

} // verus!
