use cluster_engine::upgrade::{
    upgrade_init, upgrade_step, workloads_to_quarantine, KubernetesNodesType,
    KubernetesUpgradeStatus, UpgradeAction, UpgradeEvent, UpgradeFailure, UpgradePhase,
    UpgradeState, WorkloadReplicaStatus, WorkloadSnapshot,
};

fn status(required: Option<KubernetesNodesType>) -> KubernetesUpgradeStatus {
    KubernetesUpgradeStatus {
        required_upgrade_on: required,
        requested_version: "1.27".to_string(),
        deployed_masters_version: "1.26".to_string(),
    }
}

#[test]
fn no_required_upgrade_short_circuits() {
    let (state, action) = upgrade_init(&status(None));
    assert_eq!(state.phase, UpgradePhase::Done);
    assert!(!state.autoscaler_suspended);
    assert_eq!(action, UpgradeAction::Report);
}

#[test]
fn master_upgrade_pins_workers_to_deployed_version() {
    let (state, action) = upgrade_init(&status(Some(KubernetesNodesType::Masters)));
    assert_eq!(state.phase, UpgradePhase::MastersUpgrading);
    assert_eq!(
        action,
        UpgradeAction::ApplyMasters {
            master_version: "1.27".to_string(),
            workers_version: "1.26".to_string(),
        }
    );
}

#[test]
fn master_apply_failure_aborts_without_worker_phase() {
    let st = status(Some(KubernetesNodesType::Masters));
    let (state, _) = upgrade_init(&st);
    let (state, action) = upgrade_step(state, UpgradeEvent::ApplyErr, &st);
    assert_eq!(state.phase, UpgradePhase::Failed(UpgradeFailure::IaCApplyFailed));
    assert!(!state.autoscaler_suspended);
    assert_eq!(action, UpgradeAction::Report);
}

fn run_to_done(mut state: UpgradeState, st: &KubernetesUpgradeStatus, events: &[UpgradeEvent])
    -> (UpgradeState, Vec<UpgradeAction>) {
    let mut actions = Vec::new();
    for e in events {
        let (next, action) = upgrade_step(state, *e, st);
        state = next;
        actions.push(action);
    }
    (state, actions)
}

#[test]
fn full_worker_upgrade_restores_the_autoscaler() {
    let st = status(Some(KubernetesNodesType::Workers));
    let (state, first_action) = upgrade_init(&st);
    assert_eq!(state.phase, UpgradePhase::WorkersPreparing);
    assert_eq!(first_action, UpgradeAction::QuarantineWorkloads);

    let (state, actions) = run_to_done(
        state,
        &st,
        &[
            UpgradeEvent::QuarantineOk,
            UpgradeEvent::CleanupOk,
            UpgradeEvent::SuspendOk,
            UpgradeEvent::ApplyOk,
            UpgradeEvent::WorkersReady,
            UpgradeEvent::RestoreDone,
        ],
    );
    assert_eq!(
        actions,
        vec![
            UpgradeAction::CleanupWorkloads,
            UpgradeAction::SuspendAutoscaler,
            UpgradeAction::ApplyWorkers { workers_version: "1.27".to_string() },
            UpgradeAction::AwaitWorkers,
            UpgradeAction::RestoreAutoscaler,
            UpgradeAction::Report,
        ]
    );
    assert_eq!(state.phase, UpgradePhase::Done);
    assert!(!state.autoscaler_suspended);
}

#[test]
fn worker_apply_failure_still_restores_the_autoscaler() {
    let st = status(Some(KubernetesNodesType::Workers));
    let (state, _) = upgrade_init(&st);
    let (state, actions) = run_to_done(
        state,
        &st,
        &[
            UpgradeEvent::QuarantineOk,
            UpgradeEvent::CleanupOk,
            UpgradeEvent::SuspendOk,
            UpgradeEvent::ApplyErr,
            UpgradeEvent::RestoreDone,
        ],
    );
    // the compensating restoration ran even though the apply failed
    assert!(actions.contains(&UpgradeAction::RestoreAutoscaler));
    assert_eq!(state.phase, UpgradePhase::Failed(UpgradeFailure::IaCApplyFailed));
    assert!(!state.autoscaler_suspended);
}

#[test]
fn worker_timeout_is_its_own_failure_kind() {
    let st = status(Some(KubernetesNodesType::Workers));
    let (state, _) = upgrade_init(&st);
    let (state, actions) = run_to_done(
        state,
        &st,
        &[
            UpgradeEvent::QuarantineOk,
            UpgradeEvent::CleanupOk,
            UpgradeEvent::SuspendOk,
            UpgradeEvent::ApplyOk,
            UpgradeEvent::WorkersTimeout,
            UpgradeEvent::RestoreDone,
        ],
    );
    assert!(actions.contains(&UpgradeAction::RestoreAutoscaler));
    assert_eq!(
        state.phase,
        UpgradePhase::Failed(UpgradeFailure::NodeNotReadyAfterUpgrade)
    );
    assert!(!state.autoscaler_suspended);
}

#[test]
fn suspend_failure_needs_no_restoration() {
    let st = status(Some(KubernetesNodesType::Workers));
    let (state, _) = upgrade_init(&st);
    let (state, actions) = run_to_done(
        state,
        &st,
        &[UpgradeEvent::QuarantineOk, UpgradeEvent::CleanupOk, UpgradeEvent::SuspendErr],
    );
    assert_eq!(state.phase, UpgradePhase::Failed(UpgradeFailure::WorkloadScaleFailed));
    assert!(!state.autoscaler_suspended);
    assert!(!actions.contains(&UpgradeAction::RestoreAutoscaler));
}

fn workload(replicas: Option<i32>, ready: Option<i32>) -> WorkloadSnapshot {
    WorkloadSnapshot {
        name: "w".to_string(),
        namespace: "default".to_string(),
        status: Some(WorkloadReplicaStatus { replicas, ready_replicas: ready }),
    }
}

#[test]
fn quarantine_selects_stuck_workloads_only() {
    let workloads = vec![
        workload(Some(3), Some(3)),  // healthy
        workload(Some(2), Some(0)),  // stuck: replicas asked, none ready
        workload(Some(0), Some(0)),  // already scaled down
        workload(Some(1), None),     // no ready count reported: counts as zero
        WorkloadSnapshot { name: "n".to_string(), namespace: "d".to_string(), status: None },
        workload(None, Some(0)),     // no replica count: counts as zero replicas
    ];
    let picked = workloads_to_quarantine(&workloads);
    assert_eq!(picked, vec![1, 3]);
}

#[test]
fn quarantine_leaves_a_healthy_cluster_alone() {
    let workloads = vec![workload(Some(1), Some(1)), workload(Some(5), Some(4))];
    assert_eq!(workloads_to_quarantine(&workloads), Vec::<usize>::new());
}

#[test]
fn cleanup_failure_has_its_own_kind() {
    let st = status(Some(KubernetesNodesType::Workers));
    let (state, _) = upgrade_init(&st);
    let (state, _) = run_to_done(state, &st, &[UpgradeEvent::QuarantineOk, UpgradeEvent::CleanupErr]);
    assert_eq!(
        state.phase,
        UpgradePhase::Failed(UpgradeFailure::WorkloadCleanupFailed)
    );
    assert!(!state.autoscaler_suspended);
}

#[test]
fn quarantine_failure_is_a_scale_failure() {
    let st = status(Some(KubernetesNodesType::Workers));
    let (state, _) = upgrade_init(&st);
    let (state, _) = run_to_done(state, &st, &[UpgradeEvent::QuarantineErr]);
    assert_eq!(
        state.phase,
        UpgradePhase::Failed(UpgradeFailure::WorkloadScaleFailed)
    );
}
