use cluster_engine::reconcile::{
    select_nodegroups_autoscaling_group_behavior, CpuArchitecture, KubernetesClusterAction,
    NodeGroups, NodeGroupsWithDesiredState,
};

#[test]
fn test_nodegroup_autoscaling_group() {
    let nodegroup_with_ds = |desired_nodes, enable_desired_nodes| {
        NodeGroupsWithDesiredState::new(
            "nodegroup".to_string(),
            None,
            3,
            10,
            desired_nodes,
            enable_desired_nodes,
            "t1000.xlarge".to_string(),
            20,
        )
    };
    let nodegroup = NodeGroups::new(
        "nodegroup".to_string(),
        3,
        10,
        "t1000.xlarge".to_string(),
        20,
        CpuArchitecture::AMD64,
    )
    .unwrap();

    // bootstrap
    assert_eq!(
        select_nodegroups_autoscaling_group_behavior(KubernetesClusterAction::Bootstrap, &nodegroup),
        nodegroup_with_ds(3, true) // need true because it's required from AWS to set desired node when initializing the autoscaler
    );
    // pause
    assert_eq!(
        select_nodegroups_autoscaling_group_behavior(KubernetesClusterAction::Pause, &nodegroup),
        nodegroup_with_ds(3, false)
    );
    // delete
    assert_eq!(
        select_nodegroups_autoscaling_group_behavior(KubernetesClusterAction::Delete, &nodegroup),
        nodegroup_with_ds(3, false)
    );
    // resume
    assert_eq!(
        select_nodegroups_autoscaling_group_behavior(
            KubernetesClusterAction::Resume(Some(5)),
            &nodegroup
        ),
        nodegroup_with_ds(5, true)
    );
    assert_eq!(
        select_nodegroups_autoscaling_group_behavior(
            KubernetesClusterAction::Resume(None),
            &nodegroup
        ),
        // if no info is given during resume, take the minimum and let the autoscaler scale up afterwards
        nodegroup_with_ds(3, true)
    );
    // update (we never have to change desired state during an update because the autoscaler manages it already)
    assert_eq!(
        select_nodegroups_autoscaling_group_behavior(
            KubernetesClusterAction::Update(Some(6)),
            &nodegroup
        ),
        nodegroup_with_ds(6, false)
    );
    assert_eq!(
        select_nodegroups_autoscaling_group_behavior(
            KubernetesClusterAction::Update(None),
            &nodegroup
        ),
        nodegroup_with_ds(10, true) // max node is set just in case there is an issue retrieving info from the autoscaler
    );
    // upgrade (we never have to change desired state during an upgrade because the autoscaler manages it already)
    assert_eq!(
        select_nodegroups_autoscaling_group_behavior(
            KubernetesClusterAction::Upgrade(Some(7)),
            &nodegroup
        ),
        nodegroup_with_ds(7, false)
    );
    assert_eq!(
        select_nodegroups_autoscaling_group_behavior(
            KubernetesClusterAction::Update(None),
            &nodegroup
        ),
        nodegroup_with_ds(10, true)
    );

    // test autocorrection of silly stuffs
    assert_eq!(
        select_nodegroups_autoscaling_group_behavior(
            KubernetesClusterAction::Update(Some(1)),
            &nodegroup
        ),
        nodegroup_with_ds(3, true) // set to minimum if desired is below min
    );
    assert_eq!(
        select_nodegroups_autoscaling_group_behavior(
            KubernetesClusterAction::Update(Some(1000)),
            &nodegroup
        ),
        nodegroup_with_ds(10, true) // set to max if desired is above max
    );
}

#[test]
fn reconcile_stays_within_bounds_for_every_action() {
    let nodegroup = NodeGroups::new(
        "pool".to_string(),
        2,
        6,
        "t1000.xlarge".to_string(),
        20,
        CpuArchitecture::ARM64,
    )
    .unwrap();
    let actions = vec![
        KubernetesClusterAction::Bootstrap,
        KubernetesClusterAction::Pause,
        KubernetesClusterAction::Delete,
        KubernetesClusterAction::Update(None),
        KubernetesClusterAction::Update(Some(-5)),
        KubernetesClusterAction::Update(Some(0)),
        KubernetesClusterAction::Update(Some(4)),
        KubernetesClusterAction::Update(Some(100)),
        KubernetesClusterAction::Upgrade(None),
        KubernetesClusterAction::Upgrade(Some(1)),
        KubernetesClusterAction::Upgrade(Some(6)),
        KubernetesClusterAction::Resume(None),
        KubernetesClusterAction::Resume(Some(1)),
        KubernetesClusterAction::Resume(Some(9)),
    ];
    for action in actions {
        let r = select_nodegroups_autoscaling_group_behavior(action, &nodegroup);
        assert!(r.desired_size >= 2, "desired below min for {:?}", action);
        assert!(r.desired_size <= 6, "desired above max for {:?}", action);
        assert_eq!(r.name, "pool");
        assert_eq!(r.min_nodes, 2);
        assert_eq!(r.max_nodes, 6);
    }
}

#[test]
fn nodegroups_rejects_inverted_bounds() {
    let err = NodeGroups::new(
        "pool".to_string(),
        5,
        4,
        "t1000.xlarge".to_string(),
        20,
        CpuArchitecture::AMD64,
    );
    assert!(err.is_err());
}
