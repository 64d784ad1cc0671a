use cluster_engine::nodegroups::{
    check_failed_nodegroups_to_remove, nodegroups_health_details, plan_nodegroups_deletion,
    DescribeNodegroupOutput, Nodegroup, NodegroupDeletionPlanError, NodegroupHealthIssue,
    NodeGroupToRemoveFailure, NodeGroupsDeletionType, NodegroupStatus,
};

fn described(name: &str, status: NodegroupStatus) -> DescribeNodegroupOutput {
    DescribeNodegroupOutput {
        nodegroup: Some(Nodegroup {
            nodegroup_name: Some(name.to_string()),
            status: Some(status),
            health_issues: None,
        }),
    }
}

#[test]
fn test_nodegroup_failure_deletion() {
    let nodegroup_ok = Nodegroup {
        nodegroup_name: Some("nodegroup_ok".to_string()),
        status: Some(NodegroupStatus::Active),
        health_issues: None,
    };
    let nodegroup_create_failed = Nodegroup {
        nodegroup_name: Some("nodegroup_create_failed".to_string()),
        status: Some(NodegroupStatus::CreateFailed),
        health_issues: None,
    };

    // 2 nodegroups, 2 ok => nothing to delete
    let ngs = vec![
        DescribeNodegroupOutput { nodegroup: Some(nodegroup_ok.clone()) },
        DescribeNodegroupOutput { nodegroup: Some(nodegroup_ok.clone()) },
    ];
    assert_eq!(check_failed_nodegroups_to_remove(&ngs).unwrap().len(), 0);

    // 2 nodegroups, 1 ok, 1 create failed => 1 to delete
    let ngs = vec![
        DescribeNodegroupOutput { nodegroup: Some(nodegroup_ok.clone()) },
        DescribeNodegroupOutput { nodegroup: Some(nodegroup_create_failed.clone()) },
    ];
    let failed_ngs = check_failed_nodegroups_to_remove(&ngs).unwrap();
    assert_eq!(failed_ngs.len(), 1);
    assert_eq!(
        failed_ngs[0]
            .nodegroup
            .as_ref()
            .unwrap()
            .nodegroup_name
            .as_ref()
            .unwrap(),
        "nodegroup_create_failed"
    );

    // 2 nodegroups, 2 failed => nothing to do, too critical to be deleted. Manual intervention required
    let ngs = vec![
        DescribeNodegroupOutput { nodegroup: Some(nodegroup_create_failed.clone()) },
        DescribeNodegroupOutput { nodegroup: Some(nodegroup_create_failed.clone()) },
    ];
    assert_eq!(
        check_failed_nodegroups_to_remove(&ngs).unwrap_err(),
        NodeGroupToRemoveFailure::OneNodeGroupMustBeActiveAtLeast
    );

    // 1 nodegroup, 1 failed => nothing to do, too critical to be deleted. Manual intervention required
    let ngs = vec![DescribeNodegroupOutput { nodegroup: Some(nodegroup_create_failed.clone()) }];
    assert_eq!(
        check_failed_nodegroups_to_remove(&ngs).unwrap_err(),
        NodeGroupToRemoveFailure::OneNodeGroupMustBeActiveAtLeast
    );

    // no nodegroups => ok
    let ngs = vec![];
    assert_eq!(check_failed_nodegroups_to_remove(&ngs).unwrap().len(), 0);

    // x nodegroups, 1 ok, 2 create failed, 1 delete failure, others in other states => 4 to delete
    let ngs = vec![
        DescribeNodegroupOutput { nodegroup: Some(nodegroup_ok) },
        DescribeNodegroupOutput { nodegroup: Some(nodegroup_create_failed) },
        described(
            &format!("nodegroup_{:?}", NodegroupStatus::CreateFailed),
            NodegroupStatus::CreateFailed,
        ),
        described(
            &format!("nodegroup_{:?}", NodegroupStatus::Deleting),
            NodegroupStatus::Deleting,
        ),
        described(
            &format!("nodegroup_{:?}", NodegroupStatus::Creating),
            NodegroupStatus::Creating,
        ),
        described(
            &format!("nodegroup_{:?}", NodegroupStatus::Degraded),
            NodegroupStatus::Degraded,
        ),
        described(
            &format!("nodegroup_{:?}", NodegroupStatus::DeleteFailed),
            NodegroupStatus::DeleteFailed,
        ),
        described(
            &format!("nodegroup_{:?}", NodegroupStatus::Deleting),
            NodegroupStatus::Deleting,
        ),
        described(
            &format!("nodegroup_{:?}", NodegroupStatus::Updating),
            NodegroupStatus::Updating,
        ),
    ];
    let failed_ngs = check_failed_nodegroups_to_remove(&ngs).unwrap();
    assert_eq!(failed_ngs.len(), 4);
    assert_eq!(
        failed_ngs[0]
            .nodegroup
            .as_ref()
            .unwrap()
            .nodegroup_name
            .as_ref()
            .unwrap(),
        "nodegroup_create_failed"
    );
    assert_eq!(
        failed_ngs[1]
            .nodegroup
            .as_ref()
            .unwrap()
            .nodegroup_name
            .as_ref()
            .unwrap(),
        "nodegroup_CreateFailed"
    );
    assert_eq!(
        failed_ngs[2]
            .nodegroup
            .as_ref()
            .unwrap()
            .nodegroup_name
            .as_ref()
            .unwrap(),
        "nodegroup_Degraded"
    );
    assert_eq!(
        failed_ngs[3]
            .nodegroup
            .as_ref()
            .unwrap()
            .nodegroup_name
            .as_ref()
            .unwrap(),
        "nodegroup_DeleteFailed"
    );
}

#[test]
fn missing_nodegroup_information_is_rejected() {
    let ngs = vec![
        described("a", NodegroupStatus::Active),
        DescribeNodegroupOutput { nodegroup: None },
    ];
    assert_eq!(
        check_failed_nodegroups_to_remove(&ngs).unwrap_err(),
        NodeGroupToRemoveFailure::NodeGroupNotFound
    );
}

#[test]
fn deletion_plan_rejects_unknown_cluster() {
    let clusters = vec!["alpha".to_string(), "beta".to_string()];
    let plan = plan_nodegroups_deletion(
        &clusters,
        &"gamma".to_string(),
        &vec![described("a", NodegroupStatus::Active)],
        false,
        NodeGroupsDeletionType::FailedOnly,
    );
    assert_eq!(plan.unwrap_err(), NodegroupDeletionPlanError::ClusterNotFound);
}

#[test]
fn deletion_plan_keeps_failed_only_selection() {
    let clusters = vec!["alpha".to_string()];
    let plan = plan_nodegroups_deletion(
        &clusters,
        &"alpha".to_string(),
        &vec![
            described("ok", NodegroupStatus::Active),
            described("bad", NodegroupStatus::Degraded),
        ],
        false,
        NodeGroupsDeletionType::FailedOnly,
    )
    .unwrap();
    assert_eq!(plan, vec!["bad".to_string()]);
}

#[test]
fn deletion_plan_takes_everything_on_first_install() {
    let clusters = vec!["alpha".to_string()];
    let plan = plan_nodegroups_deletion(
        &clusters,
        &"alpha".to_string(),
        &vec![
            described("ok", NodegroupStatus::Active),
            described("bad", NodegroupStatus::Degraded),
        ],
        true,
        NodeGroupsDeletionType::FailedOnly,
    )
    .unwrap();
    assert_eq!(plan, vec!["ok".to_string(), "bad".to_string()]);
}

#[test]
fn deletion_plan_names_unnamed_pools() {
    let clusters = vec!["alpha".to_string()];
    let unnamed = DescribeNodegroupOutput {
        nodegroup: Some(Nodegroup {
            nodegroup_name: None,
            status: Some(NodegroupStatus::Active),
            health_issues: None,
        }),
    };
    let plan = plan_nodegroups_deletion(
        &clusters,
        &"alpha".to_string(),
        &vec![unnamed],
        false,
        NodeGroupsDeletionType::All,
    )
    .unwrap();
    assert_eq!(plan, vec!["unknown_nodegroup_name".to_string()]);
}

#[test]
fn deletion_plan_reports_missing_information() {
    let clusters = vec!["alpha".to_string()];
    let plan = plan_nodegroups_deletion(
        &clusters,
        &"alpha".to_string(),
        &vec![DescribeNodegroupOutput { nodegroup: None }],
        false,
        NodeGroupsDeletionType::All,
    );
    assert_eq!(
        plan.unwrap_err(),
        NodegroupDeletionPlanError::MissingNodegroupInformation
    );
}

#[test]
fn health_details_carry_names_and_issues() {
    let issue = NodegroupHealthIssue {
        code: "InsufficientFreeAddresses".to_string(),
        message: Some("quota reached".to_string()),
    };
    let pools = vec![
        DescribeNodegroupOutput {
            nodegroup: Some(Nodegroup {
                nodegroup_name: Some("bad".to_string()),
                status: Some(NodegroupStatus::Degraded),
                health_issues: Some(vec![issue.clone()]),
            }),
        },
        DescribeNodegroupOutput { nodegroup: None },
    ];
    let details = nodegroups_health_details(&pools);
    assert_eq!(details.len(), 2);
    assert_eq!(details[0].nodegroup_name, Some("bad".to_string()));
    assert_eq!(details[0].health_issues, Some(vec![issue]));
    assert_eq!(details[1].nodegroup_name, None);
    assert_eq!(details[1].health_issues, None);
}

#[test]
fn failure_messages_are_stable() {
    assert_eq!(
        NodeGroupToRemoveFailure::OneNodeGroupMustBeActiveAtLeast.message(),
        "At lease one nodegroup must be active, no one can be deleted"
    );
    assert_eq!(NodeGroupToRemoveFailure::ClusterNotFound.message(), "No cluster found");
    assert_eq!(
        NodeGroupToRemoveFailure::NodeGroupNotFound.message(),
        "No nodegroup found for this cluster"
    );
}

#[test]
fn deletion_plan_upholds_the_quorum_rule() {
    let clusters = vec!["alpha".to_string()];
    let plan = plan_nodegroups_deletion(
        &clusters,
        &"alpha".to_string(),
        &vec![described("bad", NodegroupStatus::CreateFailed)],
        false,
        NodeGroupsDeletionType::FailedOnly,
    );
    assert_eq!(
        plan.unwrap_err(),
        NodegroupDeletionPlanError::OneNodeGroupMustBeActiveAtLeast
    );
}

#[test]
fn deletion_plan_passes_missing_pool_info_on() {
    let clusters = vec!["alpha".to_string()];
    let plan = plan_nodegroups_deletion(
        &clusters,
        &"alpha".to_string(),
        &vec![
            described("ok", NodegroupStatus::Active),
            DescribeNodegroupOutput { nodegroup: None },
        ],
        false,
        NodeGroupsDeletionType::FailedOnly,
    );
    assert_eq!(plan.unwrap_err(), NodegroupDeletionPlanError::NodeGroupNotFound);
}
