use cluster_engine::cni_chart::{
    is_cni_old_version_installed, AwsVpcCniChart, AwsVpcCniChartInstallationChecker,
    DaemonSetList, DaemonSetSnapshot, DaemonSetSpecInfo, HelmChartNamespaces,
};
use cluster_engine::errors::CommandError;

fn daemonset(k8s_app: Option<&str>) -> DaemonSetSnapshot {
    DaemonSetSnapshot {
        spec: Some(DaemonSetSpecInfo { k8s_app: k8s_app.map(|s| s.to_string()) }),
    }
}

#[test]
fn chart_values_are_rendered_in_full() {
    let chart = AwsVpcCniChart::new(
        "1.1.21".to_string(),
        "eu-west-3".to_string(),
        true,
        "my-cluster".to_string(),
    );
    let info = chart.get_chart_info();
    assert_eq!(info.name, "aws-vpc-cni");
    assert_eq!(info.namespace, HelmChartNamespaces::KubeSystem);
    let pairs: Vec<(&str, &str)> = info
        .values
        .iter()
        .map(|v| (v.key.as_str(), v.value.as_str()))
        .collect();
    assert_eq!(
        pairs,
        vec![
            ("image.region", "eu-west-3"),
            ("init.image.region", "eu-west-3"),
            ("image.pullPolicy", "IfNotPresent"),
            ("crd.create", "false"),
            ("originalMatchLabels", "true"),
            ("env.CLUSTER_NAME", "my-cluster"),
            ("env.MINIMUM_IP_TARGET", "60"),
            ("env.WARM_IP_TARGET", "10"),
            ("env.MAX_ENI", "100"),
            ("resources.requests.cpu", "50m"),
        ]
    );
}

#[test]
fn cni_handover_needs_an_empty_item_list() {
    let chart = AwsVpcCniChart::new(
        "1.1.21".to_string(),
        "eu-west-3".to_string(),
        false,
        "c".to_string(),
    );
    // an empty list: nothing manages the CNI yet, hand it to the chart
    assert!(chart.enable_cni_managed_by_helm(&Ok(DaemonSetList { items: Some(vec![]) })));
    // something already runs under the chart manager's labels
    assert!(!chart.enable_cni_managed_by_helm(
        &Ok(DaemonSetList { items: Some(vec![daemonset(Some("aws-node"))]) })
    ));
    // the listing answered without an item list
    assert!(!chart.enable_cni_managed_by_helm(&Ok(DaemonSetList { items: None })));
    // the listing failed: leave the CNI untouched
    assert!(!chart.enable_cni_managed_by_helm(&Err(CommandError::new_from_safe_message(
        "boom".to_string()
    ))));
}

#[test]
fn old_cni_is_detected_by_its_selector() {
    assert_eq!(
        is_cni_old_version_installed(&Ok(daemonset(Some("aws-node")))).unwrap(),
        true
    );
    assert_eq!(
        is_cni_old_version_installed(&Ok(daemonset(Some("other")))).unwrap(),
        false
    );
    assert_eq!(is_cni_old_version_installed(&Ok(daemonset(None))).unwrap(), false);
    assert!(is_cni_old_version_installed(&Ok(DaemonSetSnapshot { spec: None })).is_err());
    assert!(is_cni_old_version_installed(&Err(CommandError::new_from_safe_message(
        "boom".to_string()
    )))
    .is_err());
}

#[test]
fn installation_check_needs_a_running_daemonset() {
    let checker = AwsVpcCniChartInstallationChecker::new("1.1.21".to_string());
    assert!(checker.verify_installation(&Ok(vec![daemonset(Some("aws-node"))])).is_ok());
    let err = checker.verify_installation(&Ok(vec![])).unwrap_err();
    assert_eq!(
        err.message_safe(),
        "Error: aws-vpc-cni version 1.1.21 is not installed"
    );
    assert!(checker
        .verify_installation(&Err(CommandError::new_from_safe_message("boom".to_string())))
        .is_err());
}
