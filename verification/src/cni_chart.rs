//! The AWS VPC CNI chart: its rendered values and the checks around its
//! installation.
//!
//! The chart installer and the orchestrator client are collaborators; the
//! library builds the chart's value set and decides, from the snapshots
//! the caller fetched, whether the CNI is handled by the chart manager and
//! whether an old CNI installation is still present.

use crate::errors::str_eq;
use crate::errors::CommandError;
use vstd::prelude::*;

verus! {

/// One `key=value` setting handed to the chart installer.
pub struct ChartSetValue {
    pub key: String,
    pub value: String,
}

/// The namespace a chart installs into.
#[derive(Clone, Copy, Debug, PartialEq, Eq, Structural)]
pub enum HelmChartNamespaces {
    KubeSystem,
}

/// What the chart installer needs to know of a chart.
pub struct ChartInfo {
    pub name: String,
    pub namespace: HelmChartNamespaces,
    pub values: Vec<ChartSetValue>,
}

/// The spelling of a boolean chart value.
pub open spec fn bool_value(b: bool) -> Seq<char> {
    if b {
        "true"@
    } else {
        "false"@
    }
}

/// One chart value holds a given key and value.
pub open spec fn value_is(v: ChartSetValue, key: Seq<char>, value: Seq<char>) -> bool {
    v.key@ == key && v.value@ == value
}

/// A daemon set's selector information, as far as the CNI checks read it.
pub struct DaemonSetSpecInfo {
    pub k8s_app: Option<String>,
}

/// A daemon set snapshot fetched by the caller.
pub struct DaemonSetSnapshot {
    pub spec: Option<DaemonSetSpecInfo>,
}

/// A daemon set listing; the item list itself may be absent from the
/// response.
pub struct DaemonSetList {
    pub items: Option<Vec<DaemonSetSnapshot>>,
}

/// Checks that the CNI chart of one version is installed.
pub struct AwsVpcCniChartInstallationChecker {
    aws_vpc_cni_chart_version: String,
}

impl AwsVpcCniChartInstallationChecker {
    /// The chart version this checker looks for.
    pub closed spec fn spec_version(&self) -> Seq<char> {
        self.aws_vpc_cni_chart_version@
    }

    /// A checker for one chart version.
    pub fn new(aws_vpc_cni_chart_version: String) -> (r: Self)
        ensures
            r.spec_version() == aws_vpc_cni_chart_version@,
    {
        AwsVpcCniChartInstallationChecker { aws_vpc_cni_chart_version }
    }

    /// Decides from the fetched daemon sets — those carrying this chart
    /// version's label — whether the installation went through: at least
    /// one must be running.
    pub fn verify_installation(&self, cni_daemonsets: &Result<Vec<DaemonSetSnapshot>, CommandError>)
        -> (r: Result<(), CommandError>)
        ensures
            r is Ok <==> (cni_daemonsets matches Ok(v) && v@.len() > 0),
    {
        match cni_daemonsets {
            Ok(daemonsets) => {
                if daemonsets.len() == 0 {
                    let mut message = String::from_str("Error: ");
                    message.append(AwsVpcCniChart::chart_name().as_str());
                    message.append(" version ");
                    message.append(self.aws_vpc_cni_chart_version.as_str());
                    message.append(" is not installed");
                    Err(CommandError::new_from_safe_message(message))
                } else {
                    Ok(())
                }
            },
            Err(e) => {
                let mut message = String::from_str("Error trying to get daemonset ");
                message.append(AwsVpcCniChart::chart_name().as_str());
                message.append(" version ");
                message.append(self.aws_vpc_cni_chart_version.as_str());
                message.append(": ");
                message.append(e.message_safe().as_str());
                Err(CommandError::new_from_safe_message(message))
            },
        }
    }
}

/// The AWS VPC CNI chart, with the value set its installation renders.
pub struct AwsVpcCniChart {
    pub chart_info: ChartInfo,
    pub chart_installation_checker: AwsVpcCniChartInstallationChecker,
}

impl AwsVpcCniChart {
    /// The chart's name.
    pub fn chart_name() -> (r: String)
        ensures
            r@ == "aws-vpc-cni"@,
    {
        String::from_str("aws-vpc-cni")
    }

    /// Builds the chart: its fixed install values, the image region, the
    /// cluster name label for the network interfaces, and whether the
    /// original match labels must be kept.
    pub fn new(
        version: String,
        chart_image_region: String,
        chart_should_support_original_match_labels: bool,
        cluster_name: String,
    ) -> (r: AwsVpcCniChart)
        ensures
            r.chart_info.name@ == "aws-vpc-cni"@,
            r.chart_info.namespace is KubeSystem,
            r.chart_info.values@.len() == 10,
            value_is(r.chart_info.values@[0], "image.region"@, chart_image_region@),
            value_is(r.chart_info.values@[1], "init.image.region"@, chart_image_region@),
            value_is(r.chart_info.values@[2], "image.pullPolicy"@, "IfNotPresent"@),
            value_is(r.chart_info.values@[3], "crd.create"@, "false"@),
            value_is(
                r.chart_info.values@[4],
                "originalMatchLabels"@,
                bool_value(chart_should_support_original_match_labels),
            ),
            value_is(r.chart_info.values@[5], "env.CLUSTER_NAME"@, cluster_name@),
            value_is(r.chart_info.values@[6], "env.MINIMUM_IP_TARGET"@, "60"@),
            value_is(r.chart_info.values@[7], "env.WARM_IP_TARGET"@, "10"@),
            value_is(r.chart_info.values@[8], "env.MAX_ENI"@, "100"@),
            value_is(r.chart_info.values@[9], "resources.requests.cpu"@, "50m"@),
            r.chart_installation_checker.spec_version() == version@,
    {
        let mut values: Vec<ChartSetValue> = Vec::new();
        values.push(
            ChartSetValue {
                key: String::from_str("image.region"),
                value: chart_image_region.clone(),
            },
        );
        values.push(
            ChartSetValue { key: String::from_str("init.image.region"), value: chart_image_region },
        );
        values.push(
            ChartSetValue {
                key: String::from_str("image.pullPolicy"),
                value: String::from_str("IfNotPresent"),
            },
        );
        values.push(
            ChartSetValue { key: String::from_str("crd.create"), value: String::from_str("false") },
        );
        // required to know whether old annotation and label values are kept
        values.push(
            ChartSetValue {
                key: String::from_str("originalMatchLabels"),
                value: if chart_should_support_original_match_labels {
                    String::from_str("true")
                } else {
                    String::from_str("false")
                },
            },
        );
        // label the network interfaces with the cluster's name
        values.push(
            ChartSetValue { key: String::from_str("env.CLUSTER_NAME"), value: cluster_name },
        );
        // IP addresses the daemon allocates for pod assignment on the node
        // at the init phase
        values.push(
            ChartSetValue {
                key: String::from_str("env.MINIMUM_IP_TARGET"),
                value: String::from_str("60"),
            },
        );
        // free IP addresses the daemon keeps available for pod assignment
        values.push(
            ChartSetValue {
                key: String::from_str("env.WARM_IP_TARGET"),
                value: String::from_str("10"),
            },
        );
        // network interfaces attached to one node at most
        values.push(
            ChartSetValue { key: String::from_str("env.MAX_ENI"), value: String::from_str("100") },
        );
        values.push(
            ChartSetValue {
                key: String::from_str("resources.requests.cpu"),
                value: String::from_str("50m"),
            },
        );
        AwsVpcCniChart {
            chart_info: ChartInfo {
                name: AwsVpcCniChart::chart_name(),
                namespace: HelmChartNamespaces::KubeSystem,
                values,
            },
            chart_installation_checker: AwsVpcCniChartInstallationChecker::new(version),
        }
    }

    /// The chart's installer-facing description.
    pub fn get_chart_info(&self) -> (r: &ChartInfo)
        ensures
            r == &self.chart_info,
    {
        &self.chart_info
    }

    /// Decides from a fetched daemon set listing — filtered by the chart
    /// manager's labels — whether the CNI must be handed over to the
    /// chart: only when the listing answered and holds an item list that
    /// is empty. A failed listing leaves the CNI untouched.
    pub fn enable_cni_managed_by_helm(&self, daemonsets: &Result<DaemonSetList, CommandError>)
        -> (r: bool)
        ensures
            r <==> (daemonsets matches Ok(l) && l.items matches Some(v) && v@.len() == 0),
    {
        match daemonsets {
            Ok(listing) => match &listing.items {
                Some(items) => items.len() == 0,
                None => false,
            },
            Err(_) => false,
        }
    }
}

/// Decides from a fetched `aws-node` daemon set whether an old CNI
/// installation — one still selected by the bare `k8s-app` label — is
/// present. A daemon set that answered without selector information is an
/// error; a failed fetch is passed on as one.
pub fn is_cni_old_version_installed(daemonset: &Result<DaemonSetSnapshot, CommandError>) -> (r:
    Result<bool, CommandError>)
    ensures
        daemonset matches Ok(ds) ==> match ds.spec {
            Some(sp) => r == Ok::<bool, CommandError>(
                sp.k8s_app matches Some(a) && a@ == "aws-node"@,
            ),
            None => r is Err,
        },
        daemonset is Err ==> r is Err,
{
    match daemonset {
        Ok(ds) => match &ds.spec {
            Some(sp) => match &sp.k8s_app {
                Some(app) => Ok(str_eq(app.as_str(), "aws-node")),
                None => Ok(false),
            },
            None => Err(
                CommandError::new_from_safe_message(
                    String::from_str(
                        "Spec was not found in json output while looking at the daemonset",
                    ),
                ),
            ),
        },
        Err(e) => {
            let mut message = String::from_str("Error while getting daemonset info: ");
            message.append(e.message_safe().as_str());
            Err(CommandError::new_from_safe_message(message))
        },
    }
}

} // verus!
