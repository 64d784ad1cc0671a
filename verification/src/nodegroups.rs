//! Node-pool failure recovery.
//!
//! Selects, from a described node-pool snapshot, the subset of pools stuck
//! in a failed provisioning state that is safe to delete, while refusing to
//! ever leave the cluster without a single node pool.

use vstd::prelude::*;

verus! {

broadcast use
    vstd::seq_lib::group_seq_properties,
    Seq::lemma_filter_push,
    Seq::lemma_filter_pred;

/// Provisioning status of a described node pool, as the cloud provider
/// reports it.
#[derive(Clone, Copy, Debug, PartialEq, Eq, Structural)]
pub enum NodegroupStatus {
    Creating,
    Active,
    Updating,
    Deleting,
    CreateFailed,
    DeleteFailed,
    Degraded,
}

/// One health issue attached to a node pool by the cloud provider.
#[derive(Clone, Debug, PartialEq, Eq)]
pub struct NodegroupHealthIssue {
    pub code: String,
    pub message: Option<String>,
}

/// A described node pool: its name, status and health issues, each of which
/// the provider may omit.
#[derive(Clone, Debug, PartialEq, Eq)]
pub struct Nodegroup {
    pub nodegroup_name: Option<String>,
    pub status: Option<NodegroupStatus>,
    pub health_issues: Option<Vec<NodegroupHealthIssue>>,
}

/// A node-pool description as returned by the cloud provider; the pool
/// information itself may be missing.
#[derive(Clone, Debug, PartialEq, Eq)]
pub struct DescribeNodegroupOutput {
    pub nodegroup: Option<Nodegroup>,
}

/// Mathematical image of a health issue.
pub ghost struct NodegroupHealthIssueView {
    pub code: Seq<char>,
    pub message: Option<Seq<char>>,
}

/// Mathematical image of a described node pool.
pub ghost struct NodegroupView {
    pub nodegroup_name: Option<Seq<char>>,
    pub status: Option<NodegroupStatus>,
    pub health_issues: Option<Seq<NodegroupHealthIssueView>>,
}

/// Mathematical image of a node-pool description.
pub ghost struct DescribeNodegroupOutputView {
    pub nodegroup: Option<NodegroupView>,
}

/// The views of a sequence of health issues.
pub open spec fn issue_views(s: Seq<NodegroupHealthIssue>) -> Seq<NodegroupHealthIssueView> {
    s.map_values(|i: NodegroupHealthIssue| i@)
}

impl View for NodegroupHealthIssue {
    type V = NodegroupHealthIssueView;

    open spec fn view(&self) -> NodegroupHealthIssueView {
        NodegroupHealthIssueView { code: self.code@, message: self.message.deep_view() }
    }
}

impl View for Nodegroup {
    type V = NodegroupView;

    open spec fn view(&self) -> NodegroupView {
        NodegroupView {
            nodegroup_name: self.nodegroup_name.deep_view(),
            status: self.status,
            health_issues: match self.health_issues {
                Some(issues) => Some(issue_views(issues@)),
                None => None,
            },
        }
    }
}

impl View for DescribeNodegroupOutput {
    type V = DescribeNodegroupOutputView;

    open spec fn view(&self) -> DescribeNodegroupOutputView {
        DescribeNodegroupOutputView {
            nodegroup: match self.nodegroup {
                Some(ng) => Some(ng@),
                None => None,
            },
        }
    }
}

/// Why no node pool can be removed.
#[derive(Clone, Copy, Debug, PartialEq, Eq, Structural)]
pub enum NodeGroupToRemoveFailure {
    ClusterNotFound,
    NodeGroupNotFound,
    OneNodeGroupMustBeActiveAtLeast,
}

impl NodeGroupToRemoveFailure {
    /// A short diagnostic for this failure.
    pub fn message(&self) -> (r: &'static str)
        ensures
            *self is ClusterNotFound ==> r@ == "No cluster found"@,
            *self is NodeGroupNotFound ==> r@ == "No nodegroup found for this cluster"@,
            *self is OneNodeGroupMustBeActiveAtLeast ==> r@
                == "At lease one nodegroup must be active, no one can be deleted"@,
    {
        match self {
            NodeGroupToRemoveFailure::ClusterNotFound => "No cluster found",
            NodeGroupToRemoveFailure::NodeGroupNotFound => "No nodegroup found for this cluster",
            NodeGroupToRemoveFailure::OneNodeGroupMustBeActiveAtLeast => "At lease one nodegroup must be active, no one can be deleted",
        }
    }
}

/// Which node pools a deletion request targets.
#[derive(Clone, Copy, Debug, PartialEq, Eq, Structural)]
pub enum NodeGroupsDeletionType {
    All,
    FailedOnly,
}

/// A pool is failed exactly when the provider reports it stuck in a failed
/// provisioning state.
pub open spec fn is_failed_status(status: NodegroupStatus) -> bool {
    ||| status is CreateFailed
    ||| status is DeleteFailed
    ||| status is Degraded
}

/// A described pool belongs to the removable subset when its status is
/// reported and failed; a pool with no reported status is left untouched.
pub open spec fn is_failed_pool(o: DescribeNodegroupOutputView) -> bool {
    match o.nodegroup {
        Some(ng) => match ng.status {
            Some(s) => is_failed_status(s),
            None => false,
        },
        None => false,
    }
}

/// The failed-pool predicate as a first-class function, so every contract
/// filters by one and the same function value.
pub open spec fn failed_pool_pred() -> spec_fn(DescribeNodegroupOutputView) -> bool {
    |o: DescribeNodegroupOutputView| is_failed_pool(o)
}

/// The delete-name mapping as a first-class function.
pub open spec fn delete_name_fn() -> spec_fn(DescribeNodegroupOutputView) -> Seq<char> {
    |o: DescribeNodegroupOutputView| pool_delete_name(o)
}

/// Some description in the snapshot carries no pool information at all.
pub open spec fn has_missing_nodegroup_info(s: Seq<DescribeNodegroupOutputView>) -> bool {
    exists|i: int| 0 <= i < s.len() && s[i].nodegroup is None
}

/// The view of a described-pool sequence.
pub open spec fn pools_view(pools: Seq<DescribeNodegroupOutput>) -> Seq<
    DescribeNodegroupOutputView,
> {
    pools.map_values(|o: DescribeNodegroupOutput| o@)
}

impl NodegroupHealthIssue {
    /// Rebuilds this issue value.
    fn duplicate(&self) -> (r: Self)
        ensures
            r@ == self@,
    {
        NodegroupHealthIssue { code: self.code.clone(), message: self.message.clone() }
    }
}

impl Nodegroup {
    /// Rebuilds this described pool value.
    fn duplicate(&self) -> (r: Self)
        ensures
            r@ == self@,
    {
        let health_issues: Option<Vec<NodegroupHealthIssue>> = match &self.health_issues {
            Some(issues) => {
                let mut out: Vec<NodegroupHealthIssue> = Vec::new();
                let mut i: usize = 0;
                while i < issues.len()
                    invariant
                        0 <= i <= issues.len(),
                        out@.len() == i,
                        forall|j: int| 0 <= j < i ==> out@[j]@ == #[trigger] issues@[j]@,
                    decreases issues.len() - i,
                {
                    out.push(issues[i].duplicate());
                    i += 1;
                }
                proof {
                    assert(issue_views(out@) =~= issue_views(issues@));
                }
                Some(out)
            },
            None => None,
        };
        Nodegroup { nodegroup_name: self.nodegroup_name.clone(), status: self.status, health_issues }
    }
}

impl DescribeNodegroupOutput {
    /// Rebuilds this description value.
    fn duplicate(&self) -> (r: Self)
        ensures
            r@ == self@,
    {
        DescribeNodegroupOutput {
            nodegroup: match &self.nodegroup {
                Some(ng) => Some(ng.duplicate()),
                None => None,
            },
        }
    }
}

/// Selects the node pools that are safe to delete.
///
/// Classifies each pool as failed exactly when its reported status is
/// `CreateFailed`, `DeleteFailed` or `Degraded`, and returns the failed
/// subset in input order. A description with no pool information is
/// rejected as `NodeGroupNotFound`. If every pool of a non-empty snapshot
/// is failed, the whole selection is refused with
/// `OneNodeGroupMustBeActiveAtLeast`: deleting all pools would cause a
/// total outage requiring manual recovery.
pub fn check_failed_nodegroups_to_remove(nodegroups: &Vec<DescribeNodegroupOutput>) -> (r: Result<
    Vec<DescribeNodegroupOutput>,
    NodeGroupToRemoveFailure,
>)
    ensures
        r == Err::<Vec<DescribeNodegroupOutput>, _>(
            NodeGroupToRemoveFailure::NodeGroupNotFound,
        ) <==> has_missing_nodegroup_info(pools_view(nodegroups@)),
        r == Err::<Vec<DescribeNodegroupOutput>, _>(
            NodeGroupToRemoveFailure::OneNodeGroupMustBeActiveAtLeast,
        ) <==> {
            &&& !has_missing_nodegroup_info(pools_view(nodegroups@))
            &&& nodegroups@.len() > 0
            &&& pools_view(nodegroups@).filter(failed_pool_pred()).len() == nodegroups@.len()
        },
        r matches Ok(v) ==> pools_view(v@) == pools_view(nodegroups@).filter(failed_pool_pred()),
        r is Err ==> (r == Err::<Vec<DescribeNodegroupOutput>, _>(
            NodeGroupToRemoveFailure::NodeGroupNotFound,
        ) || r == Err::<Vec<DescribeNodegroupOutput>, _>(
            NodeGroupToRemoveFailure::OneNodeGroupMustBeActiveAtLeast,
        )),
{
    let ghost s = pools_view(nodegroups@);
    let mut failed_nodegroups_to_remove: Vec<DescribeNodegroupOutput> = Vec::new();
    let mut i: usize = 0;
    while i < nodegroups.len()
        invariant
            0 <= i <= nodegroups.len(),
            s == pools_view(nodegroups@),
            s.len() == nodegroups@.len(),
            forall|j: int| 0 <= j < i ==> #[trigger] s[j].nodegroup is Some,
            pools_view(failed_nodegroups_to_remove@) == s.take(i as int).filter(
                failed_pool_pred(),
            ),
        decreases nodegroups.len() - i,
    {
        proof {
            assert(s[i as int] == nodegroups@[i as int]@);
            assert(s.take(i + 1) =~= s.take(i as int).push(s[i as int]));
        }
        match &nodegroups[i].nodegroup {
            Some(ng) => {
                let push_it: bool = match &ng.status {
                    Some(status) => match status {
                        NodegroupStatus::CreateFailed => true,
                        NodegroupStatus::DeleteFailed => true,
                        NodegroupStatus::Degraded => true,
                        _ => false,
                    },
                    None => false,
                };
                if push_it {
                    let ghost prev = failed_nodegroups_to_remove@;
                    let dup = nodegroups[i].duplicate();
                    failed_nodegroups_to_remove.push(dup);
                    proof {
                        assert(is_failed_pool(s[i as int]));
                        assert(pools_view(failed_nodegroups_to_remove@) =~= pools_view(
                            prev,
                        ).push(s[i as int]));
                    }
                } else {
                    proof {
                        assert(!is_failed_pool(s[i as int]));
                    }
                }
            },
            None => {
                proof {
                    assert(s[i as int].nodegroup is None);
                }
                return Err(NodeGroupToRemoveFailure::NodeGroupNotFound);
            },
        }
        i += 1;
    }
    proof {
        assert(s.take(s.len() as int) =~= s);
    }
    // never remove every pool, even a failed one, to avoid a blackout
    if failed_nodegroups_to_remove.len() == nodegroups.len() && nodegroups.len() > 0 {
        return Err(NodeGroupToRemoveFailure::OneNodeGroupMustBeActiveAtLeast);
    }
    Ok(failed_nodegroups_to_remove)
}

/// Why a planned node-pool deletion cannot go ahead.
#[derive(Clone, Copy, Debug, PartialEq, Eq, Structural)]
pub enum NodegroupDeletionPlanError {
    ClusterNotFound,
    NodeGroupNotFound,
    OneNodeGroupMustBeActiveAtLeast,
    MissingNodegroupInformation,
}

/// The pools a deletion request targets: on a first install, or when asked
/// for all pools, the entire snapshot; otherwise only the failed subset.
pub open spec fn deletion_candidates(
    s: Seq<DescribeNodegroupOutputView>,
    is_first_install: bool,
    selection: NodeGroupsDeletionType,
) -> Seq<DescribeNodegroupOutputView> {
    if is_first_install || selection is All {
        s
    } else {
        s.filter(failed_pool_pred())
    }
}

/// The name under which a candidate pool is deleted; a pool that carries no
/// name gets a fixed placeholder.
pub open spec fn pool_delete_name(o: DescribeNodegroupOutputView) -> Seq<char> {
    match o.nodegroup {
        Some(ng) => match ng.nodegroup_name {
            Some(n) => n,
            None => "unknown_nodegroup_name"@,
        },
        None => Seq::<char>::empty(),
    }
}

/// The whole deletion plan, as a mathematical function of the inputs.
pub open spec fn deletion_plan_spec(
    clusters: Seq<Seq<char>>,
    cluster_name: Seq<char>,
    s: Seq<DescribeNodegroupOutputView>,
    is_first_install: bool,
    selection: NodeGroupsDeletionType,
) -> Result<Seq<Seq<char>>, NodegroupDeletionPlanError> {
    if !clusters.contains(cluster_name) {
        Err(NodegroupDeletionPlanError::ClusterNotFound)
    } else if !(is_first_install || selection is All) && has_missing_nodegroup_info(s) {
        Err(NodegroupDeletionPlanError::NodeGroupNotFound)
    } else if !(is_first_install || selection is All) && s.len() > 0 && s.filter(
        failed_pool_pred(),
    ).len() == s.len() {
        Err(NodegroupDeletionPlanError::OneNodeGroupMustBeActiveAtLeast)
    } else {
        let cands = deletion_candidates(s, is_first_install, selection);
        if exists|i: int| 0 <= i < cands.len() && cands[i].nodegroup is None {
            Err(NodegroupDeletionPlanError::MissingNodegroupInformation)
        } else {
            Ok(cands.map_values(|o: DescribeNodegroupOutputView| pool_delete_name(o)))
        }
    }
}

/// Tells whether a cluster name appears in a listing.
fn contains_cluster(clusters: &Vec<String>, cluster_name: &String) -> (r: bool)
    ensures
        r == clusters.deep_view().contains(cluster_name@),
{
    let ghost cs = clusters.deep_view();
    proof {
        assert(cs.len() == clusters@.len());
        assert(forall|j: int| 0 <= j < cs.len() ==> #[trigger] cs[j] == clusters@[j]@);
    }
    let mut i: usize = 0;
    while i < clusters.len()
        invariant
            0 <= i <= clusters.len(),
            cs == clusters.deep_view(),
            cs.len() == clusters@.len(),
            forall|j: int| 0 <= j < cs.len() ==> #[trigger] cs[j] == clusters@[j]@,
            forall|j: int| 0 <= j < i ==> #[trigger] cs[j] != cluster_name@,
        decreases clusters.len() - i,
    {
        if clusters[i].eq(cluster_name) {
            proof {
                assert(cs[i as int] == cluster_name@);
                assert(cs.contains(cluster_name@));
            }
            return true;
        }
        i += 1;
    }
    proof {
        if cs.contains(cluster_name@) {
            let j = choose|j: int| 0 <= j < cs.len() && cs[j] == cluster_name@;
            assert(cs[j] != cluster_name@);
        }
    }
    false
}

/// Extracts the deletion names of a candidate list, refusing a candidate
/// with no pool information.
fn candidate_names(candidates: &Vec<DescribeNodegroupOutput>) -> (r: Result<
    Vec<String>,
    NodegroupDeletionPlanError,
>)
    ensures
        ({
            let cands = pools_view(candidates@);
            if exists|i: int| 0 <= i < cands.len() && cands[i].nodegroup is None {
                r is Err && r == Err::<Vec<String>, _>(
                    NodegroupDeletionPlanError::MissingNodegroupInformation,
                )
            } else {
                r matches Ok(names) && names.deep_view() == cands.map_values(delete_name_fn())
            }
        }),
{
    let ghost cands = pools_view(candidates@);
    let mut names: Vec<String> = Vec::new();
    let mut i: usize = 0;
    while i < candidates.len()
        invariant
            0 <= i <= candidates.len(),
            cands == pools_view(candidates@),
            cands.len() == candidates@.len(),
            names@.len() == i,
            forall|j: int| 0 <= j < i ==> #[trigger] cands[j].nodegroup is Some,
            forall|j: int| 0 <= j < i ==> #[trigger] names@[j]@ == pool_delete_name(cands[j]),
        decreases candidates.len() - i,
    {
        proof {
            assert(cands[i as int] == candidates@[i as int]@);
        }
        let name: String = match &candidates[i].nodegroup {
            Some(ng) => match &ng.nodegroup_name {
                Some(n) => n.clone(),
                None => String::from_str("unknown_nodegroup_name"),
            },
            None => {
                proof {
                    assert(cands[i as int].nodegroup is None);
                }
                return Err(NodegroupDeletionPlanError::MissingNodegroupInformation);
            },
        };
        proof {
            assert(name@ == pool_delete_name(cands[i as int]));
        }
        names.push(name);
        i += 1;
    }
    proof {
        if exists|j: int| 0 <= j < cands.len() && cands[j].nodegroup is None {
            let j = choose|j: int| 0 <= j < cands.len() && cands[j].nodegroup is None;
            assert(cands[j].nodegroup is Some);
        }
        assert(names.deep_view() =~= cands.map_values(delete_name_fn()));
    }
    Ok(names)
}

/// Plans which node pools to delete, by name and in snapshot order.
///
/// The cluster must appear in the listing; otherwise nothing is planned and
/// the request fails with `ClusterNotFound`. On a first install, or when
/// all pools are requested, every pool is deleted without a health check (a
/// first install has no workloads to protect). Otherwise only the failed
/// subset of `check_failed_nodegroups_to_remove` is deleted, under the same
/// quorum rule. A candidate with no pool information stops the plan with
/// `MissingNodegroupInformation`.
pub fn plan_nodegroups_deletion(
    clusters: &Vec<String>,
    cluster_name: &String,
    described: &Vec<DescribeNodegroupOutput>,
    is_first_install: bool,
    nodegroup_delete_selection: NodeGroupsDeletionType,
) -> (r: Result<Vec<String>, NodegroupDeletionPlanError>)
    ensures
        (match r {
            Ok(names) => Ok(names.deep_view()),
            Err(e) => Err(e),
        }) == deletion_plan_spec(
            clusters.deep_view(),
            cluster_name@,
            pools_view(described@),
            is_first_install,
            nodegroup_delete_selection,
        ),
{
    let ghost s = pools_view(described@);
    if !contains_cluster(clusters, cluster_name) {
        return Err(NodegroupDeletionPlanError::ClusterNotFound);
    }
    if is_first_install || matches!(nodegroup_delete_selection, NodeGroupsDeletionType::All) {
        candidate_names(described)
    } else {
        match check_failed_nodegroups_to_remove(described) {
            Ok(failed) => {
                proof {
                    assert(pools_view(failed@) == s.filter(failed_pool_pred()));
                }
                let r = candidate_names(&failed);
                proof {
                    if exists|i: int|
                        0 <= i < pools_view(failed@).len() && pools_view(
                            failed@,
                        )[i].nodegroup is None {
                        let i = choose|i: int|
                            0 <= i < pools_view(failed@).len() && pools_view(
                                failed@,
                            )[i].nodegroup is None;
                        assert(is_failed_pool(pools_view(failed@)[i]));
                    }
                }
                r
            },
            Err(e) => match e {
                NodeGroupToRemoveFailure::NodeGroupNotFound => Err(
                    NodegroupDeletionPlanError::NodeGroupNotFound,
                ),
                NodeGroupToRemoveFailure::OneNodeGroupMustBeActiveAtLeast => Err(
                    NodegroupDeletionPlanError::OneNodeGroupMustBeActiveAtLeast,
                ),
                NodeGroupToRemoveFailure::ClusterNotFound => Err(
                    NodegroupDeletionPlanError::ClusterNotFound,
                ),
            },
        }
    }
}

/// Per-pool health detail attached to a refused deletion, so the caller can
/// surface actionable diagnostics.
pub struct NodegroupHealthDetail {
    pub nodegroup_name: Option<String>,
    pub health_issues: Option<Vec<NodegroupHealthIssue>>,
}

/// Mathematical image of a health detail.
pub ghost struct NodegroupHealthDetailView {
    pub nodegroup_name: Option<Seq<char>>,
    pub health_issues: Option<Seq<NodegroupHealthIssueView>>,
}

impl View for NodegroupHealthDetail {
    type V = NodegroupHealthDetailView;

    open spec fn view(&self) -> NodegroupHealthDetailView {
        NodegroupHealthDetailView {
            nodegroup_name: self.nodegroup_name.deep_view(),
            health_issues: match self.health_issues {
                Some(issues) => Some(issue_views(issues@)),
                None => None,
            },
        }
    }
}

/// The detail-view mapping as a first-class function.
pub open spec fn detail_view_fn() -> spec_fn(NodegroupHealthDetail) -> NodegroupHealthDetailView {
    |d: NodegroupHealthDetail| d@
}

/// The health detail a described pool yields: the pool's name (or the fixed
/// placeholder) and its issues as reported; nothing for a description with
/// no pool information.
pub open spec fn health_detail_spec(o: DescribeNodegroupOutputView) -> NodegroupHealthDetailView {
    match o.nodegroup {
        Some(ng) => NodegroupHealthDetailView {
            nodegroup_name: Some(pool_delete_name(o)),
            health_issues: ng.health_issues,
        },
        None => NodegroupHealthDetailView { nodegroup_name: None, health_issues: None },
    }
}

/// The health-detail mapping as a first-class function.
pub open spec fn health_detail_fn() -> spec_fn(DescribeNodegroupOutputView) -> NodegroupHealthDetailView {
    |o: DescribeNodegroupOutputView| health_detail_spec(o)
}

/// Collects, for every described pool, the name and health issues that a
/// refused deletion reports to the caller.
pub fn nodegroups_health_details(pools: &Vec<DescribeNodegroupOutput>) -> (r: Vec<
    NodegroupHealthDetail,
>)
    ensures
        r@.map_values(detail_view_fn()) == pools_view(pools@).map_values(health_detail_fn()),
{
    let ghost s = pools_view(pools@);
    let mut details: Vec<NodegroupHealthDetail> = Vec::new();
    let mut i: usize = 0;
    while i < pools.len()
        invariant
            0 <= i <= pools.len(),
            s == pools_view(pools@),
            s.len() == pools@.len(),
            details@.len() == i,
            forall|j: int| 0 <= j < i ==> #[trigger] details@[j]@ == health_detail_spec(s[j]),
        decreases pools.len() - i,
    {
        proof {
            assert(s[i as int] == pools@[i as int]@);
        }
        let detail: NodegroupHealthDetail = match &pools[i].nodegroup {
            Some(ng) => {
                let dup = ng.duplicate();
                NodegroupHealthDetail {
                    nodegroup_name: match dup.nodegroup_name {
                        Some(n) => Some(n),
                        None => Some(String::from_str("unknown_nodegroup_name")),
                    },
                    health_issues: dup.health_issues,
                }
            },
            None => NodegroupHealthDetail { nodegroup_name: None, health_issues: None },
        };
        proof {
            assert(detail@ == health_detail_spec(s[i as int]));
        }
        details.push(detail);
        i += 1;
    }
    proof {
        assert(details@.map_values(detail_view_fn()) =~= s.map_values(health_detail_fn()));
    }
    details
}

} // verus!
