//! Node-pool desired-state reconciliation.
//!
//! For every lifecycle action this module computes how many nodes a pool
//! should run and whether the change must be force-applied, clamped to the
//! pool's `[min_nodes, max_nodes]` range.

use vstd::prelude::*;

verus! {

/// CPU architecture of a node pool's instances.
#[derive(Clone, Copy, Debug, PartialEq, Eq, Structural)]
pub enum CpuArchitecture {
    AMD64,
    ARM64,
}

/// Lifecycle action applied to a cluster. The payload of `Update`, `Upgrade`
/// and `Resume` is the last node count observed from the autoscaler, when
/// known.
#[derive(Clone, Copy, Debug, PartialEq, Eq, Structural)]
pub enum KubernetesClusterAction {
    Bootstrap,
    Update(Option<i32>),
    Upgrade(Option<i32>),
    Pause,
    Delete,
    Resume(Option<i32>),
}

/// A node pool as requested by the caller: a named, homogeneous group of
/// worker machines with a size range and an instance type.
#[derive(Clone, Debug, PartialEq, Eq)]
pub struct NodeGroups {
    pub name: String,
    pub id: Option<String>,
    pub min_nodes: i32,
    pub max_nodes: i32,
    pub instance_type: String,
    pub disk_size_in_gib: i32,
    pub desired_nodes: Option<i32>,
    pub instance_architecture: CpuArchitecture,
}

/// A node pool together with the desired size computed for one lifecycle
/// action, consumed by the provisioning-context renderer.
#[derive(Clone, Debug, PartialEq, Eq)]
pub struct NodeGroupsWithDesiredState {
    pub name: String,
    pub id: Option<String>,
    pub min_nodes: i32,
    pub max_nodes: i32,
    pub desired_size: i32,
    pub enable_desired_size: bool,
    pub instance_type: String,
    pub disk_size_in_gib: i32,
    pub instance_architecture: CpuArchitecture,
}

impl NodeGroups {
    /// Builds a node pool, rejecting a range whose minimum exceeds its
    /// maximum.
    pub fn new(
        name: String,
        min_nodes: i32,
        max_nodes: i32,
        instance_type: String,
        disk_size_in_gib: i32,
        instance_architecture: CpuArchitecture,
    ) -> (r: Result<NodeGroups, crate::errors::CommandError>)
        ensures
            min_nodes <= max_nodes <==> r is Ok,
            r matches Ok(ng) ==> {
                &&& ng.name@ == name@
                &&& ng.id is None
                &&& ng.min_nodes == min_nodes
                &&& ng.max_nodes == max_nodes
                &&& ng.instance_type@ == instance_type@
                &&& ng.disk_size_in_gib == disk_size_in_gib
                &&& ng.desired_nodes is None
                &&& ng.instance_architecture == instance_architecture
            },
    {
        if min_nodes > max_nodes {
            return Err(crate::errors::CommandError::new_from_safe_message(
                "min_nodes cannot be higher than max_nodes".to_string(),
            ));
        }
        Ok(NodeGroups {
            name,
            id: None,
            min_nodes,
            max_nodes,
            instance_type,
            disk_size_in_gib,
            desired_nodes: None,
            instance_architecture,
        })
    }
}

impl NodeGroupsWithDesiredState {
    /// Builds a desired-state record field by field.
    pub fn new(
        name: String,
        id: Option<String>,
        min_nodes: i32,
        max_nodes: i32,
        desired_size: i32,
        enable_desired_size: bool,
        instance_type: String,
        disk_size_in_gib: i32,
    ) -> (r: NodeGroupsWithDesiredState)
        ensures
            r.name@ == name@,
            r.id.deep_view() == id.deep_view(),
            r.min_nodes == min_nodes,
            r.max_nodes == max_nodes,
            r.desired_size == desired_size,
            r.enable_desired_size == enable_desired_size,
            r.instance_type@ == instance_type@,
            r.disk_size_in_gib == disk_size_in_gib,
            r.instance_architecture == CpuArchitecture::AMD64,
    {
        NodeGroupsWithDesiredState {
            name,
            id,
            min_nodes,
            max_nodes,
            desired_size,
            enable_desired_size,
            instance_type,
            disk_size_in_gib,
            instance_architecture: CpuArchitecture::AMD64,
        }
    }

    /// Copies a pool's identity and bounds, attaching the computed desired
    /// size.
    pub fn new_from_node_groups(
        node_groups: &NodeGroups,
        desired_size: i32,
        enable_desired_size: bool,
    ) -> (r: NodeGroupsWithDesiredState)
        ensures
            same_pool(&r, node_groups),
            r.desired_size == desired_size,
            r.enable_desired_size == enable_desired_size,
    {
        NodeGroupsWithDesiredState {
            name: node_groups.name.clone(),
            id: node_groups.id.clone(),
            min_nodes: node_groups.min_nodes,
            max_nodes: node_groups.max_nodes,
            desired_size,
            enable_desired_size,
            instance_type: node_groups.instance_type.clone(),
            disk_size_in_gib: node_groups.disk_size_in_gib,
            instance_architecture: node_groups.instance_architecture,
        }
    }
}

/// The desired-state record carries the pool's own identity and bounds
/// unchanged.
pub open spec fn same_pool(r: &NodeGroupsWithDesiredState, ng: &NodeGroups) -> bool {
    &&& r.name@ == ng.name@
    &&& r.id.deep_view() == ng.id.deep_view()
    &&& r.min_nodes == ng.min_nodes
    &&& r.max_nodes == ng.max_nodes
    &&& r.instance_type@ == ng.instance_type@
    &&& r.disk_size_in_gib == ng.disk_size_in_gib
    &&& r.instance_architecture == ng.instance_architecture
}

/// Clamp rule: a desired count below the minimum or above the maximum is
/// pulled back into range and must then be force-applied. The first
/// component says whether the value was forced, the second is the value.
pub open spec fn clamp_to_bounds(x: int, min_nodes: int, max_nodes: int) -> (bool, int) {
    if x < min_nodes {
        (true, min_nodes)
    } else if x > max_nodes {
        (true, max_nodes)
    } else {
        (false, x)
    }
}

/// Decision table mapping a lifecycle action and a pool's bounds to the
/// desired node count and the force flag.
pub open spec fn desired_state_decision(
    action: KubernetesClusterAction,
    min_nodes: int,
    max_nodes: int,
) -> (int, bool) {
    match action {
        KubernetesClusterAction::Bootstrap => (min_nodes, true),
        KubernetesClusterAction::Update(current_nodes) | KubernetesClusterAction::Upgrade(
            current_nodes,
        ) => match current_nodes {
            Some(x) => {
                let (forced, value) = clamp_to_bounds(x as int, min_nodes, max_nodes);
                (value, forced)
            },
            None => (max_nodes, true),
        },
        KubernetesClusterAction::Pause | KubernetesClusterAction::Delete => (min_nodes, false),
        KubernetesClusterAction::Resume(current_nodes) => match current_nodes {
            Some(x) => (clamp_to_bounds(x as int, min_nodes, max_nodes).1, true),
            None => (min_nodes, true),
        },
    }
}

/// Clamps an observed node count to the pool's bounds.
fn clamp_nodes(x: i32, min_nodes: i32, max_nodes: i32) -> (r: (bool, i32))
    ensures
        (r.0, r.1 as int) == clamp_to_bounds(x as int, min_nodes as int, max_nodes as int),
{
    if x < min_nodes {
        (true, min_nodes)
    } else if x > max_nodes {
        (true, max_nodes)
    } else {
        (false, x)
    }
}

/// Computes a pool's desired state for one lifecycle action.
///
/// Pure and total: every action yields a value, clamped to the pool's
/// bounds. `Bootstrap` pins the minimum (the first autoscaler install needs
/// an explicit size); `Update`/`Upgrade` defer to the observed count unless
/// it is unknown or out of bounds; `Pause`/`Delete` settle on the minimum
/// without forcing; `Resume` always forces, to return to service quickly.
pub fn select_nodegroups_autoscaling_group_behavior(
    action: KubernetesClusterAction,
    nodegroup: &NodeGroups,
) -> (r: NodeGroupsWithDesiredState)
    ensures
        same_pool(&r, nodegroup),
        (r.desired_size as int, r.enable_desired_size) == desired_state_decision(
            action,
            nodegroup.min_nodes as int,
            nodegroup.max_nodes as int,
        ),
{
    match action {
        KubernetesClusterAction::Bootstrap => NodeGroupsWithDesiredState::new_from_node_groups(
            nodegroup,
            nodegroup.min_nodes,
            true,
        ),
        KubernetesClusterAction::Update(current_nodes) | KubernetesClusterAction::Upgrade(
            current_nodes,
        ) => {
            let (upgrade_required, desired_state) = match current_nodes {
                Some(x) => clamp_nodes(x, nodegroup.min_nodes, nodegroup.max_nodes),
                // the nodegroup may have been deleted manually: assert a safe
                // value so a new nodegroup can still be created
                None => (true, nodegroup.max_nodes),
            };
            NodeGroupsWithDesiredState::new_from_node_groups(
                nodegroup,
                desired_state,
                upgrade_required,
            )
        },
        KubernetesClusterAction::Pause | KubernetesClusterAction::Delete => {
            NodeGroupsWithDesiredState::new_from_node_groups(nodegroup, nodegroup.min_nodes, false)
        },
        KubernetesClusterAction::Resume(current_nodes) => {
            // always set the desired state: no pre-pause state is persisted,
            // so optimize for a fast return to service
            let resume_nodes_number = match current_nodes {
                Some(x) => clamp_nodes(x, nodegroup.min_nodes, nodegroup.max_nodes).1,
                None => nodegroup.min_nodes,
            };
            NodeGroupsWithDesiredState::new_from_node_groups(nodegroup, resume_nodes_number, true)
        },
    }
}

/// Law: on a well-formed pool the reconciler never leaves the pool's range —
/// for every action the desired size stays within `[min_nodes, max_nodes]`.
pub proof fn lemma_desired_size_within_bounds(
    action: KubernetesClusterAction,
    min_nodes: int,
    max_nodes: int,
)
    requires
        min_nodes <= max_nodes,
    ensures
        min_nodes <= desired_state_decision(action, min_nodes, max_nodes).0 <= max_nodes,
{
}

} // verus!
