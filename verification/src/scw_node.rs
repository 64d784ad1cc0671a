//! Scaleway node instance types and node groups.
//!
//! The instance-type catalogue, its cloud-provider spelling, and the
//! node-group constructor with its bounds check.

use crate::errors::str_eq;
use vstd::prelude::*;

verus! {

/// A Scaleway instance type offered for node pools.
#[allow(non_camel_case_types)]
#[derive(Clone, Copy, Debug, PartialEq, Eq, Structural)]
pub enum ScwInstancesType {
    DEV1_L,
    DEV1_M,
    DEV1_S,
    DEV1_XL,
    ENT1_L,
    ENT1_M,
    ENT1_S,
    ENT1_XS,
    ENT1_XXS,
    GP1_L,
    GP1_M,
    GP1_S,
    GP1_VIZ,
    GP1_XS,
    GPU_3070_S,
    PLAY2_MICRO,
    PLAY2_NANO,
    PLAY2_PICO,
    PRO2_L,
    PRO2_M,
    PRO2_S,
    PRO2_XS,
    PRO2_XXS,
    RENDER_S,
    START1_L,
    START1_M,
    START1_S,
    VC1L,
    VC1M,
    VC1S,
    X64_120GB,
    X64_15GB,
    X64_30GB,
    X64_60GB,
}

/// The cloud provider's spelling of each instance type.
pub open spec fn instance_type_name(t: ScwInstancesType) -> Seq<char> {
    match t {
        ScwInstancesType::DEV1_L => "dev1-l"@,
        ScwInstancesType::DEV1_M => "dev1-m"@,
        ScwInstancesType::DEV1_S => "dev1-s"@,
        ScwInstancesType::DEV1_XL => "dev1-xl"@,
        ScwInstancesType::ENT1_L => "ent1-l"@,
        ScwInstancesType::ENT1_M => "ent1-m"@,
        ScwInstancesType::ENT1_S => "ent1-s"@,
        ScwInstancesType::ENT1_XS => "ent1-xs"@,
        ScwInstancesType::ENT1_XXS => "ent1-xxs"@,
        ScwInstancesType::GP1_L => "gp1-l"@,
        ScwInstancesType::GP1_M => "gp1-m"@,
        ScwInstancesType::GP1_S => "gp1-s"@,
        ScwInstancesType::GP1_VIZ => "gp1-viz"@,
        ScwInstancesType::GP1_XS => "gp1-xs"@,
        ScwInstancesType::GPU_3070_S => "gpu-3070-s"@,
        ScwInstancesType::PLAY2_MICRO => "play2-micro"@,
        ScwInstancesType::PLAY2_NANO => "play2-nano"@,
        ScwInstancesType::PLAY2_PICO => "play2-pico"@,
        ScwInstancesType::PRO2_L => "pro2-l"@,
        ScwInstancesType::PRO2_M => "pro2-m"@,
        ScwInstancesType::PRO2_S => "pro2-s"@,
        ScwInstancesType::PRO2_XS => "pro2-xs"@,
        ScwInstancesType::PRO2_XXS => "pro2-xxs"@,
        ScwInstancesType::RENDER_S => "render-s"@,
        ScwInstancesType::START1_L => "start1-l"@,
        ScwInstancesType::START1_M => "start1-m"@,
        ScwInstancesType::START1_S => "start1-s"@,
        ScwInstancesType::VC1L => "vc1l"@,
        ScwInstancesType::VC1M => "vc1m"@,
        ScwInstancesType::VC1S => "vc1s"@,
        ScwInstancesType::X64_120GB => "x64-120gb"@,
        ScwInstancesType::X64_15GB => "x64-15gb"@,
        ScwInstancesType::X64_30GB => "x64-30gb"@,
        ScwInstancesType::X64_60GB => "x64-60gb"@,
    }
}

/// Parsing a cloud-provider spelling back to an instance type: the unique
/// type it names, or nothing for an unknown spelling.
pub open spec fn parse_instance_type(s: Seq<char>) -> Option<ScwInstancesType> {
    if s == "dev1-l"@ {
        Some(ScwInstancesType::DEV1_L)
    } else if s == "dev1-m"@ {
        Some(ScwInstancesType::DEV1_M)
    } else if s == "dev1-s"@ {
        Some(ScwInstancesType::DEV1_S)
    } else if s == "dev1-xl"@ {
        Some(ScwInstancesType::DEV1_XL)
    } else if s == "ent1-l"@ {
        Some(ScwInstancesType::ENT1_L)
    } else if s == "ent1-m"@ {
        Some(ScwInstancesType::ENT1_M)
    } else if s == "ent1-s"@ {
        Some(ScwInstancesType::ENT1_S)
    } else if s == "ent1-xs"@ {
        Some(ScwInstancesType::ENT1_XS)
    } else if s == "ent1-xxs"@ {
        Some(ScwInstancesType::ENT1_XXS)
    } else if s == "gp1-l"@ {
        Some(ScwInstancesType::GP1_L)
    } else if s == "gp1-m"@ {
        Some(ScwInstancesType::GP1_M)
    } else if s == "gp1-s"@ {
        Some(ScwInstancesType::GP1_S)
    } else if s == "gp1-viz"@ {
        Some(ScwInstancesType::GP1_VIZ)
    } else if s == "gp1-xs"@ {
        Some(ScwInstancesType::GP1_XS)
    } else if s == "gpu-3070-s"@ {
        Some(ScwInstancesType::GPU_3070_S)
    } else if s == "play2-micro"@ {
        Some(ScwInstancesType::PLAY2_MICRO)
    } else if s == "play2-nano"@ {
        Some(ScwInstancesType::PLAY2_NANO)
    } else if s == "play2-pico"@ {
        Some(ScwInstancesType::PLAY2_PICO)
    } else if s == "pro2-l"@ {
        Some(ScwInstancesType::PRO2_L)
    } else if s == "pro2-m"@ {
        Some(ScwInstancesType::PRO2_M)
    } else if s == "pro2-s"@ {
        Some(ScwInstancesType::PRO2_S)
    } else if s == "pro2-xs"@ {
        Some(ScwInstancesType::PRO2_XS)
    } else if s == "pro2-xxs"@ {
        Some(ScwInstancesType::PRO2_XXS)
    } else if s == "render-s"@ {
        Some(ScwInstancesType::RENDER_S)
    } else if s == "start1-l"@ {
        Some(ScwInstancesType::START1_L)
    } else if s == "start1-m"@ {
        Some(ScwInstancesType::START1_M)
    } else if s == "start1-s"@ {
        Some(ScwInstancesType::START1_S)
    } else if s == "vc1l"@ {
        Some(ScwInstancesType::VC1L)
    } else if s == "vc1m"@ {
        Some(ScwInstancesType::VC1M)
    } else if s == "vc1s"@ {
        Some(ScwInstancesType::VC1S)
    } else if s == "x64-120gb"@ {
        Some(ScwInstancesType::X64_120GB)
    } else if s == "x64-15gb"@ {
        Some(ScwInstancesType::X64_15GB)
    } else if s == "x64-30gb"@ {
        Some(ScwInstancesType::X64_30GB)
    } else if s == "x64-60gb"@ {
        Some(ScwInstancesType::X64_60GB)
    } else {
        None
    }
}

/// Instance types a cluster cannot be built on: too small to host the
/// cluster's own workloads.
pub open spec fn spec_is_instance_cluster_allowed(t: ScwInstancesType) -> bool {
    !(t is DEV1_S || t is PLAY2_PICO || t is START1_S || t is VC1S)
}

impl ScwInstancesType {
    /// The provider's spelling, as a borrowed slice.
    pub fn as_str(&self) -> (r: &str)
        ensures
            r@ == instance_type_name(*self),
    {
        match self {
            ScwInstancesType::DEV1_L => "dev1-l",
            ScwInstancesType::DEV1_M => "dev1-m",
            ScwInstancesType::DEV1_S => "dev1-s",
            ScwInstancesType::DEV1_XL => "dev1-xl",
            ScwInstancesType::ENT1_L => "ent1-l",
            ScwInstancesType::ENT1_M => "ent1-m",
            ScwInstancesType::ENT1_S => "ent1-s",
            ScwInstancesType::ENT1_XS => "ent1-xs",
            ScwInstancesType::ENT1_XXS => "ent1-xxs",
            ScwInstancesType::GP1_L => "gp1-l",
            ScwInstancesType::GP1_M => "gp1-m",
            ScwInstancesType::GP1_S => "gp1-s",
            ScwInstancesType::GP1_VIZ => "gp1-viz",
            ScwInstancesType::GP1_XS => "gp1-xs",
            ScwInstancesType::GPU_3070_S => "gpu-3070-s",
            ScwInstancesType::PLAY2_MICRO => "play2-micro",
            ScwInstancesType::PLAY2_NANO => "play2-nano",
            ScwInstancesType::PLAY2_PICO => "play2-pico",
            ScwInstancesType::PRO2_L => "pro2-l",
            ScwInstancesType::PRO2_M => "pro2-m",
            ScwInstancesType::PRO2_S => "pro2-s",
            ScwInstancesType::PRO2_XS => "pro2-xs",
            ScwInstancesType::PRO2_XXS => "pro2-xxs",
            ScwInstancesType::RENDER_S => "render-s",
            ScwInstancesType::START1_L => "start1-l",
            ScwInstancesType::START1_M => "start1-m",
            ScwInstancesType::START1_S => "start1-s",
            ScwInstancesType::VC1L => "vc1l",
            ScwInstancesType::VC1M => "vc1m",
            ScwInstancesType::VC1S => "vc1s",
            ScwInstancesType::X64_120GB => "x64-120gb",
            ScwInstancesType::X64_15GB => "x64-15gb",
            ScwInstancesType::X64_30GB => "x64-30gb",
            ScwInstancesType::X64_60GB => "x64-60gb",
        }
    }

    /// The provider's spelling, as an owned string.
    pub fn to_cloud_provider_format(&self) -> (r: String)
        ensures
            r@ == instance_type_name(*self),
    {
        self.as_str().to_owned()
    }

    /// Whether the type may be used for workloads at all. The whole
    /// current catalogue is allowed.
    pub fn is_instance_allowed(&self) -> (r: bool)
        ensures
            r,
    {
        true
    }

    /// No Scaleway type of the catalogue runs an ARM processor.
    pub fn is_arm_instance(&self) -> (r: bool)
        ensures
            !r,
    {
        false
    }

    /// Whether a cluster may be built on this type: the smallest sizes are
    /// refused.
    pub fn is_instance_cluster_allowed(&self) -> (r: bool)
        ensures
            r == spec_is_instance_cluster_allowed(*self),
    {
        !matches!(
            self,
            ScwInstancesType::DEV1_S
                | ScwInstancesType::PLAY2_PICO
                | ScwInstancesType::START1_S
                | ScwInstancesType::VC1S
        )
    }

    /// Parses the provider's spelling; an unknown spelling is refused with
    /// a message naming it.
    pub fn from_str(s: &str) -> (r: Result<ScwInstancesType, crate::errors::CommandError>)
        ensures
            parse_instance_type(s@) matches Some(t) ==> r == Ok::<
                _,
                crate::errors::CommandError,
            >(t),
            parse_instance_type(s@) is None ==> (r matches Err(e) && e.spec_message() == "`"@ + s@
                + "` instance type is not supported"@),
    {
        if str_eq(s, "dev1-l") {
            Ok(ScwInstancesType::DEV1_L)
        } else if str_eq(s, "dev1-m") {
            Ok(ScwInstancesType::DEV1_M)
        } else if str_eq(s, "dev1-s") {
            Ok(ScwInstancesType::DEV1_S)
        } else if str_eq(s, "dev1-xl") {
            Ok(ScwInstancesType::DEV1_XL)
        } else if str_eq(s, "ent1-l") {
            Ok(ScwInstancesType::ENT1_L)
        } else if str_eq(s, "ent1-m") {
            Ok(ScwInstancesType::ENT1_M)
        } else if str_eq(s, "ent1-s") {
            Ok(ScwInstancesType::ENT1_S)
        } else if str_eq(s, "ent1-xs") {
            Ok(ScwInstancesType::ENT1_XS)
        } else if str_eq(s, "ent1-xxs") {
            Ok(ScwInstancesType::ENT1_XXS)
        } else if str_eq(s, "gp1-l") {
            Ok(ScwInstancesType::GP1_L)
        } else if str_eq(s, "gp1-m") {
            Ok(ScwInstancesType::GP1_M)
        } else if str_eq(s, "gp1-s") {
            Ok(ScwInstancesType::GP1_S)
        } else if str_eq(s, "gp1-viz") {
            Ok(ScwInstancesType::GP1_VIZ)
        } else if str_eq(s, "gp1-xs") {
            Ok(ScwInstancesType::GP1_XS)
        } else if str_eq(s, "gpu-3070-s") {
            Ok(ScwInstancesType::GPU_3070_S)
        } else if str_eq(s, "play2-micro") {
            Ok(ScwInstancesType::PLAY2_MICRO)
        } else if str_eq(s, "play2-nano") {
            Ok(ScwInstancesType::PLAY2_NANO)
        } else if str_eq(s, "play2-pico") {
            Ok(ScwInstancesType::PLAY2_PICO)
        } else if str_eq(s, "pro2-l") {
            Ok(ScwInstancesType::PRO2_L)
        } else if str_eq(s, "pro2-m") {
            Ok(ScwInstancesType::PRO2_M)
        } else if str_eq(s, "pro2-s") {
            Ok(ScwInstancesType::PRO2_S)
        } else if str_eq(s, "pro2-xs") {
            Ok(ScwInstancesType::PRO2_XS)
        } else if str_eq(s, "pro2-xxs") {
            Ok(ScwInstancesType::PRO2_XXS)
        } else if str_eq(s, "render-s") {
            Ok(ScwInstancesType::RENDER_S)
        } else if str_eq(s, "start1-l") {
            Ok(ScwInstancesType::START1_L)
        } else if str_eq(s, "start1-m") {
            Ok(ScwInstancesType::START1_M)
        } else if str_eq(s, "start1-s") {
            Ok(ScwInstancesType::START1_S)
        } else if str_eq(s, "vc1l") {
            Ok(ScwInstancesType::VC1L)
        } else if str_eq(s, "vc1m") {
            Ok(ScwInstancesType::VC1M)
        } else if str_eq(s, "vc1s") {
            Ok(ScwInstancesType::VC1S)
        } else if str_eq(s, "x64-120gb") {
            Ok(ScwInstancesType::X64_120GB)
        } else if str_eq(s, "x64-15gb") {
            Ok(ScwInstancesType::X64_15GB)
        } else if str_eq(s, "x64-30gb") {
            Ok(ScwInstancesType::X64_30GB)
        } else if str_eq(s, "x64-60gb") {
            Ok(ScwInstancesType::X64_60GB)
        } else {
            let mut message = String::from_str("`");
            message.append(s);
            message.append("` instance type is not supported");
            proof {
                assert(message@ =~= "`"@ + s@ + "` instance type is not supported"@);
            }
            Err(crate::errors::CommandError::new_from_safe_message(message))
        }
    }

    /// Every instance type of the catalogue, in declaration order.
    pub fn all_types() -> (r: Vec<ScwInstancesType>)
        ensures
            r@.len() == 34,
            forall|t: ScwInstancesType| r@.contains(t),
    {
        let out: Vec<ScwInstancesType> = vec![
            ScwInstancesType::DEV1_L,
            ScwInstancesType::DEV1_M,
            ScwInstancesType::DEV1_S,
            ScwInstancesType::DEV1_XL,
            ScwInstancesType::ENT1_L,
            ScwInstancesType::ENT1_M,
            ScwInstancesType::ENT1_S,
            ScwInstancesType::ENT1_XS,
            ScwInstancesType::ENT1_XXS,
            ScwInstancesType::GP1_L,
            ScwInstancesType::GP1_M,
            ScwInstancesType::GP1_S,
            ScwInstancesType::GP1_VIZ,
            ScwInstancesType::GP1_XS,
            ScwInstancesType::GPU_3070_S,
            ScwInstancesType::PLAY2_MICRO,
            ScwInstancesType::PLAY2_NANO,
            ScwInstancesType::PLAY2_PICO,
            ScwInstancesType::PRO2_L,
            ScwInstancesType::PRO2_M,
            ScwInstancesType::PRO2_S,
            ScwInstancesType::PRO2_XS,
            ScwInstancesType::PRO2_XXS,
            ScwInstancesType::RENDER_S,
            ScwInstancesType::START1_L,
            ScwInstancesType::START1_M,
            ScwInstancesType::START1_S,
            ScwInstancesType::VC1L,
            ScwInstancesType::VC1M,
            ScwInstancesType::VC1S,
            ScwInstancesType::X64_120GB,
            ScwInstancesType::X64_15GB,
            ScwInstancesType::X64_30GB,
            ScwInstancesType::X64_60GB,
        ];
        proof {
            assert forall|t: ScwInstancesType| out@.contains(t) by {
                match t {
                    ScwInstancesType::DEV1_L => assert(out@[0] == t),
                    ScwInstancesType::DEV1_M => assert(out@[1] == t),
                    ScwInstancesType::DEV1_S => assert(out@[2] == t),
                    ScwInstancesType::DEV1_XL => assert(out@[3] == t),
                    ScwInstancesType::ENT1_L => assert(out@[4] == t),
                    ScwInstancesType::ENT1_M => assert(out@[5] == t),
                    ScwInstancesType::ENT1_S => assert(out@[6] == t),
                    ScwInstancesType::ENT1_XS => assert(out@[7] == t),
                    ScwInstancesType::ENT1_XXS => assert(out@[8] == t),
                    ScwInstancesType::GP1_L => assert(out@[9] == t),
                    ScwInstancesType::GP1_M => assert(out@[10] == t),
                    ScwInstancesType::GP1_S => assert(out@[11] == t),
                    ScwInstancesType::GP1_VIZ => assert(out@[12] == t),
                    ScwInstancesType::GP1_XS => assert(out@[13] == t),
                    ScwInstancesType::GPU_3070_S => assert(out@[14] == t),
                    ScwInstancesType::PLAY2_MICRO => assert(out@[15] == t),
                    ScwInstancesType::PLAY2_NANO => assert(out@[16] == t),
                    ScwInstancesType::PLAY2_PICO => assert(out@[17] == t),
                    ScwInstancesType::PRO2_L => assert(out@[18] == t),
                    ScwInstancesType::PRO2_M => assert(out@[19] == t),
                    ScwInstancesType::PRO2_S => assert(out@[20] == t),
                    ScwInstancesType::PRO2_XS => assert(out@[21] == t),
                    ScwInstancesType::PRO2_XXS => assert(out@[22] == t),
                    ScwInstancesType::RENDER_S => assert(out@[23] == t),
                    ScwInstancesType::START1_L => assert(out@[24] == t),
                    ScwInstancesType::START1_M => assert(out@[25] == t),
                    ScwInstancesType::START1_S => assert(out@[26] == t),
                    ScwInstancesType::VC1L => assert(out@[27] == t),
                    ScwInstancesType::VC1M => assert(out@[28] == t),
                    ScwInstancesType::VC1S => assert(out@[29] == t),
                    ScwInstancesType::X64_120GB => assert(out@[30] == t),
                    ScwInstancesType::X64_15GB => assert(out@[31] == t),
                    ScwInstancesType::X64_30GB => assert(out@[32] == t),
                    ScwInstancesType::X64_60GB => assert(out@[33] == t),
                }
            }
        }
        out
    }
}

/// Law: every spelling of the catalogue parses — no instance type's
/// cloud-provider name falls through to the unsupported case.
pub proof fn lemma_catalogue_parses(t: ScwInstancesType)
    ensures
        parse_instance_type(instance_type_name(t)) is Some,
{
}

/// The scaleway_api_rs pool status, held opaquely: the node-group logic
/// stores it for the caller but never reads it.
#[verifier::external_type_specification]
#[verifier::external_body]
pub struct ExScalewayK8sV1PoolStatus(
    scaleway_api_rs::models::scaleway_period_k8s_period_v1_period_pool::Status,
);

/// A Scaleway node group as described by the provider, with its size range
/// already checked.
pub struct ScwNodeGroup {
    pub name: String,
    pub id: Option<String>,
    pub min_nodes: i32,
    pub max_nodes: i32,
    pub instance_type: String,
    pub disk_size_in_gib: i32,
    pub status: scaleway_api_rs::models::scaleway_period_k8s_period_v1_period_pool::Status,
}

impl ScwNodeGroup {
    /// Builds a node group, rejecting a range whose minimum exceeds its
    /// maximum.
    pub fn new(
        id: Option<String>,
        group_name: String,
        min_nodes: i32,
        max_nodes: i32,
        instance_type: String,
        disk_size_in_gib: i32,
        status: scaleway_api_rs::models::scaleway_period_k8s_period_v1_period_pool::Status,
    ) -> (r: Result<Self, crate::errors::CommandError>)
        ensures
            min_nodes <= max_nodes <==> r is Ok,
            r matches Ok(g) ==> {
                &&& g.name@ == group_name@
                &&& g.id.deep_view() == id.deep_view()
                &&& g.min_nodes == min_nodes
                &&& g.max_nodes == max_nodes
                &&& g.instance_type@ == instance_type@
                &&& g.disk_size_in_gib == disk_size_in_gib
            },
    {
        if min_nodes > max_nodes {
            let mut message = String::from_str(
                "The number of minimum nodes for node group ",
            );
            message.append(group_name.as_str());
            message.append(" is higher than the number of maximum nodes");
            return Err(crate::errors::CommandError::new_from_safe_message(message));
        }
        Ok(ScwNodeGroup { name: group_name, id, min_nodes, max_nodes, instance_type, disk_size_in_gib, status })
    }
}

/// Why a node pool's instance type is refused before anything is
/// provisioned.
#[derive(Clone, Debug, PartialEq, Eq)]
pub enum InstanceTypeError {
    /// The type exists but clusters may not be built on it.
    NotAllowedInstanceType(String),
    /// The type is not in the catalogue at all.
    UnsupportedInstanceType(String),
}

/// A pool's instance type passes validation when it parses and a cluster
/// may be built on it.
pub open spec fn pool_instance_type_ok(s: Seq<char>) -> bool {
    match parse_instance_type(s) {
        Some(t) => spec_is_instance_cluster_allowed(t),
        None => false,
    }
}

/// Validates every pool's instance type, failing fast — before any
/// external call — on the first pool whose type is unknown
/// (`UnsupportedInstanceType`) or known but refused for clusters
/// (`NotAllowedInstanceType`); the offending spelling is carried in the
/// error.
pub fn validate_node_groups(nodes_groups: &Vec<crate::reconcile::NodeGroups>) -> (r: Result<
    (),
    InstanceTypeError,
>)
    ensures
        r is Ok <==> (forall|i: int|
            0 <= i < nodes_groups@.len() ==> pool_instance_type_ok(
                #[trigger] nodes_groups@[i].instance_type@,
            )),
        r matches Err(InstanceTypeError::UnsupportedInstanceType(x)) ==> exists|i: int|
            0 <= i < nodes_groups@.len() && parse_instance_type(
                #[trigger] nodes_groups@[i].instance_type@,
            ) is None && x@ == nodes_groups@[i].instance_type@,
        r matches Err(InstanceTypeError::NotAllowedInstanceType(x)) ==> exists|i: int|
            0 <= i < nodes_groups@.len() && (parse_instance_type(
                #[trigger] nodes_groups@[i].instance_type@,
            ) matches Some(t) && !spec_is_instance_cluster_allowed(t)) && x@
                == nodes_groups@[i].instance_type@,
{
    let mut i: usize = 0;
    while i < nodes_groups.len()
        invariant
            0 <= i <= nodes_groups@.len(),
            forall|j: int|
                0 <= j < i ==> pool_instance_type_ok(#[trigger] nodes_groups@[j].instance_type@),
        decreases nodes_groups@.len() - i,
    {
        let node_group = &nodes_groups[i];
        match ScwInstancesType::from_str(node_group.instance_type.as_str()) {
            Ok(instance_type) => {
                if !instance_type.is_instance_cluster_allowed() {
                    proof {
                        assert(parse_instance_type(nodes_groups@[i as int].instance_type@)
                            == Some(instance_type));
                    }
                    return Err(
                        InstanceTypeError::NotAllowedInstanceType(node_group.instance_type.clone()),
                    );
                }
            },
            Err(_) => {
                proof {
                    assert(parse_instance_type(nodes_groups@[i as int].instance_type@) is None);
                }
                return Err(
                    InstanceTypeError::UnsupportedInstanceType(node_group.instance_type.clone()),
                );
            },
        }
        i += 1;
    }
    Ok(())
}

} // verus!
