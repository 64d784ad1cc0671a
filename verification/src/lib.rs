//! Verified core of a multi-cloud Kubernetes provisioning engine.
//!
//! The crate covers the pieces of the control plane whose correctness is
//! proved rather than tested alone: node-pool desired-state reconciliation,
//! quorum-preserving recovery of failed node pools, the two-phase cluster
//! upgrade state machine with its compensating autoscaler restoration, and
//! the step/metrics recording registry with guaranteed completion.

pub mod cni_chart;
pub mod container;
pub mod errors;
pub mod metrics_registry;
pub mod nodegroups;
pub mod reconcile;
pub mod scw_node;
pub mod self_managed;
pub mod upgrade;
pub mod vault;
