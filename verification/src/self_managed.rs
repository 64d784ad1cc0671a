//! Options of a self-managed Kubernetes cluster.

use vstd::prelude::*;

verus! {

/// Where the engine that drives the cluster runs.
#[derive(Clone, Copy, Debug, PartialEq, Eq, Structural)]
pub enum EngineLocation {
    ClientSide,
    QoverySide,
}

/// What a self-managed cluster needs from the control plane: the API
/// endpoints and the token to present there.
#[derive(Clone, Debug, PartialEq, Eq)]
pub struct SelfManagedOptions {
    pub qovery_grpc_url: String,
    pub qovery_engine_url: String,
    pub jwt_token: String,
    pub qovery_engine_location: EngineLocation,
}

impl SelfManagedOptions {
    /// Bundles the control-plane endpoints and credentials.
    pub fn new(
        qovery_grpc_url: String,
        qovery_engine_url: String,
        jwt_token: String,
        qovery_engine_location: EngineLocation,
    ) -> (r: SelfManagedOptions)
        ensures
            r.qovery_grpc_url@ == qovery_grpc_url@,
            r.qovery_engine_url@ == qovery_engine_url@,
            r.jwt_token@ == jwt_token@,
            r.qovery_engine_location == qovery_engine_location,
    {
        SelfManagedOptions { qovery_grpc_url, qovery_engine_url, jwt_token, qovery_engine_location }
    }
}

} // verus!
