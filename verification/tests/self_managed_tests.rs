use cluster_engine::self_managed::{EngineLocation, SelfManagedOptions};

#[test]
fn options_keep_their_endpoints() {
    let options = SelfManagedOptions::new(
        "grpc.example.com".to_string(),
        "engine.example.com".to_string(),
        "SECRET-REDACTED".to_string(),
        EngineLocation::ClientSide,
    );
    assert_eq!(options.qovery_grpc_url, "grpc.example.com");
    assert_eq!(options.qovery_engine_url, "engine.example.com");
    assert_eq!(options.jwt_token, "SECRET-REDACTED");
    assert_eq!(options.qovery_engine_location, EngineLocation::ClientSide);
}
