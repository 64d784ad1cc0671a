use cluster_engine::container::{
    check_storage_size, default_port, get_passwords, startup_timeout, to_public_l4_ports,
    validate_container_resources, ContainerError, Port, Probe, Protocol, StorageSizeCheck,
};
use cluster_engine::vault::{update_vault_config, ClusterSecrets};

fn port(name: &str, protocol: Protocol, public: bool, is_default: bool) -> Port {
    Port {
        name: name.to_string(),
        port: 8080,
        is_default,
        publicly_accessible: public,
        protocol,
    }
}

#[test]
fn public_l4_ports_group_by_protocol() {
    let ports = vec![
        port("web", Protocol::HTTP, true, true),
        port("stream", Protocol::TCP, true, false),
        port("internal", Protocol::TCP, false, false),
        port("dns", Protocol::UDP, true, false),
    ];
    let tcp = to_public_l4_ports(&ports, Protocol::TCP, "example.com").unwrap();
    assert_eq!(tcp.protocol, Protocol::TCP);
    assert_eq!(tcp.ports.len(), 1);
    assert_eq!(tcp.ports[0].name, "stream");
    assert_eq!(tcp.hostnames, vec!["stream-example.com".to_string()]);

    let udp = to_public_l4_ports(&ports, Protocol::UDP, "example.com").unwrap();
    assert_eq!(udp.hostnames, vec!["dns-example.com".to_string()]);

    let grpc = to_public_l4_ports(&ports, Protocol::GRPC, "example.com");
    assert!(grpc.is_none());
}

#[test]
fn default_port_prefers_the_marked_one() {
    let ports = vec![
        port("a", Protocol::HTTP, true, false),
        port("b", Protocol::HTTP, true, true),
    ];
    assert_eq!(default_port(&ports).unwrap().name, "b");

    let unmarked = vec![
        port("a", Protocol::HTTP, true, false),
        port("b", Protocol::HTTP, true, false),
    ];
    assert_eq!(default_port(&unmarked).unwrap().name, "a");

    assert!(default_port(&vec![]).is_none());
}

fn message_of(err: ContainerError) -> String {
    let ContainerError::InvalidConfig(m) = err;
    m
}

#[test]
fn container_resources_are_validated_in_order() {
    assert!(validate_container_resources(1, 2, 100, 200, 256, 512).is_ok());
    assert_eq!(
        message_of(validate_container_resources(3, 2, 100, 200, 256, 512).unwrap_err()),
        "min_instances must be less or equal to max_instances"
    );
    assert_eq!(
        message_of(validate_container_resources(0, 2, 100, 200, 256, 512).unwrap_err()),
        "min_instances must be greater than 0"
    );
    assert_eq!(
        message_of(validate_container_resources(1, 2, 300, 200, 256, 512).unwrap_err()),
        "cpu_request_in_mili must be less or equal to cpu_limit_in_mili"
    );
    assert_eq!(
        message_of(validate_container_resources(1, 2, 0, 200, 256, 512).unwrap_err()),
        "cpu_request_in_mili must be greater than 0"
    );
    assert_eq!(
        message_of(validate_container_resources(1, 2, 100, 200, 768, 512).unwrap_err()),
        "ram_request_in_mib must be less or equal to ram_limit_in_mib"
    );
    assert_eq!(
        message_of(validate_container_resources(1, 2, 100, 200, 0, 512).unwrap_err()),
        "ram_request_in_mib must be greater than 0"
    );
}

#[test]
fn startup_timeout_follows_the_probes() {
    // no probes: the ten-minute floor
    assert_eq!(startup_timeout(&None, &None), 600);

    // a slow readiness probe dominates: 600 + (5 + 10) * 6 = 690
    let slow = Probe {
        initial_delay_seconds: 600,
        period_seconds: 10,
        timeout_seconds: 5,
        failure_threshold: 6,
    };
    assert_eq!(startup_timeout(&Some(slow), &None), 690);

    // a quick probe is lifted to the floor: 10 + (5 + 5) * 3 = 40 -> 600
    let quick = Probe {
        initial_delay_seconds: 10,
        period_seconds: 5,
        timeout_seconds: 5,
        failure_threshold: 3,
    };
    assert_eq!(startup_timeout(&Some(quick), &Some(quick)), 600);

    // the larger of the two probes wins
    assert_eq!(startup_timeout(&Some(quick), &Some(slow)), 690);
}

#[test]
fn passwords_carry_the_decoded_form() {
    assert_eq!(
        get_passwords("my%20pass"),
        vec!["my%20pass".to_string(), "my pass".to_string()]
    );
    // a password without escapes decodes to itself
    assert_eq!(
        get_passwords("plain-secret"),
        vec!["plain-secret".to_string(), "plain-secret".to_string()]
    );
}

#[test]
fn kubeconfig_is_stored_base64_encoded() {
    let secrets = ClusterSecrets { kubeconfig_b64: None };
    let updated = update_vault_config(secrets, "x");
    assert_eq!(updated.kubeconfig_b64, Some("eA==".to_string()));

    let secrets = ClusterSecrets { kubeconfig_b64: None };
    let updated = update_vault_config(secrets, "apiVersion: v1");
    assert_eq!(updated.kubeconfig_b64, Some("YXBpVmVyc2lvbjogdjE=".to_string()));
}

#[test]
fn storage_size_check_refuses_shrinking() {
    assert_eq!(check_storage_size(20, 20), StorageSizeCheck::NoChange);
    assert_eq!(check_storage_size(30, 20), StorageSizeCheck::NeedsResize);
    assert_eq!(check_storage_size(10, 20), StorageSizeCheck::ShrinkRefused);
}
