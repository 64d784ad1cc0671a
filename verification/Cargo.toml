[package]
name = "cluster_engine"
version = "0.1.0"
edition = "2021"
publish = false

[dependencies]
aws-sdk-eks = "=1.153.0"
aws-types = "=1.6.0"
base64 = "=0.23.1"
itertools = "=0.15.0"
k8s-openapi = { version = "=0.27.1", features = ["latest"] }
kube = "=3.1.0"
scaleway_api_rs = "=0.1.10"
scopeguard = "=1.2.0"
serde = { version = "=1.0.229", features = ["derive"] }
thiserror = "=2.0.21"
urlencoding = "=2.1.3"
uuid = { version = "=1.27.0", features = ["v4"] }
