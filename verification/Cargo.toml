[package]
name = "amphitheatre"
version = "0.1.0"
edition = "2021"
publish = false

[dependencies]
convert_case = "0.6"
k8s-openapi = { version = "0.17", features = ["v1_26"] }
sha2 = "0.10"
uuid = { version = "1", features = ["v4"] }
serde = { version = "1", features = ["derive"] }
serde_json = "1"
kube = { version = "0.80", features = ["runtime"] }
axum = { version = "0.6", features = ["headers"] }
tokio = { version = "1", features = ["full"] }
tar = "0.4"
anyhow = "1"
thiserror = "1"
tracing = "0.1"
clap = { version = "4", features = ["derive", "env"] }
futures = "0.3"
