[package]
name = "scaleway-operator"
version = "0.1.0"
edition = "2021"
publish = false

[dependencies]
kube = { version = "3.1.0", features = ["runtime", "derive", "client"] }
k8s-openapi = { version = "0.27.1", features = ["v1_35"] }
schemars = "1"
reqwest = { version = "0.12", features = ["json"] }
serde = { version = "1", features = ["derive"] }
serde_json = "1"
thiserror = "2"
tokio = { version = "1", features = ["full"] }
tracing = "0.1"
tracing-subscriber = { version = "0.3", features = ["env-filter"] }
prometheus = "0.14"
axum = "0.8"
chrono = { version = "0.4", features = ["serde"] }
uuid = { version = "1", features = ["v4"] }
futures = "0.3"
