[package]
name = "provisioner_operator"
version = "0.1.0"
edition = "2021"
publish = false

[dependencies]
anyhow = "1"
base64 = "0.22"
futures = "0.3"
http = "1"
k8s-openapi = { version = "*", default-features = false, features = ["latest"] }
kube = { version = "*", default-features = false, features = ["client", "derive", "runtime", "rustls-tls", "ring"] }
reqwest = { version = "0.12", default-features = false, features = ["json"] }
schemars = "1"
serde = { version = "1", features = ["derive"] }
serde_json = "1"
sha2 = "0.10"
tokio = { version = "1", features = ["macros", "rt-multi-thread", "time"] }
tracing = "0.1"
tracing-subscriber = "0.3"
