[package]
name = "atlas_user_operator"
version = "0.1.0"
edition = "2021"
publish = false

[dependencies]
anyhow = "=1.0.104"
async-trait = "=0.1.92"
chrono = { version = "=0.4.45", features = ["serde"] }
clap = { version = "=4.6.7", features = ["derive", "env"] }
diqwest = "=3.2.0"
futures = "=0.3.34"
humantime-serde = "=1.1.1"
json-patch = "=4.2.0"
k8s-openapi = { version = "=0.27.1", features = ["latest"] }
kube = { version = "=3.1.0", features = ["runtime", "derive"] }
kuberator = "=0.4.1"
log = { version = "=0.4.34", features = ["kv", "kv_serde"] }
log4rs = "=1.4.0"
reqwest = { version = "=0.13.5", features = ["json"] }
schemars = "=1.2.3"
serde = { version = "=1.0.229", features = ["derive"] }
serde_json = "=1.0.154"
serde_with = "=3.24.0"
serde_yaml = "=0.9.34"
thiserror = "=2.0.21"
tokio = { version = "=1.54.1", features = ["macros", "rt-multi-thread"] }
tracing = "=0.1.44"
