[package]
name = "ephemeron"
version = "0.1.0"
edition = "2021"
publish = false

[dependencies]
chrono = "=0.4.45"
futures = "=0.3.34"
hyper = { version = "=0.14.32", features = ["client", "http1", "tcp"] }
jsonwebtoken = { version = "=11.1.0", features = ["rust_crypto"] }
k8s-openapi = { version = "=0.28.0", features = ["latest"] }
kube = { version = "=4.2.0", features = ["derive", "runtime"] }
serde = { version = "=1.0.229", features = ["derive"] }
serde_json = "=1.0.151"
serde_yaml = "=0.9.34"
tokio = { version = "=1.53.2", features = ["macros", "rt-multi-thread"] }
warp = { version = "=0.4.3", features = ["server"] }
xid = "=1.1.1"
