[package]
name = "deploy_gateway"
version = "0.1.0"
edition = "2021"
publish = false

[dependencies]
anyhow = "1"
axum = "0.7"
envy = "0.4"
k8s-openapi = { version = "0.21", features = ["latest"] }
kube = { version = "0.88", default-features = false, features = ["client", "rustls-tls"] }
lazy_static = "1"
reqwest = { version = "0.12", default-features = false, features = ["json", "rustls-tls"] }
serde = { version = "1", features = ["derive"] }
serde_json = "1"
tokio = { version = "1", features = ["macros", "rt-multi-thread", "net"] }
tower = "0.4"
tower-http = { version = "0.5", features = ["compression-gzip", "decompression-gzip", "trace"] }
tracing = "0.1"
tracing-subscriber = { version = "0.3", features = ["env-filter"] }
url = { version = "2", features = ["serde"] }
