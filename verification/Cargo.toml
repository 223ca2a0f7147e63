[package]
name = "sidedns-core"
version = "0.1.0"
edition = "2021"
publish = false

[dependencies]
anyhow = "=1.0.104"
arc-swap = "=1.9.3"
async-trait = "=0.1.92"
clap = { version = "=4.6.7", features = ["derive", "cargo"] }
confy = "=2.0.0"
daemon-kit = "=0.1.4"
dashmap = "=6.2.1"
dirs = "=7.0.0"
glob = "=0.3.4"
hickory-resolver = "=0.24.4"
hickory-server = "=0.24.4"
http-body-util = "=0.1.5"
hyper = { version = "=1.12.0", features = ["full"] }
hyper-util = { version = "=0.1.21", features = ["full"] }
inquire = "=0.9.4"
interprocess = { version = "=2.4.7", features = ["tokio"] }
is_superuser = "=1.0.1"
listeners = "=0.6.1"
rcgen = { version = "=0.14.10", features = ["x509-parser"] }
regex = "=1.13.1"
serde = { version = "=1.0.229", features = ["derive"] }
serde_json = "=1.0.154"
sha1 = "=0.10.7"
sysinfo = "=0.33.1"
thiserror = "=2.0.21"
tokio = { version = "=1.54.1", features = ["full"] }
tokio-rustls = { version = "=0.26.6", default-features = false, features = ["ring", "logging", "tls12"] }
tokio-util = "=0.7.20"
tracing = "=0.1.44"
tracing-subscriber = { version = "=0.3.23", features = ["env-filter"] }
