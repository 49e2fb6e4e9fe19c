[package]
name = "jsonnet_exporter"
version = "0.1.0"
edition = "2021"
publish = false

[dependencies]
jrsonnet-evaluator = "=0.3.8"
jrsonnet-interner = "=0.3.8"
jrsonnet-parser = "=0.3.8"
jrsonnet-stdlib = "=0.3.8"
jrsonnet-types = "=0.3.8"
regex = "1"
serde_json = "1"
serde = { version = "1", features = ["derive"] }
serde_yaml = "0.9"
clap = { version = "4", features = ["derive"] }
warp = "0.3"
hyper = { version = "0.14", features = ["client", "http1", "http2", "tcp"] }
hyper-tls = "0.5"
tokio = { version = "1", features = ["rt-multi-thread", "macros"] }
bytes = "1"
prometheus = "0.13"
log = "0.4"
env_logger = "0.10"
