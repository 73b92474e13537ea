[package]
name = "control_plane"
version = "0.1.0"
edition = "2021"
publish = false

[dependencies]
uuid = { version = "=1.29.0", features = ["v4"] }
percent-encoding = "=2.3.2"
serde = { version = "=1.0.229", features = ["derive"] }
serde_json = "=1.0.154"
etcd-client = "=0.8.4"
tokio = { version = "=1.54.1", features = ["sync", "rt", "macros"] }
async-trait = "=0.1.92"
tracing = "=0.1.44"
clap = { version = "=4.6.7", features = ["derive"] }
prettytable-rs = "=0.10.0"
