[package]
name = "outpost"
version = "0.1.0"
edition = "2021"
publish = false

[dependencies]
anyhow = "=1.0.104"
aws-config = { version = "=1.12.0", default-features = false }
aws-sdk-cloudformation = { version = "=1.130.0", default-features = false }
aws-sdk-route53 = { version = "=1.127.0", default-features = false }
axum = "=0.8.9"
chrono = "=0.4.45"
clap = { version = "=4.6.7", features = ["derive", "env"] }
futures = "=0.3.34"
nix = { version = "=0.31.3", features = ["net"] }
reqwest = { version = "=0.13.5", default-features = false }
serde = { version = "=1.0.229", features = ["derive"] }
serde_json = "=1.0.151"
serde_yaml = "=0.9.34"
tempfile = "=3.27.0"
tokio = { version = "=1.53.2", features = ["rt-multi-thread", "macros", "signal", "process", "sync", "time", "net"] }
