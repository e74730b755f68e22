[package]
name = "onboard_metrics"
version = "0.1.0"
edition = "2021"
publish = false

[dependencies]
env_logger = "*"
git-download = "*"
log = "*"
prometheus_exporter = "*"
reqwest = { version = "*", default-features = false, features = ["json"] }
serde_json = "*"
tokio = { version = "*", features = ["macros", "rt-multi-thread"] }
